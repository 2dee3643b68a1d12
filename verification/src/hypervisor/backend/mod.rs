//! Backend-side logic that does not touch a host hypervisor API: the guest
//! shell, boot screens, BIOS image and hypercall decoding of the native
//! engine, and the command lines of the external engines.
pub mod screen;
pub mod shell;
pub mod whp;
pub mod kvm;
pub mod null;
pub mod qemu;
pub mod vbox;
pub mod locate;
pub mod caps;
pub mod qemu_cmdline;
