# NovaVM core

NovaVM is a desktop virtualization workstation. This crate is its core,
written in Verus: every function in `src/` carries a contract that the
verifier checks, and the calls into outside crates sit behind small trusted
items whose contracts say what those crates document.

## Layout

- `src/engine` — VM configuration, the VM state machine
  (Stopped → Running ⇄ Paused → Stopped, Crashed → Running), the VM registry
  and the engine's bookkeeping around hypervisor calls.
- `src/hypervisor` — the emulated PC devices behind the I/O port bus
  (PIC, PIT, RTC, UART, VGA, IDE, PCI, USB, ACPI, TPM, VirtIO-net), the
  decisions of the native backends (exit handling, BIOS disk services, boot
  planning, memory layout, the guest screens and shell), the command lines of
  the QEMU and VirtualBox backends, and engine detection.
- `src/memory`, `src/scheduler`, `src/monitor`, `src/network` — resource
  managers: memory allocation and pressure, vCPU policies, bounded metric
  histories, virtual switches.
- `src/storage` — disk metadata, zstd cluster compression, AES-256-GCM cluster
  encryption and the snapshot graph of a disk.
- `src/snapshot` — live snapshots (pause, record, resume) on the engine.
- `src/agent` — the guest agent protocol (length-prefixed frames) and the
  decisions around scripts and user accounts run inside a guest.
- `src/api`, `src/state`, `src/sdk` — the values handed to the front end,
  application state (settings, bounded log, serial buffers) and the plugin
  interface.
- `src/util` — text, byte and identifier helpers with their specifications.
- `tests/` — behaviour tests run against the compiled library.
- `app/` — the command-line host: host probes, process and file I/O, JSON
  persistence and the serialisable copies of library records.
