//! Properties of the QEMU command line that `build_args` produces.
use vstd::prelude::*;
use crate::hypervisor::backend::qemu::{qemu_args, QemuLaunchParams};
use crate::util::parse::{digits_value, is_digit, lemma_decimal_reads_back};
use crate::util::text::decimal;

verus! {

/// The guest memory QEMU is given is the configured memory in MiB: in every
/// command line the option `-m` is followed by decimal digits that read back
/// as `p.memory_mib`, then the unit letter `M`.
pub proof fn law_memory_argument(id: u128, name: Seq<char>, p: QemuLaunchParams, ovmf: Option<Seq<char>>)
    ensures
        ({
            let args = qemu_args(id, name, p, ovmf);
            let m = args[7];
            &&& args[6] == "-m"@
            &&& m.len() > 1 && m.last() == 'M'
            &&& forall|i: int| 0 <= i < m.len() - 1 ==> is_digit(#[trigger] m[i])
            &&& digits_value(m.drop_last()) == p.memory_mib
        }),
{
    reveal_strlit("M");
    lemma_decimal_reads_back(p.memory_mib as nat);
    let args = qemu_args(id, name, p, ovmf);
    let m = decimal(p.memory_mib as nat) + "M"@;
    assert(args[7] == m);
    assert(m.drop_last() =~= decimal(p.memory_mib as nat));
    assert forall|i: int| 0 <= i < m.len() - 1 implies is_digit(#[trigger] m[i]) by {
        assert(m[i] == decimal(p.memory_mib as nat)[i]);
    }
}

/// QEMU is given as many virtual CPUs as configured: the option `-smp` is
/// followed by decimal digits that read back as `p.vcpus`, then a comma.
pub proof fn law_vcpu_argument(id: u128, name: Seq<char>, p: QemuLaunchParams, ovmf: Option<Seq<char>>)
    ensures
        ({
            let args = qemu_args(id, name, p, ovmf);
            let c = args[5];
            let k = decimal(p.vcpus as nat).len() as int;
            &&& args[4] == "-smp"@
            &&& 0 < k < c.len() && c[k] == ','
            &&& forall|i: int| 0 <= i < k ==> is_digit(#[trigger] c[i])
            &&& digits_value(c.subrange(0, k)) == p.vcpus
        }),
{
    reveal_strlit(",sockets=1,cores=");
    lemma_decimal_reads_back(p.vcpus as nat);
    let d = decimal(p.vcpus as nat);
    let c = d + ",sockets=1,cores="@ + d + ",threads=1"@;
    assert(qemu_args(id, name, p, ovmf)[5] == c);
    assert(c.subrange(0, d.len() as int) =~= d);
    assert(c[d.len() as int] == ',');
    assert forall|i: int| 0 <= i < d.len() implies is_digit(#[trigger] c[i]) by {
        assert(c[i] == d[i]);
    }
}

} // verus!
