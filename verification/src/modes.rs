use crate::regs::CpuidSnapshot;
use vstd::prelude::*;

verus! {

/// Whether the register values report long-mode capability: the extended
/// selector range must reach 0x80000001, and bit 29 of that leaf's fourth
/// register must be set. When the range falls short the leaf does not exist
/// and the conservative 32-bit answer stands.
pub open spec fn spec_long_mode(ext_max: u32, ext1_edx: u32) -> bool {
    ext_max >= 0x80000001 && ext1_edx & (1u32 << 29) != 0
}

/// The reported architecture for the given extended-leaf registers.
pub open spec fn spec_architecture(ext_max: u32, ext1_edx: u32) -> Seq<char> {
    if spec_long_mode(ext_max, ext1_edx) {
        "x86_64"@
    } else {
        "x86"@
    }
}

/// The reported operation-mode list for the given extended-leaf registers.
pub open spec fn spec_op_modes(ext_max: u32, ext1_edx: u32) -> Seq<char> {
    if spec_long_mode(ext_max, ext1_edx) {
        "32-bit, 64-bit"@
    } else {
        "32-bit"@
    }
}

/// Long-mode-capable register values yield the 64-bit architecture and mode
/// list; all others yield the 32-bit pair, whose mode list contains the
/// 64-bit designator nowhere.
pub proof fn lemma_long_mode_decode(ext_max: u32, ext1_edx: u32)
    ensures
        spec_long_mode(ext_max, ext1_edx) ==> {
            &&& spec_architecture(ext_max, ext1_edx) == "x86_64"@
            &&& spec_op_modes(ext_max, ext1_edx) == "32-bit, 64-bit"@
        },
        !spec_long_mode(ext_max, ext1_edx) ==> {
            &&& spec_architecture(ext_max, ext1_edx) == "x86"@
            &&& spec_op_modes(ext_max, ext1_edx) == "32-bit"@
            &&& forall|i: int|
                0 <= i && i + 6 <= "32-bit"@.len() ==> #[trigger] "32-bit"@.subrange(
                    i,
                    i + 6,
                ) != "64-bit"@
        },
{
    reveal_strlit("32-bit");
    reveal_strlit("64-bit");
    assert("32-bit"@[0] == '3' && "64-bit"@[0] == '6');
    assert("32-bit"@ != "64-bit"@);
    assert forall|i: int| 0 <= i && i + 6 <= "32-bit"@.len() implies #[trigger] "32-bit"@.subrange(
        i,
        i + 6,
    ) != "64-bit"@ by {
        assert(i == 0);
        assert("32-bit"@.subrange(0, 6) =~= "32-bit"@);
    }
}

/// The detected architecture: 64-bit exactly when the extended leaves report
/// long-mode capability.
pub fn get_cpu_architecture(s: &CpuidSnapshot) -> (r: &'static str)
    ensures
        r@ == spec_architecture(s.ext0.eax, s.ext1.edx),
{
    if s.ext0.eax < 0x80000001 {
        return "x86";
    }
    if s.ext1.edx & (1u32 << 29) != 0 {
        "x86_64"
    } else {
        "x86"
    }
}

/// The supported operation modes: both widths exactly when the extended
/// leaves report long-mode capability.
pub fn get_cpu_op_modes(s: &CpuidSnapshot) -> (r: &'static str)
    ensures
        r@ == spec_op_modes(s.ext0.eax, s.ext1.edx),
{
    if s.ext0.eax < 0x80000001 {
        return "32-bit";
    }
    if s.ext1.edx & (1u32 << 29) != 0 {
        "32-bit, 64-bit"
    } else {
        "32-bit"
    }
}

} // verus!
