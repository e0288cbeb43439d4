use crate::regs::CpuidSnapshot;
use crate::text::append_dec;
use crate::text::dec_str;
use vstd::prelude::*;
use vstd::string::StringExecFns;

verus! {

/// Relies on u16::to_ne_bytes: the memory representation of the value in
/// native byte order, which is either the little-endian or the big-endian
/// order of its two bytes.
#[verifier::external_body]
fn native_order_bytes(v: u16) -> (r: (u8, u8))
    ensures
        (r.0 == v as u8 && r.1 == (v >> 8) as u8) || (r.0 == (v >> 8) as u8 && r.1
            == v as u8),
{
    let b = v.to_ne_bytes();
    (b[0], b[1])
}

/// The answer the probe's first byte decides: the value 0x0001 stored with
/// its 0x01 byte first means the low byte comes first in memory.
pub open spec fn spec_byte_order(first: u8) -> Seq<char> {
    if first == 0x01 {
        "Little Endian"@
    } else {
        "Big Endian"@
    }
}

/// The decision made from the probed first byte: "Little Endian" exactly
/// when that byte is 0x01. Verified for every byte value, apart from the
/// probe itself, which only a live host can answer.
pub fn order_from_probe(first: u8) -> (r: &'static str)
    ensures
        r@ == spec_byte_order(first),
{
    if first == 0x01 {
        "Little Endian"
    } else {
        "Big Endian"
    }
}

/// The byte order of the running host: writes the two-byte value 0x0001 in
/// native order and decides from the first byte through
/// [`order_from_probe`]. Not derived from the identification instruction,
/// and the one answer here that depends on the host rather than on a
/// snapshot — hence only the range of the result can be stated here.
pub fn get_byte_order() -> (r: &'static str)
    ensures
        r@ == "Little Endian"@ || r@ == "Big Endian"@,
{
    let (first, _second) = native_order_bytes(0x0001);
    order_from_probe(first)
}

/// The rendered address sizes: the physical size is the low byte of the
/// first register of the extended address-size leaf, the virtual size the
/// next byte.
pub open spec fn spec_address_sizes(eax: u32) -> Seq<char> {
    dec_str((eax & 0xFF) as nat) + " bits physical, "@ + dec_str(((eax >> 8) & 0xFF) as nat)
        + " bits virtual"@
}

/// The physical and virtual address sizes, rendered as text.
pub fn get_address_sizes(s: &CpuidSnapshot) -> (r: String)
    ensures
        r@ == spec_address_sizes(s.ext8.eax),
{
    let eax = s.ext8.eax;
    let physical_size = eax & 0xFF;
    let virtual_size = (eax >> 8) & 0xFF;
    let mut result = String::new();
    append_dec(&mut result, physical_size);
    result.append(" bits physical, ");
    append_dec(&mut result, virtual_size);
    result.append(" bits virtual");
    proof {
        assert(result@ =~= spec_address_sizes(s.ext8.eax));
    }
    result
}

/// The hybrid-core answer: bit 15 of the fourth register of the
/// structured-feature leaf.
pub open spec fn spec_hybrid_flag(edx: u32) -> Seq<char> {
    if edx & (1u32 << 15) != 0 {
        "hybrid"@
    } else {
        "no"@
    }
}

/// Whether the processor reports hybrid cores.
pub fn get_hybrid_flag(s: &CpuidSnapshot) -> (r: &'static str)
    ensures
        r@ == spec_hybrid_flag(s.leaf7_0.edx),
{
    if s.leaf7_0.edx & (1u32 << 15) != 0 {
        "hybrid"
    } else {
        "no"
    }
}

/// The frequency-boost answer: the disable-bit test reads bit 38 of the
/// second register of the power-management leaf zero-extended to 64 bits.
/// The test is kept literal — a known oddity, since a zero-extended 32-bit
/// value never sets a bit that high.
pub open spec fn spec_boost_enabled(ebx: u32) -> Seq<char> {
    if (ebx as u64) & (1u64 << 38) != 0 {
        "disabled"@
    } else {
        "enabled"@
    }
}

/// Whether frequency boost is enabled (the bit read means "boost disabled").
pub fn get_boost_enabled(s: &CpuidSnapshot) -> (r: &'static str)
    ensures
        r@ == spec_boost_enabled(s.ext7.ebx),
{
    let ebx = s.ext7.ebx;
    if (ebx as u64) & (1u64 << 38) != 0 {
        "disabled"
    } else {
        "enabled"
    }
}

} // verus!
