use crate::regs::CpuidSnapshot;
use crate::regs::Regs;
use vstd::prelude::*;
use vstd::utf8::decode_utf8;
use vstd::utf8::valid_utf8;

verus! {

/// The four bytes of a register value, least significant first.
pub open spec fn le_bytes(x: u32) -> Seq<u8> {
    seq![
        (x & 0xFF) as u8,
        ((x >> 8) & 0xFF) as u8,
        ((x >> 16) & 0xFF) as u8,
        ((x >> 24) & 0xFF) as u8,
    ]
}

/// Appends the four little-endian bytes of `x` to `v`.
fn push_le_bytes(v: &mut Vec<u8>, x: u32)
    ensures
        final(v)@ == old(v)@ + le_bytes(x),
{
    let ghost v0 = v@;
    v.push((x & 0xFF) as u8);
    v.push(((x >> 8) & 0xFF) as u8);
    v.push(((x >> 16) & 0xFF) as u8);
    v.push(((x >> 24) & 0xFF) as u8);
    proof {
        assert(v@ =~= v0 + le_bytes(x));
    }
}

/// Whether every packed byte is zero: registers that report no string at
/// all.
pub open spec fn all_zero(bytes: Seq<u8>) -> bool {
    forall|i: int| 0 <= i < bytes.len() ==> bytes[i] == 0
}

/// The text read out of packed register bytes: their UTF-8 decoding where
/// they are valid UTF-8 and carry any nonzero byte, and the fallback
/// "Unknown" where decoding fails or no string was reported.
pub open spec fn decoded_text(bytes: Seq<u8>) -> Seq<char> {
    if valid_utf8(bytes) && !all_zero(bytes) {
        decode_utf8(bytes)
    } else {
        "Unknown"@
    }
}

/// Relies on String::from_utf8: accepts the bytes exactly when they are
/// valid UTF-8, and then returns the string whose characters are their
/// decoding.
#[verifier::external_body]
fn string_from_utf8(v: Vec<u8>) -> (r: Option<String>)
    ensures
        r is Some <==> valid_utf8(v@),
        r matches Some(s) ==> s@ == decode_utf8(v@),
{
    match String::from_utf8(v) {
        Ok(s) => Some(s),
        Err(_) => None,
    }
}

/// Whether any byte of `v` is nonzero.
fn has_nonzero(v: &Vec<u8>) -> (r: bool)
    ensures
        r == !all_zero(v@),
{
    let mut i: usize = 0;
    while i < v.len()
        invariant
            i <= v.len(),
            forall|j: int| 0 <= j < i ==> v@[j] == 0,
        decreases v.len() - i,
    {
        if v[i] != 0 {
            proof {
                assert(v@[i as int] != 0);
            }
            return true;
        }
        i += 1;
    }
    false
}

/// Decodes packed register bytes, substituting "Unknown" where they are not
/// valid UTF-8 or report no string.
fn decode_packed(bytes: Vec<u8>) -> (r: String)
    ensures
        r@ == decoded_text(bytes@),
{
    if !has_nonzero(&bytes) {
        return "Unknown".to_owned();
    }
    match string_from_utf8(bytes) {
        Some(s) => s,
        None => "Unknown".to_owned(),
    }
}

/// The 12 packed vendor-signature bytes: four little-endian bytes each from
/// the second, fourth, and third registers of the basic leaf, in that
/// order.
pub open spec fn vendor_bytes(leaf0: Regs) -> Seq<u8> {
    le_bytes(leaf0.ebx) + le_bytes(leaf0.edx) + le_bytes(leaf0.ecx)
}

/// The vendor identifier, decoded from the packed signature of the basic
/// leaf; "Unknown" where the bytes are not text.
pub fn get_vendor_id(s: &CpuidSnapshot) -> (r: String)
    ensures
        r@ == decoded_text(vendor_bytes(s.leaf0)),
{
    let mut bytes: Vec<u8> = Vec::new();
    push_le_bytes(&mut bytes, s.leaf0.ebx);
    push_le_bytes(&mut bytes, s.leaf0.edx);
    push_le_bytes(&mut bytes, s.leaf0.ecx);
    proof {
        assert(bytes@ =~= vendor_bytes(s.leaf0));
    }
    decode_packed(bytes)
}

/// The 48 packed brand-string bytes: for each of the three brand leaves in
/// order, the four little-endian bytes of each of its four registers in
/// register order.
pub open spec fn brand_bytes(s: CpuidSnapshot) -> Seq<u8> {
    le_bytes(s.ext2.eax) + le_bytes(s.ext2.ebx) + le_bytes(s.ext2.ecx) + le_bytes(s.ext2.edx)
        + le_bytes(s.ext3.eax) + le_bytes(s.ext3.ebx) + le_bytes(s.ext3.ecx) + le_bytes(
        s.ext3.edx,
    ) + le_bytes(s.ext4.eax) + le_bytes(s.ext4.ebx) + le_bytes(s.ext4.ecx) + le_bytes(
        s.ext4.edx,
    )
}

/// The model name, decoded from the packed brand string of the three brand
/// leaves; "Unknown" where the bytes are not text.
pub fn get_model_name(s: &CpuidSnapshot) -> (r: String)
    ensures
        r@ == decoded_text(brand_bytes(*s)),
{
    let mut bytes: Vec<u8> = Vec::new();
    push_le_bytes(&mut bytes, s.ext2.eax);
    push_le_bytes(&mut bytes, s.ext2.ebx);
    push_le_bytes(&mut bytes, s.ext2.ecx);
    push_le_bytes(&mut bytes, s.ext2.edx);
    push_le_bytes(&mut bytes, s.ext3.eax);
    push_le_bytes(&mut bytes, s.ext3.ebx);
    push_le_bytes(&mut bytes, s.ext3.ecx);
    push_le_bytes(&mut bytes, s.ext3.edx);
    push_le_bytes(&mut bytes, s.ext4.eax);
    push_le_bytes(&mut bytes, s.ext4.ebx);
    push_le_bytes(&mut bytes, s.ext4.ecx);
    push_le_bytes(&mut bytes, s.ext4.edx);
    proof {
        assert(bytes@ =~= brand_bytes(*s));
    }
    decode_packed(bytes)
}

/// The decoded family: the base field of the version register, widened by
/// the extended field only for the reserved base value 0xF.
pub open spec fn spec_cpu_family(eax: u32) -> u32 {
    let base_family = (eax >> 8) & 0xF;
    let extended_family = (eax >> 20) & 0xFF;
    if base_family == 0xF {
        (base_family + extended_family) as u32
    } else {
        base_family
    }
}

/// The CPU family, decoded from the version leaf.
pub fn get_cpu_family(s: &CpuidSnapshot) -> (r: u32)
    ensures
        r == spec_cpu_family(s.leaf1.eax),
{
    let eax = s.leaf1.eax;
    let base_family = (eax >> 8) & 0xF;
    let extended_family = (eax >> 20) & 0xFF;
    proof {
        assert((eax >> 8) & 0xF < 16 && (eax >> 20) & 0xFF < 256) by (bit_vector);
    }
    if base_family == 0xF {
        base_family + extended_family
    } else {
        base_family
    }
}

/// The decoded model: the extended field joins the base field for families
/// 6 and 0xF — judged on the raw base family field, not on the widened
/// family, exactly as decoded.
pub open spec fn spec_cpu_model(eax: u32) -> u32 {
    let family = (eax >> 8) & 0xF;
    let base_model = (eax >> 4) & 0xF;
    let extended_model = (eax >> 16) & 0xF;
    if family == 0x6 || family == 0xF {
        (extended_model << 4) | base_model
    } else {
        base_model
    }
}

/// The CPU model, decoded from the version leaf.
pub fn get_cpu_model(s: &CpuidSnapshot) -> (r: u32)
    ensures
        r == spec_cpu_model(s.leaf1.eax),
{
    let eax = s.leaf1.eax;
    let family = (eax >> 8) & 0xF;
    let base_model = (eax >> 4) & 0xF;
    let extended_model = (eax >> 16) & 0xF;
    if family == 0x6 || family == 0xF {
        (extended_model << 4) | base_model
    } else {
        base_model
    }
}

/// The stepping: the low nibble of the version register.
pub fn get_stepping(s: &CpuidSnapshot) -> (r: u32)
    ensures
        r == s.leaf1.eax & 0xF,
{
    s.leaf1.eax & 0xF
}

} // verus!
