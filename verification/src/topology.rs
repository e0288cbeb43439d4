use crate::regs::CpuidSnapshot;
use vstd::prelude::*;

verus! {

/// The topology bit-correction walk, mirrored step for step from the
/// correction applied to raw structured-topology counts: with a moving mask
/// bit at position `k`, clear each set bit along the trailing run of ones,
/// then flip the first clear bit found. Once `k` reaches 32 the mask has been
/// shifted out of the register and the remaining value is returned unchanged.
pub open spec fn correction_walk(n: u32, k: nat) -> u32
    decreases 32 - k,
{
    if k >= 32 {
        n
    } else if n & (1u32 << (k as u32)) != 0 {
        correction_walk(n ^ (1u32 << (k as u32)), k + 1)
    } else {
        n ^ (1u32 << (k as u32))
    }
}

/// Clearing the trailing run of ones and setting the next clear bit is a
/// carry-propagating increment: started above `k` zeroed low bits, the walk
/// adds exactly the mask bit it starts with, wrapping at 2^32.
proof fn lemma_walk_adds_mask_bit(n: u32, k: nat)
    requires
        k <= 32,
        ((n as u64) >> (k as u64)) << (k as u64) == n as u64,
    ensures
        correction_walk(n, k) as int == ((n as u64) + (1u64 << (k as u64))) as int
            % 0x1_0000_0000,
    decreases 32 - k,
{
    let k64 = k as u64;
    let k32 = k as u32;
    if k >= 32 {
        assert(((n as u64) >> 32) << 32 == n as u64 ==> n as u64 == 0) by (bit_vector);
        assert((1u64 << 32) == 0x1_0000_0000) by (bit_vector);
    } else if n & (1u32 << k32) != 0 {
        let m = n ^ (1u32 << k32);
        let kp = (k + 1) as u64;
        assert((m as u64) + (1u64 << k64) == n as u64) by (bit_vector)
            requires
                k64 < 32,
                k64 == k32 as u64,
                m == n ^ (1u32 << k32),
                n & (1u32 << k32) != 0,
        ;
        assert(((m as u64) >> kp) << kp == m as u64) by (bit_vector)
            requires
                k64 < 32,
                kp == k64 + 1,
                k64 == k32 as u64,
                m == n ^ (1u32 << k32),
                n & (1u32 << k32) != 0,
                ((n as u64) >> k64) << k64 == n as u64,
        ;
        assert((1u64 << kp) == (1u64 << k64) + (1u64 << k64)) by (bit_vector)
            requires
                k64 < 32,
                kp == k64 + 1,
        ;
        lemma_walk_adds_mask_bit(m, k + 1);
    } else {
        assert((n ^ (1u32 << k32)) as u64 == (n as u64) + (1u64 << k64)) by (bit_vector)
            requires
                k64 < 32,
                k64 == k32 as u64,
                n & (1u32 << k32) == 0,
        ;
        assert((n as u64) + (1u64 << k64) < 0x1_0000_0000) by (bit_vector)
            requires
                k64 < 32,
                k64 == k32 as u64,
                n & (1u32 << k32) == 0,
        ;
    }
}

proof fn lemma_walk_increment(n: u32)
    ensures
        n < u32::MAX ==> correction_walk(n, 0) == n + 1,
        n == u32::MAX ==> correction_walk(n, 0) == 0,
{
    assert(((n as u64) >> 0) << 0 == n as u64) by (bit_vector);
    assert((1u64 << 0) == 1) by (bit_vector);
    lemma_walk_adds_mask_bit(n, 0);
}

/// The documented correction walk always lands on the successor of its
/// input, wrapping at 2^32; re-applying it to its own output therefore
/// walks one further still.
pub proof fn lemma_correction_walk_increments(n: u32)
    ensures
        n < u32::MAX ==> correction_walk(n, 0) == n + 1,
        n == u32::MAX ==> correction_walk(n, 0) == 0,
        n + 2 <= u32::MAX ==> correction_walk(correction_walk(n, 0), 0) == n + 2,
{
    lemma_walk_increment(n);
    if n + 2 <= u32::MAX {
        lemma_walk_increment((n + 1) as u32);
    }
}

/// Corrects a raw structured-topology count: walks the trailing run of
/// one-bits, clearing each, and flips the first zero bit found.
///
/// Reproduced bit for bit from the raw walk rather than written as an
/// increment; [`lemma_correction_walk_increments`] shows the two agree.
pub fn fix_result(n: u32) -> (r: u32)
    ensures
        r == correction_walk(n, 0),
        n < u32::MAX ==> r == n + 1,
        n == u32::MAX ==> r == 0,
{
    let mut m = n;
    let mut c: u32 = 1;
    let ghost mut k: nat = 0;

    proof {
        assert(1u32 == (1u32 << 0)) by (bit_vector);
    }

    while (m & c) != 0
        invariant
            k <= 32,
            c == (if k < 32 { 1u32 << (k as u32) } else { 0u32 }),
            correction_walk(n, 0) == correction_walk(m, k),
        decreases 32 - k,
    {
        proof {
            assert(m & 0u32 == 0) by (bit_vector);
            assert(k < 32);
            let kk = k as u32;
            assert(kk < 31 ==> ((1u32 << kk) << 1) == (1u32 << (kk + 1))) by (bit_vector);
            assert(kk == 31 ==> ((1u32 << kk) << 1) == 0) by (bit_vector);
            assert(correction_walk(m, k) == correction_walk(m ^ c, k + 1));
        }
        m = m ^ c;
        c = c << 1;
        proof {
            k = k + 1;
        }
    }

    proof {
        if k < 32 {
            assert(correction_walk(m, k) == m ^ c);
        } else {
            assert(m ^ 0u32 == m) by (bit_vector);
        }
        lemma_correction_walk_increments(n);
    }
    m ^ c
}

/// The total logical-processor count, by the three-tier fallback: the
/// structured-topology count if it is nonzero, else one more than the
/// share-count field of the deterministic-cache leaf if that leaf answered,
/// else the legacy count of the version leaf when hyper-threading is
/// reported, else 1.
pub open spec fn spec_cpu_count(s: CpuidSnapshot) -> u32 {
    if s.leafb_0.ebx != 0 {
        s.leafb_0.ebx
    } else if s.leaf4_0.eax != 0 {
        (((s.leaf4_0.eax >> 26) & 0x3F) + 1) as u32
    } else if s.leaf1.edx & (1u32 << 28) != 0 {
        (s.leaf1.ebx >> 16) & 0xFF
    } else {
        1
    }
}

/// The legacy fallback for threads per core: when hyper-threading is
/// reported and the derived logical-processor count is nonzero, the literal
/// decoded formula `legacy_count + 1 / cpu_count` — the division binds
/// first, so the quotient is 1 only when `cpu_count` is 1; else 1.
pub open spec fn spec_threads_fallback(s: CpuidSnapshot) -> u32 {
    if s.leaf1.edx & (1u32 << 28) != 0 && spec_cpu_count(s) != 0 {
        (((s.leaf1.ebx >> 16) & 0xFF) + 1u32 / spec_cpu_count(s)) as u32
    } else {
        1
    }
}

/// Threads per core: the ratio of the structured-topology thread-level count
/// to its core-level count when both are nonzero, else the legacy fallback.
pub open spec fn spec_threads_per_core(s: CpuidSnapshot) -> u32 {
    if s.leafb_0.ebx != 0 && s.leafb_1.ebx != 0 {
        s.leafb_0.ebx / s.leafb_1.ebx
    } else {
        spec_threads_fallback(s)
    }
}

/// The literal fallback formula divides before it adds: with
/// hyper-threading reported and the fallback taken, the legacy count gains
/// one exactly when the derived logical-processor count is 1, and is
/// returned unchanged for any larger count.
pub proof fn lemma_threads_fallback_formula(s: CpuidSnapshot)
    requires
        s.leafb_0.ebx == 0 || s.leafb_1.ebx == 0,
        s.leaf1.edx & (1u32 << 28) != 0,
    ensures
        spec_cpu_count(s) == 1 ==> spec_threads_per_core(s) == ((s.leaf1.ebx >> 16) & 0xFF)
            + 1,
        spec_cpu_count(s) >= 2 ==> spec_threads_per_core(s) == (s.leaf1.ebx >> 16) & 0xFF,
{
    let ebx = s.leaf1.ebx;
    assert((ebx >> 16) & 0xFF <= 0xFF) by (bit_vector);
    if spec_cpu_count(s) >= 2 {
        assert(1int / (spec_cpu_count(s) as int) == 0) by (nonlinear_arith)
            requires
                spec_cpu_count(s) >= 2,
        ;
    }
}

/// The logical-processor count is at least 1 on every snapshot whose legacy
/// count field carries at least 1 whenever hyper-threading is reported: the
/// structured tier answers only with a nonzero count, the cache tier adds
/// one to a nonnegative field, and the terminal fallback is 1, so only the
/// legacy tier can pass a zero through.
pub proof fn lemma_cpu_count_at_least_one(s: CpuidSnapshot)
    requires
        s.leaf1.edx & (1u32 << 28) != 0 ==> (s.leaf1.ebx >> 16) & 0xFF >= 1,
    ensures
        spec_cpu_count(s) >= 1,
{
    let eax = s.leaf4_0.eax;
    assert((eax >> 26) & 0x3F < 64) by (bit_vector);
}

/// Threads per core is at least 1 on every snapshot where the thread-level
/// structured count is no smaller than the core-level count and the legacy
/// count field carries at least 1 whenever hyper-threading is reported —
/// the shape every real topology reports.
pub proof fn lemma_threads_per_core_at_least_one(s: CpuidSnapshot)
    requires
        s.leafb_0.ebx != 0 && s.leafb_1.ebx != 0 ==> s.leafb_0.ebx >= s.leafb_1.ebx,
        s.leaf1.edx & (1u32 << 28) != 0 ==> (s.leaf1.ebx >> 16) & 0xFF >= 1,
    ensures
        spec_threads_per_core(s) >= 1,
{
    if s.leafb_0.ebx != 0 && s.leafb_1.ebx != 0 {
        assert(s.leafb_0.ebx / s.leafb_1.ebx >= 1) by (nonlinear_arith)
            requires
                s.leafb_0.ebx >= s.leafb_1.ebx,
                s.leafb_1.ebx != 0,
        ;
    } else {
        lemma_cpu_count_at_least_one(s);
        let ebx = s.leaf1.ebx;
        assert((ebx >> 16) & 0xFF <= 0xFF) by (bit_vector);
    }
}

/// The total number of logical processors, decoded from the snapshot by the
/// three-tier fallback of [`spec_cpu_count`].
pub fn get_cpu_count(s: &CpuidSnapshot) -> (r: u32)
    ensures
        r == spec_cpu_count(*s),
{
    if s.leafb_0.ebx != 0 {
        return s.leafb_0.ebx;
    }
    if s.leaf4_0.eax != 0 {
        let eax = s.leaf4_0.eax;
        proof {
            assert((eax >> 26) & 0x3F < 64) by (bit_vector);
        }
        return ((eax >> 26) & 0x3F) + 1;
    }
    if s.leaf1.edx & (1u32 << 28) != 0 {
        return (s.leaf1.ebx >> 16) & 0xFF;
    }
    1
}

/// The number of threads per core: the structured-topology ratio where that
/// leaf answers, else the legacy fallback of [`spec_threads_fallback`].
pub fn get_threads_per_core(s: &CpuidSnapshot) -> (r: u32)
    ensures
        r == spec_threads_per_core(*s),
{
    if s.leafb_0.ebx != 0 {
        let logical_processors = s.leafb_0.ebx;
        let cores_per_package = s.leafb_1.ebx;
        if cores_per_package > 0 {
            return logical_processors / cores_per_package;
        }
    }

    let ebx = s.leaf1.ebx;
    let logical_processors = (ebx >> 16) & 0xFF;
    let hyper_threading = s.leaf1.edx & (1u32 << 28) != 0;

    if hyper_threading {
        let core_count = get_cpu_count(s);
        if core_count > 0 {
            proof {
                assert((ebx >> 16) & 0xFF <= 0xFF) by (bit_vector);
                assert(1int / (core_count as int) <= 1) by (nonlinear_arith)
                    requires
                        core_count >= 1,
                ;
            }
            return logical_processors + 1 / core_count;
        }
    }

    1
}

/// Cores per socket: the core-level structured-topology count, passed
/// through the bit correction.
pub fn get_cores_per_socket(s: &CpuidSnapshot) -> (r: u32)
    ensures
        r == correction_walk(s.leafb_1.ebx, 0),
        s.leafb_1.ebx < u32::MAX ==> r == s.leafb_1.ebx + 1,
{
    fix_result(s.leafb_1.ebx)
}

/// Sockets: the thread-level structured-topology count, passed through the
/// bit correction.
pub fn get_sockets(s: &CpuidSnapshot) -> (r: u32)
    ensures
        r == correction_walk(s.leafb_0.ebx, 0),
        s.leafb_0.ebx < u32::MAX ==> r == s.leafb_0.ebx + 1,
{
    fix_result(s.leafb_0.ebx)
}

/// The highest online logical-processor index. A simplified placeholder by
/// design: the query that would refine it leaves its selector untouched, so
/// the index always resolves to 1.
pub fn get_on_line_cpu() -> (r: u32)
    ensures
        r == 1,
{
    1
}

} // verus!
