use vstd::prelude::*;

verus! {

/// The four output registers of one issue of the processor-identification
/// instruction for a chosen selector ("leaf") and sub-selector.
#[derive(Clone, Copy, PartialEq, Eq, Structural, Debug)]
pub struct Regs {
    pub eax: u32,
    pub ebx: u32,
    pub ecx: u32,
    pub edx: u32,
}

/// The register outputs for every selector the decoder reads, captured once
/// by the caller. Each field holds the outputs for one (selector,
/// sub-selector) pair; a sub-selector of 0 is implied where none is named.
///
/// A snapshot is plain data: the decode functions are total over all bit
/// patterns, so a fabricated snapshot exercises them as well as one read from
/// a live processor.
#[derive(Clone, Copy, PartialEq, Eq, Structural, Debug)]
pub struct CpuidSnapshot {
    /// Selector 0: highest basic selector and packed vendor signature.
    pub leaf0: Regs,
    /// Selector 1: version information (family, model, stepping) and legacy
    /// processor counts.
    pub leaf1: Regs,
    /// Selector 4, sub-selector 0: deterministic cache parameters.
    pub leaf4_0: Regs,
    /// Selector 7, sub-selector 0: structured feature flags.
    pub leaf7_0: Regs,
    /// Selector 0x0B, sub-selector 0: structured topology, thread level.
    pub leafb_0: Regs,
    /// Selector 0x0B, sub-selector 1: structured topology, core level.
    pub leafb_1: Regs,
    /// Selector 0x80000000: highest extended selector.
    pub ext0: Regs,
    /// Selector 0x80000001: extended feature flags (long mode).
    pub ext1: Regs,
    /// Selector 0x80000002: packed brand string, first third.
    pub ext2: Regs,
    /// Selector 0x80000003: packed brand string, second third.
    pub ext3: Regs,
    /// Selector 0x80000004: packed brand string, last third.
    pub ext4: Regs,
    /// Selector 0x80000007: power management flags.
    pub ext7: Regs,
    /// Selector 0x80000008: physical and virtual address sizes.
    pub ext8: Regs,
}

} // verus!
