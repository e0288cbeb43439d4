use lscpu::fix_result;
use lscpu::get_address_sizes;
use lscpu::get_boost_enabled;
use lscpu::get_byte_order;
use lscpu::get_cores_per_socket;
use lscpu::get_cpu_architecture;
use lscpu::get_cpu_count;
use lscpu::get_cpu_family;
use lscpu::get_cpu_model;
use lscpu::get_cpu_op_modes;
use lscpu::get_hybrid_flag;
use lscpu::get_on_line_cpu;
use lscpu::order_from_probe;
use lscpu::get_sockets;
use lscpu::get_stepping;
use lscpu::get_threads_per_core;
use lscpu::CpuidSnapshot;
use lscpu::Regs;

fn zero_regs() -> Regs {
    Regs { eax: 0, ebx: 0, ecx: 0, edx: 0 }
}

fn zero_snapshot() -> CpuidSnapshot {
    CpuidSnapshot {
        leaf0: zero_regs(),
        leaf1: zero_regs(),
        leaf4_0: zero_regs(),
        leaf7_0: zero_regs(),
        leafb_0: zero_regs(),
        leafb_1: zero_regs(),
        ext0: zero_regs(),
        ext1: zero_regs(),
        ext2: zero_regs(),
        ext3: zero_regs(),
        ext4: zero_regs(),
        ext7: zero_regs(),
        ext8: zero_regs(),
    }
}

#[test]
fn architecture_long_mode_capable() {
    let mut s = zero_snapshot();
    s.ext0.eax = 0x8000_0001;
    s.ext1.edx = 1 << 29;
    assert_eq!(get_cpu_architecture(&s), "x86_64");
    assert_eq!(get_cpu_op_modes(&s), "32-bit, 64-bit");
}

#[test]
fn architecture_without_long_mode_bit() {
    let mut s = zero_snapshot();
    s.ext0.eax = 0x8000_0001;
    s.ext1.edx = !(1u32 << 29);
    assert_eq!(get_cpu_architecture(&s), "x86");
    let modes = get_cpu_op_modes(&s);
    assert_eq!(modes, "32-bit");
    assert!(!modes.contains("64-bit"));
}

#[test]
fn architecture_without_extended_leaf() {
    let mut s = zero_snapshot();
    s.ext0.eax = 0x8000_0000;
    s.ext1.edx = 1 << 29;
    assert_eq!(get_cpu_architecture(&s), "x86");
    assert!(!get_cpu_op_modes(&s).contains("64-bit"));
}

#[test]
fn bit_correction_of_zero() {
    assert_eq!(fix_result(0), 1);
}

#[test]
fn bit_correction_of_trailing_ones() {
    assert_eq!(fix_result(0b0111), 0b1000);
}

#[test]
fn bit_correction_reapplied() {
    assert_eq!(fix_result(fix_result(0b0111)), 0b1001);
    assert_eq!(fix_result(fix_result(0)), 2);
}

#[test]
fn bit_correction_wraps_at_all_ones() {
    assert_eq!(fix_result(u32::MAX), 0);
}

#[test]
fn cpu_count_structured_topology_tier() {
    let mut s = zero_snapshot();
    s.leafb_0.ebx = 12;
    assert_eq!(get_cpu_count(&s), 12);
}

#[test]
fn cpu_count_cache_leaf_tier() {
    let mut s = zero_snapshot();
    s.leaf4_0.eax = 3 << 26 | 1;
    assert_eq!(get_cpu_count(&s), 4);
}

#[test]
fn cpu_count_legacy_tier() {
    let mut s = zero_snapshot();
    s.leaf1.edx = 1 << 28;
    s.leaf1.ebx = 6 << 16;
    assert_eq!(get_cpu_count(&s), 6);
}

#[test]
fn cpu_count_terminal_fallback() {
    let s = zero_snapshot();
    assert_eq!(get_cpu_count(&s), 1);
}

#[test]
fn threads_per_core_structured_ratio() {
    let mut s = zero_snapshot();
    s.leafb_0.ebx = 8;
    s.leafb_1.ebx = 4;
    assert_eq!(get_threads_per_core(&s), 2);
}

#[test]
fn threads_per_core_fallback_single_core() {
    // Hyper-threading reported, derived count 1: the legacy count gains one.
    let mut s = zero_snapshot();
    s.leaf1.edx = 1 << 28;
    s.leaf1.ebx = 1 << 16;
    assert_eq!(get_cpu_count(&s), 1);
    assert_eq!(get_threads_per_core(&s), 2);
}

#[test]
fn threads_per_core_fallback_divides_before_adding() {
    // Derived count 2, legacy count 4: 1 / 2 is 0, so the count stands.
    let mut s = zero_snapshot();
    s.leaf4_0.eax = 1 << 26;
    s.leaf1.edx = 1 << 28;
    s.leaf1.ebx = 4 << 16;
    assert_eq!(get_cpu_count(&s), 2);
    assert_eq!(get_threads_per_core(&s), 4);
}

#[test]
fn threads_per_core_without_hyper_threading() {
    let s = zero_snapshot();
    assert_eq!(get_threads_per_core(&s), 1);
}

#[test]
fn cpu_family_plain() {
    let mut s = zero_snapshot();
    s.leaf1.eax = 0x6 << 8;
    assert_eq!(get_cpu_family(&s), 6);
}

#[test]
fn cpu_family_extended() {
    let mut s = zero_snapshot();
    s.leaf1.eax = (0xF << 8) | (0x2 << 20);
    assert_eq!(get_cpu_family(&s), 0x11);
}

#[test]
fn cpu_model_joins_extended_for_family_six() {
    // family 0x6, base model 0x5, extended model 0x3: (0x3 << 4) | 0x5 = 53.
    let mut s = zero_snapshot();
    s.leaf1.eax = (0x6 << 8) | (0x5 << 4) | (0x3 << 16);
    assert_eq!(get_cpu_model(&s), 53);
}

#[test]
fn cpu_model_base_only_for_other_families() {
    let mut s = zero_snapshot();
    s.leaf1.eax = (0x5 << 8) | (0x5 << 4) | (0x3 << 16);
    assert_eq!(get_cpu_model(&s), 5);
}

#[test]
fn stepping_is_low_nibble() {
    let mut s = zero_snapshot();
    s.leaf1.eax = 0xABC7;
    assert_eq!(get_stepping(&s), 7);
}

#[test]
fn sockets_and_cores_are_corrected_counts() {
    let mut s = zero_snapshot();
    s.leafb_0.ebx = 0b0111;
    s.leafb_1.ebx = 1;
    assert_eq!(get_sockets(&s), 0b1000);
    assert_eq!(get_cores_per_socket(&s), 2);
}

#[test]
fn online_index_is_fixed() {
    assert_eq!(get_on_line_cpu(), 1);
}

#[test]
fn address_sizes_rendering() {
    let mut s = zero_snapshot();
    s.ext8.eax = 48 | (57 << 8);
    assert_eq!(get_address_sizes(&s), "48 bits physical, 57 bits virtual");
}

#[test]
fn address_sizes_of_zero_leaf() {
    let s = zero_snapshot();
    assert_eq!(get_address_sizes(&s), "0 bits physical, 0 bits virtual");
}

#[test]
fn byte_order_on_little_endian_host() {
    // Writing 0x0001 in native order puts 0x01 first on this host.
    assert_eq!(get_byte_order(), "Little Endian");
}

#[test]
fn byte_order_decision_follows_probed_byte() {
    // The decision one call below the probe: 0x01 first means the low byte
    // of 0x0001 came first.
    assert_eq!(order_from_probe(0x01), "Little Endian");
    assert_eq!(order_from_probe(0x00), "Big Endian");
    assert_eq!(order_from_probe(0xAB), "Big Endian");
}

#[test]
fn hybrid_flag_decodes_bit_fifteen() {
    let mut s = zero_snapshot();
    assert_eq!(get_hybrid_flag(&s), "no");
    s.leaf7_0.edx = 1 << 15;
    assert_eq!(get_hybrid_flag(&s), "hybrid");
}

#[test]
fn boost_bit_is_never_reachable() {
    // The disable-bit is read at position 38 of a zero-extended 32-bit
    // value, so every register value reports boost enabled.
    let mut s = zero_snapshot();
    assert_eq!(get_boost_enabled(&s), "enabled");
    s.ext7.ebx = u32::MAX;
    assert_eq!(get_boost_enabled(&s), "enabled");
}
