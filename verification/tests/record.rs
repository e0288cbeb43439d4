use lscpu::get_model_name;
use lscpu::get_vendor_id;
use lscpu::Cpu;
use lscpu::CpuidSnapshot;
use lscpu::Regs;

fn zero_regs() -> Regs {
    Regs { eax: 0, ebx: 0, ecx: 0, edx: 0 }
}

fn zero_snapshot() -> CpuidSnapshot {
    CpuidSnapshot {
        leaf0: zero_regs(),
        leaf1: zero_regs(),
        leaf4_0: zero_regs(),
        leaf7_0: zero_regs(),
        leafb_0: zero_regs(),
        leafb_1: zero_regs(),
        ext0: zero_regs(),
        ext1: zero_regs(),
        ext2: zero_regs(),
        ext3: zero_regs(),
        ext4: zero_regs(),
        ext7: zero_regs(),
        ext8: zero_regs(),
    }
}

fn pack(s: &str, i: usize) -> u32 {
    let b = s.as_bytes();
    u32::from_le_bytes([b[i], b[i + 1], b[i + 2], b[i + 3]])
}

#[test]
fn vendor_id_round_trip() {
    // The three registers carry "Genu", "ntel", "ineI"; assembled in the
    // documented second, fourth, third order they read "GenuineIntel".
    let mut s = zero_snapshot();
    s.leaf0.ebx = pack("Genu", 0);
    s.leaf0.ecx = pack("ntel", 0);
    s.leaf0.edx = pack("ineI", 0);
    assert_eq!(get_vendor_id(&s), "GenuineIntel");
}

#[test]
fn vendor_id_unknown_on_invalid_bytes() {
    let mut s = zero_snapshot();
    s.leaf0.ebx = 0xFF;
    assert_eq!(get_vendor_id(&s), "Unknown");
}

#[test]
fn vendor_id_unknown_on_all_zero_bytes() {
    let s = zero_snapshot();
    assert_eq!(get_vendor_id(&s), "Unknown");
}

#[test]
fn model_name_round_trip() {
    let brand = "Example Processor Brand String 0123456789ABCDEFG";
    assert_eq!(brand.len(), 48);
    let mut s = zero_snapshot();
    s.ext2.eax = pack(brand, 0);
    s.ext2.ebx = pack(brand, 4);
    s.ext2.ecx = pack(brand, 8);
    s.ext2.edx = pack(brand, 12);
    s.ext3.eax = pack(brand, 16);
    s.ext3.ebx = pack(brand, 20);
    s.ext3.ecx = pack(brand, 24);
    s.ext3.edx = pack(brand, 28);
    s.ext4.eax = pack(brand, 32);
    s.ext4.ebx = pack(brand, 36);
    s.ext4.ecx = pack(brand, 40);
    s.ext4.edx = pack(brand, 44);
    assert_eq!(get_model_name(&s), brand);
}

#[test]
fn model_name_unknown_on_invalid_bytes() {
    let mut s = zero_snapshot();
    s.ext2.eax = 0xC0;
    assert_eq!(get_model_name(&s), "Unknown");
}

#[test]
fn record_end_to_end_minimal_long_mode_host() {
    // All register outputs zero but for the extended range and the
    // long-mode bit: the record degrades to its documented defaults.
    let mut s = zero_snapshot();
    s.ext0.eax = 0x8000_0001;
    s.ext1.edx = 1 << 29;
    let cpu = Cpu::new(&s);
    assert_eq!(cpu.architecture, "x86_64");
    assert_eq!(cpu.cpu_op_modes, "32-bit, 64-bit");
    assert_eq!(cpu.vendor_id, "Unknown");
    assert_eq!(cpu.model_name, "Unknown");
    assert_eq!(cpu.cpu_family, 0);
    assert_eq!(cpu.cpu_model, 0);
    assert_eq!(cpu.threads_per_core, 1);
    assert_eq!(cpu.cpu_count, 1);
    assert_eq!(cpu.on_line_cpu, 1);
    assert_eq!(cpu.sockets, 1);
    assert_eq!(cpu.cores_per_socket, 1);
    assert_eq!(cpu.stepping, 0);
    assert_eq!(cpu.is_hybrid, "no");
    assert_eq!(cpu.boost_enabled, "enabled");
    assert_eq!(cpu.byte_order, "Little Endian");
    assert_eq!(cpu.address_sizes, "0 bits physical, 0 bits virtual");
}

#[test]
fn record_getters_return_the_fields() {
    let mut s = zero_snapshot();
    s.leafb_0.ebx = 8;
    s.leafb_1.ebx = 4;
    s.leaf1.eax = (0x6 << 8) | (0x5 << 4) | (0x3 << 16) | 0x2;
    s.leaf0.ebx = pack("Genu", 0);
    s.leaf0.ecx = pack("ntel", 0);
    s.leaf0.edx = pack("ineI", 0);
    let cpu = Cpu::new(&s);
    assert_eq!(cpu.get_architecture(), cpu.architecture);
    assert_eq!(cpu.get_cpu_op_modes(), cpu.cpu_op_modes);
    assert_eq!(cpu.get_address_sizes(), cpu.address_sizes);
    assert_eq!(cpu.get_byte_order(), cpu.byte_order);
    assert_eq!(cpu.get_cpu_count(), 8);
    assert_eq!(cpu.get_on_line_cpu(), 1);
    assert_eq!(cpu.get_vendor_id(), "GenuineIntel");
    assert_eq!(cpu.get_model_name(), "Unknown");
    assert_eq!(cpu.get_cpu_family(), 6);
    assert_eq!(cpu.get_cpu_model(), 53);
    assert_eq!(cpu.get_is_hybrid(), "no");
    assert_eq!(cpu.get_threads_per_core(), 2);
    assert_eq!(cpu.get_cores_per_socket(), 5);
    assert_eq!(cpu.get_sockets(), 9);
    assert_eq!(cpu.get_stepping(), 2);
    assert_eq!(cpu.get_boost_enabled(), "enabled");
}

#[test]
fn render_lays_out_labelled_lines() {
    let mut s = zero_snapshot();
    s.ext0.eax = 0x8000_0001;
    s.ext1.edx = 1 << 29;
    s.leaf0.ebx = pack("Genu", 0);
    s.leaf0.ecx = pack("ntel", 0);
    s.leaf0.edx = pack("ineI", 0);
    s.leafb_0.ebx = 8;
    s.leafb_1.ebx = 4;
    let cpu = Cpu::new(&s);
    let text = cpu.render();
    assert!(text.starts_with("Architecture:             x86_64\n"));
    assert!(text.contains("\nCPU op-mode(s):           32-bit, 64-bit\n"));
    assert!(text.contains("\nByte Order:               Little Endian\n"));
    assert!(text.contains("\nCPU(s):                   8\n"));
    assert!(text.contains("\nOn-line CPU(s) list:      0,1\n"));
    assert!(text.contains("\nVendor ID:                GenuineIntel\n"));
    assert!(text.contains("\nModel name:               Unknown\n"));
    assert!(text.contains("\nThread(s) per core:       2\n"));
    assert!(text.contains("\nCore(s) per socket:       5\n"));
    assert!(text.contains("\nSocket(s):                9\n"));
    assert!(text.contains("\nFrequency boost:          enabled\n"));
}
