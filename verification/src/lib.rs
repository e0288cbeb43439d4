//! Decoding of x86 processor-identification register data into a structured
//! CPU topology record.
//!
//! The processor-identification instruction returns four 32-bit registers for
//! a chosen selector ("leaf") and sub-selector. All decoding here is written
//! over plain register values held in a [`CpuidSnapshot`], so every decode
//! rule — leaf-selection fallbacks, bit-field extraction, packed-string
//! assembly — is a total, verified function of that data. Issuing the
//! instruction itself is platform-specific and left to the caller, who fills
//! a snapshot and hands it in.


mod ident;
mod modes;
mod platform;
mod record;
mod regs;
mod text;
mod topology;

pub use ident::get_cpu_family;
pub use ident::get_cpu_model;
pub use ident::get_model_name;
pub use ident::get_stepping;
pub use ident::get_vendor_id;
pub use modes::get_cpu_architecture;
pub use modes::get_cpu_op_modes;
pub use platform::get_address_sizes;
pub use platform::get_boost_enabled;
pub use platform::get_byte_order;
pub use platform::get_hybrid_flag;
pub use platform::order_from_probe;
pub use record::Cpu;
pub use regs::CpuidSnapshot;
pub use regs::Regs;
pub use topology::fix_result;
pub use topology::get_cores_per_socket;
pub use topology::get_cpu_count;
pub use topology::get_on_line_cpu;
pub use topology::get_sockets;
pub use topology::get_threads_per_core;
