use crate::ident::brand_bytes;
use crate::ident::decoded_text;
use crate::ident::get_cpu_family;
use crate::ident::get_cpu_model;
use crate::ident::get_model_name;
use crate::ident::get_stepping;
use crate::ident::get_vendor_id;
use crate::ident::spec_cpu_family;
use crate::ident::spec_cpu_model;
use crate::ident::vendor_bytes;
use crate::modes::get_cpu_architecture;
use crate::modes::get_cpu_op_modes;
use crate::modes::spec_architecture;
use crate::modes::spec_op_modes;
use crate::platform::get_address_sizes;
use crate::platform::get_boost_enabled;
use crate::platform::get_byte_order;
use crate::platform::get_hybrid_flag;
use crate::platform::spec_address_sizes;
use crate::platform::spec_boost_enabled;
use crate::platform::spec_hybrid_flag;
use crate::regs::CpuidSnapshot;
use crate::text::append_dec;
use crate::text::dec_str;
use crate::topology::correction_walk;
use crate::topology::get_cores_per_socket;
use crate::topology::get_cpu_count;
use crate::topology::get_on_line_cpu;
use crate::topology::get_sockets;
use crate::topology::get_threads_per_core;
use crate::topology::spec_cpu_count;
use crate::topology::spec_threads_per_core;
use vstd::prelude::*;
use vstd::string::StringExecFns;

verus! {

/// The assembled CPU description: every field decoded from one register
/// snapshot, owned outright and immutable once built.
pub struct Cpu {
    /// Detected architecture ("x86" or "x86_64").
    pub architecture: &'static str,
    /// Supported operation modes ("32-bit" or "32-bit, 64-bit").
    pub cpu_op_modes: &'static str,
    /// Physical and virtual address sizes, rendered as text.
    pub address_sizes: String,
    /// Byte order of the host ("Little Endian" or "Big Endian").
    pub byte_order: &'static str,
    /// Total number of logical processors.
    pub cpu_count: u32,
    /// Highest online logical-processor index (always 1 by design).
    pub on_line_cpu: u32,
    /// Vendor identifier, or "Unknown".
    pub vendor_id: String,
    /// Model name from the brand string, or "Unknown".
    pub model_name: String,
    /// Decoded CPU family.
    pub cpu_family: u32,
    /// Decoded CPU model.
    pub cpu_model: u32,
    /// Hybrid-core answer ("hybrid" or "no").
    pub is_hybrid: &'static str,
    /// Threads per core.
    pub threads_per_core: u32,
    /// Cores per socket.
    pub cores_per_socket: u32,
    /// Number of sockets.
    pub sockets: u32,
    /// Stepping: the low nibble of the version register.
    pub stepping: u32,
    /// Frequency-boost answer ("enabled" or "disabled").
    pub boost_enabled: &'static str,
}

impl Cpu {
    /// Builds the full record from one snapshot, running every decode in a
    /// fixed order.
    pub fn new(s: &CpuidSnapshot) -> (r: Cpu)
        ensures
            r.architecture@ == spec_architecture(s.ext0.eax, s.ext1.edx),
            r.cpu_op_modes@ == spec_op_modes(s.ext0.eax, s.ext1.edx),
            r.address_sizes@ == spec_address_sizes(s.ext8.eax),
            r.byte_order@ == "Little Endian"@ || r.byte_order@ == "Big Endian"@,
            r.cpu_count == spec_cpu_count(*s),
            r.on_line_cpu == 1,
            r.vendor_id@ == decoded_text(vendor_bytes(s.leaf0)),
            r.model_name@ == decoded_text(brand_bytes(*s)),
            r.cpu_family == spec_cpu_family(s.leaf1.eax),
            r.cpu_model == spec_cpu_model(s.leaf1.eax),
            r.is_hybrid@ == spec_hybrid_flag(s.leaf7_0.edx),
            r.threads_per_core == spec_threads_per_core(*s),
            r.cores_per_socket == correction_walk(s.leafb_1.ebx, 0),
            r.sockets == correction_walk(s.leafb_0.ebx, 0),
            r.stepping == s.leaf1.eax & 0xF,
            r.boost_enabled@ == spec_boost_enabled(s.ext7.ebx),
    {
        Cpu {
            architecture: get_cpu_architecture(s),
            cpu_op_modes: get_cpu_op_modes(s),
            address_sizes: get_address_sizes(s),
            byte_order: get_byte_order(),
            cpu_count: get_cpu_count(s),
            on_line_cpu: get_on_line_cpu(),
            vendor_id: get_vendor_id(s),
            model_name: get_model_name(s),
            cpu_family: get_cpu_family(s),
            cpu_model: get_cpu_model(s),
            threads_per_core: get_threads_per_core(s),
            cores_per_socket: get_cores_per_socket(s),
            sockets: get_sockets(s),
            stepping: get_stepping(s),
            boost_enabled: get_boost_enabled(s),
            is_hybrid: get_hybrid_flag(s),
        }
    }
}

impl Cpu {
    /// The architecture field.
    pub fn get_architecture(&self) -> (r: &'static str)
        ensures
            r@ == self.architecture@,
    {
        self.architecture
    }

    /// The operation-modes field.
    pub fn get_cpu_op_modes(&self) -> (r: &'static str)
        ensures
            r@ == self.cpu_op_modes@,
    {
        self.cpu_op_modes
    }

    /// The address-sizes field.
    pub fn get_address_sizes(&self) -> (r: String)
        ensures
            r@ == self.address_sizes@,
    {
        self.address_sizes.clone()
    }

    /// The byte-order field.
    pub fn get_byte_order(&self) -> (r: &'static str)
        ensures
            r@ == self.byte_order@,
    {
        self.byte_order
    }

    /// The logical-processor-count field.
    pub fn get_cpu_count(&self) -> (r: u32)
        ensures
            r == self.cpu_count,
    {
        self.cpu_count
    }

    /// The online-index field.
    pub fn get_on_line_cpu(&self) -> (r: u32)
        ensures
            r == self.on_line_cpu,
    {
        self.on_line_cpu
    }

    /// The vendor-identifier field.
    pub fn get_vendor_id(&self) -> (r: String)
        ensures
            r@ == self.vendor_id@,
    {
        self.vendor_id.clone()
    }

    /// The model-name field.
    pub fn get_model_name(&self) -> (r: String)
        ensures
            r@ == self.model_name@,
    {
        self.model_name.clone()
    }

    /// The family field.
    pub fn get_cpu_family(&self) -> (r: u32)
        ensures
            r == self.cpu_family,
    {
        self.cpu_family
    }

    /// The model field.
    pub fn get_cpu_model(&self) -> (r: u32)
        ensures
            r == self.cpu_model,
    {
        self.cpu_model
    }

    /// The hybrid-core field.
    pub fn get_is_hybrid(&self) -> (r: &'static str)
        ensures
            r@ == self.is_hybrid@,
    {
        self.is_hybrid
    }

    /// The threads-per-core field.
    pub fn get_threads_per_core(&self) -> (r: u32)
        ensures
            r == self.threads_per_core,
    {
        self.threads_per_core
    }

    /// The cores-per-socket field.
    pub fn get_cores_per_socket(&self) -> (r: u32)
        ensures
            r == self.cores_per_socket,
    {
        self.cores_per_socket
    }

    /// The socket-count field.
    pub fn get_sockets(&self) -> (r: u32)
        ensures
            r == self.sockets,
    {
        self.sockets
    }

    /// The stepping field.
    pub fn get_stepping(&self) -> (r: u32)
        ensures
            r == self.stepping,
    {
        self.stepping
    }

    /// The frequency-boost field.
    pub fn get_boost_enabled(&self) -> (r: &'static str)
        ensures
            r@ == self.boost_enabled@,
    {
        self.boost_enabled
    }
}

/// The fixed-layout report: one labelled line per field, labels padded so
/// every value starts in the same column, with the synthesized online-list
/// line, closed by a trailing blank line and indent that belong to the
/// fixed layout.
pub open spec fn spec_render(c: Cpu) -> Seq<char> {
    "Architecture:             "@ + c.architecture@ + "\nCPU op-mode(s):           "@
        + c.cpu_op_modes@ + "\nAddress sizes:            "@ + c.address_sizes@
        + "\nByte Order:               "@ + c.byte_order@ + "\nCPU(s):                   "@
        + dec_str(c.cpu_count as nat) + "\nOn-line CPU(s) list:      0,"@ + dec_str(
        c.on_line_cpu as nat,
    ) + "\nVendor ID:                "@ + c.vendor_id@ + "\nModel name:               "@
        + c.model_name@ + "\nCPU family:               "@ + dec_str(c.cpu_family as nat)
        + "\nModel:                    "@ + dec_str(c.cpu_model as nat)
        + "\nIs hybrid:                "@ + c.is_hybrid@ + "\nThread(s) per core:       "@
        + dec_str(c.threads_per_core as nat) + "\nCore(s) per socket:       "@ + dec_str(
        c.cores_per_socket as nat,
    ) + "\nSocket(s):                "@ + dec_str(c.sockets as nat)
        + "\nStepping:                 "@ + dec_str(c.stepping as nat)
        + "\nFrequency boost:          "@ + c.boost_enabled@ + "\n\n            "@
}

impl Cpu {
    /// Renders the record as the fixed-layout multi-line report.
    pub fn render(&self) -> (r: String)
        ensures
            r@ == spec_render(*self),
    {
        let mut out = String::new();
        out.append("Architecture:             ");
        out.append(self.architecture);
        out.append("\nCPU op-mode(s):           ");
        out.append(self.cpu_op_modes);
        out.append("\nAddress sizes:            ");
        out.append(self.address_sizes.as_str());
        out.append("\nByte Order:               ");
        out.append(self.byte_order);
        out.append("\nCPU(s):                   ");
        append_dec(&mut out, self.cpu_count);
        out.append("\nOn-line CPU(s) list:      0,");
        append_dec(&mut out, self.on_line_cpu);
        out.append("\nVendor ID:                ");
        out.append(self.vendor_id.as_str());
        out.append("\nModel name:               ");
        out.append(self.model_name.as_str());
        out.append("\nCPU family:               ");
        append_dec(&mut out, self.cpu_family);
        out.append("\nModel:                    ");
        append_dec(&mut out, self.cpu_model);
        out.append("\nIs hybrid:                ");
        out.append(self.is_hybrid);
        out.append("\nThread(s) per core:       ");
        append_dec(&mut out, self.threads_per_core);
        out.append("\nCore(s) per socket:       ");
        append_dec(&mut out, self.cores_per_socket);
        out.append("\nSocket(s):                ");
        append_dec(&mut out, self.sockets);
        out.append("\nStepping:                 ");
        append_dec(&mut out, self.stepping);
        out.append("\nFrequency boost:          ");
        out.append(self.boost_enabled);
        out.append("\n\n            ");
        proof {
            assert(out@ =~= spec_render(*self));
        }
        out
    }
}

} // verus!
