//! Device Callback Surface: the demonstration device that the instruction
//! emulator reaches for port I/O. One port forwards what the guest writes to
//! an output sink; every other port is ignored.
use vstd::prelude::*;

verus! {

/// The port whose written bytes go to the output sink.
pub const OUTPUT_PORT: u16 = 42;

/// What the device does with one port access.
pub enum PortResponse {
    /// Write these bytes to the output sink.
    Output(Vec<u8>),
    /// Nothing to do but report the unsupported port.
    Unsupported,
}

/// Byte `k` (little-endian) of the 32-bit port data `d`.
pub open spec fn data_byte(d: u32, k: int) -> u8 {
    ((d as int / pow256(k)) % 256) as u8
}

/// 256 to the power `k`, for `k` up to 4.
pub open spec fn pow256(k: int) -> int {
    if k <= 0 {
        1
    } else if k == 1 {
        0x100
    } else if k == 2 {
        0x1_0000
    } else if k == 3 {
        0x100_0000
    } else {
        0x1_0000_0000
    }
}

/// The first `size` bytes of the port data `d`, in little-endian order.
pub open spec fn data_bytes(d: u32, size: nat) -> Seq<u8> {
    Seq::new(size, |k: int| data_byte(d, k))
}

/// Answers a port access of `access_size` bytes (at most four) carrying
/// `data`: on the output port its bytes, unmodified and exactly
/// `access_size` of them, go to the sink; any other port is unsupported.
pub fn io_port(port: u16, access_size: u16, data: u32) -> (r: PortResponse)
    requires
        access_size <= 4,
    ensures
        port == OUTPUT_PORT <==> r is Output,
        r matches PortResponse::Output(bytes) ==> bytes@ == data_bytes(data, access_size as nat),
{
    if port != OUTPUT_PORT {
        return PortResponse::Unsupported;
    }
    let mut bytes: Vec<u8> = Vec::new();
    let mut rest: u32 = data;
    let mut k: u16 = 0;
    while k < access_size
        invariant
            access_size <= 4,
            k <= access_size,
            bytes@ == data_bytes(data, k as nat),
            rest as int == data as int / pow256(k as int),
        decreases access_size - k,
    {
        bytes.push((rest % 256) as u8);
        proof {
            assert(bytes@ =~= data_bytes(data, (k + 1) as nat));
            assert(pow256(k + 1) == pow256(k as int) * 256);
            assert(data as int / pow256(k as int) / 256 == data as int / (pow256(k as int) * 256)) by (nonlinear_arith)
                requires pow256(k as int) > 0;
        }
        rest = rest / 256;
        k = k + 1;
    }
    PortResponse::Output(bytes)
}

} // verus!
