//! Wire formats of one audio sample.
use vstd::prelude::*;

verus! {

/// Encoding of one sample as the native library understands it.
#[derive(Debug, Copy, Clone, PartialEq, Eq, Structural)]
pub enum SampleFormat {
    Signed16LE,
    Signed16BE,
    Float32LE,
    Float32BE,
}

/// The native code of a sample format.
pub open spec fn sample_format_code(f: SampleFormat) -> u32 {
    match f {
        SampleFormat::Signed16LE => 0,
        SampleFormat::Signed16BE => 1,
        SampleFormat::Float32LE => 2,
        SampleFormat::Float32BE => 3,
    }
}

impl From<SampleFormat> for u32 {
    fn from(f: SampleFormat) -> (r: u32)
        ensures
            r == sample_format_code(f),
    {
        match f {
            SampleFormat::Signed16LE => 0,
            SampleFormat::Signed16BE => 1,
            SampleFormat::Float32LE => 2,
            SampleFormat::Float32BE => 3,
        }
    }
}

impl vstd::std_specs::convert::FromSpecImpl<SampleFormat> for u32 {
    open spec fn obeys_from_spec() -> bool {
        true
    }

    open spec fn from_spec(f: SampleFormat) -> u32 {
        sample_format_code(f)
    }
}

/// The 16-bit signed format in the given byte order.
pub open spec fn signed16_in(little_endian: bool) -> SampleFormat {
    if little_endian {
        SampleFormat::Signed16LE
    } else {
        SampleFormat::Signed16BE
    }
}

/// The 32-bit float format in the given byte order.
pub open spec fn float32_in(little_endian: bool) -> SampleFormat {
    if little_endian {
        SampleFormat::Float32LE
    } else {
        SampleFormat::Float32BE
    }
}

impl SampleFormat {
    /// 16-bit signed samples in the given byte order.
    pub fn signed16(little_endian: bool) -> (r: SampleFormat)
        ensures
            r == signed16_in(little_endian),
    {
        if little_endian {
            SampleFormat::Signed16LE
        } else {
            SampleFormat::Signed16BE
        }
    }

    /// 32-bit float samples in the given byte order.
    pub fn float32(little_endian: bool) -> (r: SampleFormat)
        ensures
            r == float32_in(little_endian),
    {
        if little_endian {
            SampleFormat::Float32LE
        } else {
            SampleFormat::Float32BE
        }
    }
}

/// Relies on `u16::from_ne_bytes`: it reads two bytes in the host's byte order,
/// which is either little- or big-endian.
#[verifier::external_body]
fn u16_from_host_bytes(bytes: [u8; 2]) -> (r: u16)
    ensures
        r == bytes[0] as int + 256 * bytes[1] as int || r == bytes[1] as int + 256
            * bytes[0] as int,
{
    u16::from_ne_bytes(bytes)
}

/// Whether the host stores integers least significant byte first.
pub fn host_is_little_endian() -> bool {
    u16_from_host_bytes([1u8, 0u8]) == 1
}

/// The 16-bit signed format in the host's byte order.
pub fn native_signed16() -> (r: SampleFormat)
    ensures
        r == SampleFormat::Signed16LE || r == SampleFormat::Signed16BE,
{
    SampleFormat::signed16(host_is_little_endian())
}

/// The 32-bit float format in the host's byte order.
pub fn native_float32() -> (r: SampleFormat)
    ensures
        r == SampleFormat::Float32LE || r == SampleFormat::Float32BE,
{
    SampleFormat::float32(host_is_little_endian())
}

} // verus!
