//! Values of the native interface that the library's logic reads.
use vstd::prelude::*;
use vstd::string::StringSliceAdditionalSpecFns;

verus! {

/// Status that the native library returns on success.
pub const CUBEB_OK: libc::c_int = 0;

/// Generic failure.
pub const CUBEB_ERROR: libc::c_int = -1;

/// The requested sample format is not supported.
pub const CUBEB_ERROR_INVALID_FORMAT: libc::c_int = -2;

/// A parameter was outside its permitted range.
pub const CUBEB_ERROR_INVALID_PARAMETER: libc::c_int = -3;

/// The operation is not supported by the backend.
pub const CUBEB_ERROR_NOT_SUPPORTED: libc::c_int = -4;

/// The device in use is no longer available.
pub const CUBEB_ERROR_DEVICE_UNAVAILABLE: libc::c_int = -5;

/// Marker for the native context object; outside code only ever sees it behind a handle.
pub struct cubeb {
    opaque: (),
}

/// Marker for the native stream object; outside code only ever sees it behind a handle.
pub struct cubeb_stream {
    opaque: (),
}

/// Whether `bytes` holds a zero byte, which would end a C string early.
pub open spec fn has_nul(bytes: Seq<u8>) -> bool {
    exists|i: int| 0 <= i < bytes.len() && bytes[i] == 0
}

/// The bytes of `s` followed by a terminating zero, or `None` when `s` itself holds a
/// zero byte and so cannot be passed as a C string.
pub fn c_string(s: &str) -> (r: Option<Vec<u8>>)
    ensures
        r.is_none() <==> has_nul(s.spec_bytes()),
        r matches Some(v) ==> v@ == s.spec_bytes().push(0),
{
    let bytes = s.as_bytes();
    let mut out: Vec<u8> = Vec::new();
    let mut i: usize = 0;
    while i < bytes.len()
        invariant
            bytes@ == s.spec_bytes(),
            0 <= i <= bytes@.len(),
            out@ == bytes@.subrange(0, i as int),
            forall|j: int| 0 <= j < i ==> bytes@[j] != 0,
        decreases bytes@.len() - i,
    {
        if bytes[i] == 0 {
            return None;
        }
        out.push(bytes[i]);
        i = i + 1;
    }
    assert(out@ == bytes@);
    out.push(0);
    Some(out)
}

/// Stream parameters in the form the native library takes them.
#[derive(Debug, Copy, Clone, PartialEq, Eq, Structural)]
pub struct cubeb_stream_params {
    pub format: u32,
    pub rate: u32,
    pub channels: u32,
    pub layout: u32,
}

} // verus!
