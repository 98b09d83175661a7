//! Device records and the single-pass collection that enumeration yields.
use vstd::prelude::*;

use std::collections::VecDeque;

use crate::error::{error_of, Error, Result};
use crate::ffi::CUBEB_OK;
use crate::handle::{released, NativeHandle};
use crate::sample::host_is_little_endian;

verus! {

/// Direction of a device.
#[derive(Debug, Copy, Clone, PartialEq, Eq, Structural)]
pub enum DeviceType {
    Unknown,
    Input,
    Output,
}

/// The native code of a device direction.
pub open spec fn device_type_code(t: DeviceType) -> libc::c_int {
    match t {
        DeviceType::Unknown => 0,
        DeviceType::Input => 1,
        DeviceType::Output => 2,
    }
}

/// The direction a native code stands for; unknown codes read as `Unknown`.
pub open spec fn device_type_of(code: libc::c_int) -> DeviceType {
    if code == 1 {
        DeviceType::Input
    } else if code == 2 {
        DeviceType::Output
    } else {
        DeviceType::Unknown
    }
}

impl From<DeviceType> for libc::c_int {
    fn from(t: DeviceType) -> (r: libc::c_int)
        ensures
            r == device_type_code(t),
    {
        match t {
            DeviceType::Unknown => 0,
            DeviceType::Input => 1,
            DeviceType::Output => 2,
        }
    }
}

impl vstd::std_specs::convert::FromSpecImpl<DeviceType> for libc::c_int {
    open spec fn obeys_from_spec() -> bool {
        true
    }

    open spec fn from_spec(t: DeviceType) -> libc::c_int {
        device_type_code(t)
    }
}

impl From<libc::c_int> for DeviceType {
    fn from(code: libc::c_int) -> (r: DeviceType)
        ensures
            r == device_type_of(code),
    {
        match code {
            1 => DeviceType::Input,
            2 => DeviceType::Output,
            _ => DeviceType::Unknown,
        }
    }
}

impl vstd::std_specs::convert::FromSpecImpl<libc::c_int> for DeviceType {
    open spec fn obeys_from_spec() -> bool {
        true
    }

    open spec fn from_spec(code: libc::c_int) -> DeviceType {
        device_type_of(code)
    }
}

/// Connection state of a device.
#[derive(Debug, Copy, Clone, PartialEq, Eq, Structural)]
pub enum DeviceState {
    Disabled,
    Unplugged,
    Enabled,
}

/// The native code of a connection state.
pub open spec fn device_state_code(s: DeviceState) -> libc::c_int {
    match s {
        DeviceState::Disabled => 0,
        DeviceState::Unplugged => 1,
        DeviceState::Enabled => 2,
    }
}

/// The state a native code stands for; unknown codes read as `Disabled`.
pub open spec fn device_state_of(code: libc::c_int) -> DeviceState {
    if code == 1 {
        DeviceState::Unplugged
    } else if code == 2 {
        DeviceState::Enabled
    } else {
        DeviceState::Disabled
    }
}

impl From<DeviceState> for libc::c_int {
    fn from(s: DeviceState) -> (r: libc::c_int)
        ensures
            r == device_state_code(s),
    {
        match s {
            DeviceState::Disabled => 0,
            DeviceState::Unplugged => 1,
            DeviceState::Enabled => 2,
        }
    }
}

impl vstd::std_specs::convert::FromSpecImpl<DeviceState> for libc::c_int {
    open spec fn obeys_from_spec() -> bool {
        true
    }

    open spec fn from_spec(s: DeviceState) -> libc::c_int {
        device_state_code(s)
    }
}

impl From<libc::c_int> for DeviceState {
    fn from(code: libc::c_int) -> (r: DeviceState)
        ensures
            r == device_state_of(code),
    {
        match code {
            1 => DeviceState::Unplugged,
            2 => DeviceState::Enabled,
            _ => DeviceState::Disabled,
        }
    }
}

impl vstd::std_specs::convert::FromSpecImpl<libc::c_int> for DeviceState {
    open spec fn obeys_from_spec() -> bool {
        true
    }

    open spec fn from_spec(code: libc::c_int) -> DeviceState {
        device_state_of(code)
    }
}

/// 16-bit signed little-endian samples.
pub const DEVICE_FMT_S16LE: u16 = 0x0010;

/// 16-bit signed big-endian samples.
pub const DEVICE_FMT_S16BE: u16 = 0x0020;

/// 32-bit float little-endian samples.
pub const DEVICE_FMT_F32LE: u16 = 0x1000;

/// 32-bit float big-endian samples.
pub const DEVICE_FMT_F32BE: u16 = 0x2000;

/// Both 16-bit signed formats.
pub const DEVICE_FMT_S16_MASK: u16 = DEVICE_FMT_S16LE | DEVICE_FMT_S16BE;

/// Both 32-bit float formats.
pub const DEVICE_FMT_F32_MASK: u16 = DEVICE_FMT_F32LE | DEVICE_FMT_F32BE;

/// Every format.
pub const DEVICE_FMT_ALL: u16 = DEVICE_FMT_S16_MASK | DEVICE_FMT_F32_MASK;

/// The 16-bit signed format mask in the host's byte order.
pub fn device_fmt_s16ne() -> (r: u16)
    ensures
        r == DEVICE_FMT_S16LE || r == DEVICE_FMT_S16BE,
{
    if host_is_little_endian() {
        DEVICE_FMT_S16LE
    } else {
        DEVICE_FMT_S16BE
    }
}

/// The 32-bit float format mask in the host's byte order.
pub fn device_fmt_f32ne() -> (r: u16)
    ensures
        r == DEVICE_FMT_F32LE || r == DEVICE_FMT_F32BE,
{
    if host_is_little_endian() {
        DEVICE_FMT_F32LE
    } else {
        DEVICE_FMT_F32BE
    }
}

/// Set of sample formats a device supports.
#[derive(Debug, Copy, Clone, PartialEq, Eq, Structural)]
pub struct DeviceFmt {
    bits: u16,
}

impl DeviceFmt {
    pub closed spec fn spec_bits(&self) -> u16 {
        self.bits
    }

    /// The set a native format mask stands for: its low sixteen bits.
    pub fn from_native(raw: libc::c_uint) -> (r: DeviceFmt)
        ensures
            r.spec_bits() == raw as u16,
    {
        DeviceFmt { bits: raw as u16 }
    }

    /// The set holding exactly the formats of `bits`.
    pub fn from_bits(bits: u16) -> (r: DeviceFmt)
        ensures
            r.spec_bits() == bits,
    {
        DeviceFmt { bits }
    }

    pub fn bits(&self) -> (r: u16)
        ensures
            r == self.spec_bits(),
    {
        self.bits
    }

    /// Whether every format of `mask` is in the set.
    pub fn contains(&self, mask: u16) -> (r: bool)
        ensures
            r == (self.spec_bits() & mask == mask),
    {
        self.bits & mask == mask
    }

    /// Whether some format of `mask` is in the set.
    pub fn intersects(&self, mask: u16) -> (r: bool)
        ensures
            r == (self.spec_bits() & mask != 0),
    {
        self.bits & mask != 0
    }
}

/// No preference.
pub const DEVICE_PREF_NONE: u8 = 0x00;

/// Preferred for media playback.
pub const DEVICE_PREF_MULTIMEDIA: u8 = 0x01;

/// Preferred for voice.
pub const DEVICE_PREF_VOICE: u8 = 0x02;

/// Preferred for notifications.
pub const DEVICE_PREF_NOTIFICATION: u8 = 0x04;

/// Every preference.
pub const DEVICE_PREF_ALL: u8 = 0x0F;

/// Uses for which the system prefers a device, combinable.
#[derive(Debug, Copy, Clone, PartialEq, Eq, Structural)]
pub struct DevicePref {
    bits: u8,
}

impl DevicePref {
    pub closed spec fn spec_bits(&self) -> u8 {
        self.bits
    }

    /// The set a native preference mask stands for: its low eight bits.
    pub fn from_native(raw: libc::c_uint) -> (r: DevicePref)
        ensures
            r.spec_bits() == raw as u8,
    {
        DevicePref { bits: raw as u8 }
    }

    /// The set holding exactly the preferences of `bits`.
    pub fn from_bits(bits: u8) -> (r: DevicePref)
        ensures
            r.spec_bits() == bits,
    {
        DevicePref { bits }
    }

    pub fn bits(&self) -> (r: u8)
        ensures
            r == self.spec_bits(),
    {
        self.bits
    }

    /// Whether every preference of `mask` is in the set.
    pub fn contains(&self, mask: u8) -> (r: bool)
        ensures
            r == (self.spec_bits() & mask == mask),
    {
        self.bits & mask == mask
    }

    /// Whether no preference is set.
    pub fn is_none(&self) -> (r: bool)
        ensures
            r == (self.spec_bits() == 0),
    {
        self.bits == 0
    }
}

/// Identity of a device: a token the native library recognises, never dereferenced here.
#[derive(Debug, Copy, Clone, PartialEq, Eq, Structural)]
pub struct DevId {
    token: usize,
}

impl DevId {
    pub closed spec fn spec_token(&self) -> usize {
        self.token
    }

    /// The identity the native library handed out as `token`.
    pub fn from_raw(token: usize) -> (r: DevId)
        ensures
            r.spec_token() == token,
    {
        DevId { token }
    }

    /// The token to hand back to the native library.
    pub fn raw(&self) -> (r: usize)
        ensures
            r == self.spec_token(),
    {
        self.token
    }
}

/// One native device record, its strings copied out and its codes still raw.
#[derive(Debug)]
pub struct DeviceRecord {
    pub devid: usize,
    pub device_id: String,
    pub friendly_name: String,
    pub group_id: String,
    pub vendor_name: String,
    pub device_type: libc::c_int,
    pub state: libc::c_int,
    pub preferred: libc::c_uint,
    pub format: libc::c_uint,
    pub default_format: libc::c_uint,
    pub max_channels: u32,
    pub default_rate: u32,
    pub max_rate: u32,
    pub min_rate: u32,
    pub latency_lo: u32,
    pub latency_hi: u32,
}

/// One device of an enumeration.
#[derive(Debug)]
pub struct DeviceInfo {
    record: DeviceRecord,
}

impl DeviceInfo {
    /// The record this device was read from.
    pub closed spec fn spec_record(&self) -> DeviceRecord {
        self.record
    }

    pub fn from_record(record: DeviceRecord) -> (r: DeviceInfo)
        ensures
            r.spec_record() == record,
    {
        DeviceInfo { record }
    }

    pub fn devid(&self) -> (r: DevId)
        ensures
            r.spec_token() == self.spec_record().devid,
    {
        DevId::from_raw(self.record.devid)
    }

    pub fn device_id(&self) -> (r: &str)
        ensures
            r@ == self.spec_record().device_id@,
    {
        self.record.device_id.as_str()
    }

    pub fn friendly_name(&self) -> (r: &str)
        ensures
            r@ == self.spec_record().friendly_name@,
    {
        self.record.friendly_name.as_str()
    }

    pub fn group_id(&self) -> (r: &str)
        ensures
            r@ == self.spec_record().group_id@,
    {
        self.record.group_id.as_str()
    }

    pub fn vendor_name(&self) -> (r: &str)
        ensures
            r@ == self.spec_record().vendor_name@,
    {
        self.record.vendor_name.as_str()
    }

    pub fn device_type(&self) -> (r: DeviceType)
        ensures
            r == device_type_of(self.spec_record().device_type),
    {
        DeviceType::from(self.record.device_type)
    }

    pub fn state(&self) -> (r: DeviceState)
        ensures
            r == device_state_of(self.spec_record().state),
    {
        DeviceState::from(self.record.state)
    }

    pub fn preferred(&self) -> (r: DevicePref)
        ensures
            r.spec_bits() == self.spec_record().preferred as u8,
    {
        DevicePref::from_native(self.record.preferred)
    }

    pub fn format(&self) -> (r: DeviceFmt)
        ensures
            r.spec_bits() == self.spec_record().format as u16,
    {
        DeviceFmt::from_native(self.record.format)
    }

    pub fn default_format(&self) -> (r: DeviceFmt)
        ensures
            r.spec_bits() == self.spec_record().default_format as u16,
    {
        DeviceFmt::from_native(self.record.default_format)
    }

    pub fn max_channels(&self) -> (r: u32)
        ensures
            r == self.spec_record().max_channels,
    {
        self.record.max_channels
    }

    pub fn default_rate(&self) -> (r: u32)
        ensures
            r == self.spec_record().default_rate,
    {
        self.record.default_rate
    }

    pub fn max_rate(&self) -> (r: u32)
        ensures
            r == self.spec_record().max_rate,
    {
        self.record.max_rate
    }

    pub fn min_rate(&self) -> (r: u32)
        ensures
            r == self.spec_record().min_rate,
    {
        self.record.min_rate
    }

    pub fn latency_lo(&self) -> (r: u32)
        ensures
            r == self.spec_record().latency_lo,
    {
        self.record.latency_lo
    }

    pub fn latency_hi(&self) -> (r: u32)
        ensures
            r == self.spec_record().latency_hi,
    {
        self.record.latency_hi
    }
}

/// What one advance of a collection whose unread devices are `s` yields.
pub open spec fn next_item(s: Seq<DeviceInfo>) -> Option<DeviceInfo> {
    if s.len() == 0 {
        None
    } else {
        Some(s[0])
    }
}

/// The unread devices after one advance.
pub open spec fn next_rest(s: Seq<DeviceInfo>) -> Seq<DeviceInfo> {
    if s.len() == 0 {
        s
    } else {
        s.drop_first()
    }
}

/// What `n` successive advances yield, starting from the unread devices `s`.
pub open spec fn advances(s: Seq<DeviceInfo>, n: nat) -> Seq<Option<DeviceInfo>>
    decreases n,
{
    if n == 0 {
        Seq::empty()
    } else {
        seq![next_item(s)] + advances(next_rest(s), (n - 1) as nat)
    }
}

/// The devices of one enumeration, handed out once each, in native order.
#[derive(Debug)]
pub struct DeviceCollection {
    pending: VecDeque<DeviceInfo>,
    native: NativeHandle,
}

impl DeviceCollection {
    /// The devices not yet handed out, first one next.
    pub closed spec fn remaining(&self) -> Seq<DeviceInfo> {
        self.pending@
    }

    /// The native array the devices were read from.
    pub closed spec fn spec_handle(&self) -> NativeHandle {
        self.native
    }

    /// Address of the native array the devices were read from.
    pub open spec fn spec_native(&self) -> usize {
        self.spec_handle().spec_addr()
    }

    /// Whether the native array still awaits its release.
    pub open spec fn is_held(&self) -> bool {
        self.spec_handle().spec_live()
    }

    /// The collection an enumeration call produced: `status` is what the call returned,
    /// `addr` the native array, `records` its entries in order.
    pub fn from_native(status: libc::c_int, addr: usize, records: Vec<DeviceRecord>) -> (r: Result<
        DeviceCollection,
    >)
        ensures
            status == CUBEB_OK <==> r is Ok,
            r is Err ==> r == Err::<DeviceCollection, Error>(error_of(status as int)),
            r matches Ok(c) ==> {
                &&& c.is_held()
                &&& c.spec_native() == addr
                &&& c.remaining().len() == records@.len()
                &&& forall|i: int|
                    0 <= i < records@.len() ==> #[trigger] c.remaining()[i].spec_record()
                        == records@[i]
            },
    {
        if status != CUBEB_OK {
            return Err(Error::from(status));
        }
        let mut pending: VecDeque<DeviceInfo> = VecDeque::new();
        let mut records = records;
        let ghost all = records@;
        while records.len() > 0
            invariant
                records@ == all.subrange(0, records@.len() as int),
                pending@.len() + records@.len() == all.len(),
                forall|i: int|
                    0 <= i < pending@.len() ==> #[trigger] pending@[i].spec_record() == all[i
                        + records@.len()],
            decreases records@.len(),
        {
            let record = records.pop().unwrap();
            pending.push_front(DeviceInfo::from_record(record));
        }
        Ok(DeviceCollection { pending, native: NativeHandle::new(addr) })
    }

    /// Number of devices not yet handed out.
    pub fn count(&self) -> (r: usize)
        ensures
            r == self.remaining().len(),
    {
        self.pending.len()
    }

    /// Hands out the next device, or `None` once all have been.
    pub fn next(&mut self) -> (r: Option<DeviceInfo>)
        ensures
            r == next_item(old(self).remaining()),
            final(self).remaining() == next_rest(old(self).remaining()),
            final(self).spec_handle() == old(self).spec_handle(),
    {
        self.pending.pop_front()
    }

    /// Gives the native array up for release: its address the first time, `None` after.
    pub fn release(&mut self) -> (r: Option<usize>)
        ensures
            released(old(self).spec_handle(), final(self).spec_handle(), r),
            final(self).remaining() == old(self).remaining(),
    {
        self.native.release()
    }
}

/// Advancing through a collection of `s.len()` devices yields them in order, then nothing.
pub proof fn lemma_advances_in_order(s: Seq<DeviceInfo>, n: nat)
    ensures
        advances(s, n).len() == n,
        forall|i: int|
            0 <= i < n ==> #[trigger] advances(s, n)[i] == (if i < s.len() {
                Some(s[i])
            } else {
                None::<DeviceInfo>
            }),
    decreases n,
{
    if n > 0 {
        lemma_advances_in_order(next_rest(s), (n - 1) as nat);
        assert forall|i: int| 0 <= i < n implies #[trigger] advances(s, n)[i] == (if i < s.len() {
            Some(s[i])
        } else {
            None::<DeviceInfo>
        }) by {
            if i > 0 {
                assert(advances(s, n)[i] == advances(next_rest(s), (n - 1) as nat)[i - 1]);
            }
        }
    }
}

} // verus!
