//! Streams: their parameters, the plan handed to native initialisation, the shape of the
//! sample windows a data callback sees, and the checks on volume and panning.
use vstd::prelude::*;

use std::marker::PhantomData;

use crate::device::DevId;
use crate::error::{error_of, Error, Result};
use crate::ffi::{c_string, cubeb_stream_params, has_nul, CUBEB_OK};
use crate::handle::{released, NativeHandle};
use crate::layout::{layout_code, ChannelLayout};
use crate::sample::{sample_format_code, SampleFormat};
use vstd::string::StringSliceAdditionalSpecFns;

verus! {

/// Lifecycle transition of a stream, as reported to its state callback.
#[derive(Debug, Copy, Clone, PartialEq, Eq, Structural)]
pub enum State {
    Started,
    Stopped,
    Drained,
    Error,
}

/// The state a native code stands for; codes the library does not know read as `Error`.
pub open spec fn state_of(code: libc::c_int) -> State {
    if code == 0 {
        State::Started
    } else if code == 1 {
        State::Stopped
    } else if code == 2 {
        State::Drained
    } else {
        State::Error
    }
}

impl From<libc::c_int> for State {
    fn from(code: libc::c_int) -> (r: State)
        ensures
            r == state_of(code),
    {
        match code {
            0 => State::Started,
            1 => State::Stopped,
            2 => State::Drained,
            _ => State::Error,
        }
    }
}

impl vstd::std_specs::convert::FromSpecImpl<libc::c_int> for State {
    open spec fn obeys_from_spec() -> bool {
        true
    }

    open spec fn from_spec(code: libc::c_int) -> State {
        state_of(code)
    }
}

/// The line that announces a state change.
pub open spec fn state_message_of(state: State) -> Seq<char> {
    match state {
        State::Started => "stream started"@,
        State::Stopped => "stream stopped"@,
        State::Drained => "stream drained"@,
        State::Error => "stream error"@,
    }
}

/// The line that announces a change to `state`.
pub fn state_message(state: State) -> (r: &'static str)
    ensures
        r@ == state_message_of(state),
{
    match state {
        State::Started => "stream started",
        State::Stopped => "stream stopped",
        State::Drained => "stream drained",
        State::Error => "stream error",
    }
}

/// Rate, channel count and layout of one side of a stream whose samples are `T`.
#[derive(Debug)]
pub struct StreamParams<T> {
    rate: u32,
    channels: u32,
    layout: ChannelLayout,
    phantom: PhantomData<T>,
}

impl<T> Clone for StreamParams<T> {
    fn clone(&self) -> (r: StreamParams<T>)
        ensures
            r == *self,
    {
        StreamParams { rate: self.rate, channels: self.channels, layout: self.layout, phantom: PhantomData }
    }
}

impl<T> Copy for StreamParams<T> {

}

impl<T> StreamParams<T> {
    pub closed spec fn spec_rate(&self) -> u32 {
        self.rate
    }

    pub closed spec fn spec_channels(&self) -> u32 {
        self.channels
    }

    pub closed spec fn spec_layout(&self) -> ChannelLayout {
        self.layout
    }

    pub fn new(rate: u32, channels: u32, layout: ChannelLayout) -> (r: StreamParams<T>)
        ensures
            r.spec_rate() == rate,
            r.spec_channels() == channels,
            r.spec_layout() == layout,
    {
        StreamParams { rate, channels, layout, phantom: PhantomData }
    }

    pub fn rate(&self) -> (r: u32)
        ensures
            r == self.spec_rate(),
    {
        self.rate
    }

    pub fn channels(&self) -> (r: u32)
        ensures
            r == self.spec_channels(),
    {
        self.channels
    }

    pub fn layout(&self) -> (r: ChannelLayout)
        ensures
            r == self.spec_layout(),
    {
        self.layout
    }

    /// The native form of these parameters, for samples encoded as `format`.
    pub fn to_native(&self, format: SampleFormat) -> (r: cubeb_stream_params)
        ensures
            r == native_params(*self, format),
    {
        cubeb_stream_params {
            format: u32::from(format),
            rate: self.rate,
            channels: self.channels,
            layout: u32::from(self.layout),
        }
    }
}

/// The native form of `p` for samples encoded as `format`.
pub open spec fn native_params<T>(p: StreamParams<T>, format: SampleFormat) -> cubeb_stream_params {
    cubeb_stream_params {
        format: sample_format_code(format),
        rate: p.spec_rate(),
        channels: p.spec_channels(),
        layout: layout_code(p.spec_layout()),
    }
}

/// Channel count of an optional side: zero when the side is absent.
pub open spec fn side_channels<T>(p: Option<StreamParams<T>>) -> u32 {
    match p {
        Some(q) => q.spec_channels(),
        None => 0,
    }
}

/// Channels on each side of a stream, as its data callback lays samples out.
#[derive(Debug, Copy, Clone, PartialEq, Eq, Structural)]
pub struct ChannelCounts {
    pub input: u32,
    pub output: u32,
}

/// Lengths of the input and output windows for `frames` frames, when they are
/// representable: each is the frame count times the side's channel count.
pub open spec fn window_lens(counts: ChannelCounts, frames: int) -> Option<(usize, usize)> {
    if 0 <= frames <= usize::MAX && frames * counts.input <= usize::MAX && frames * counts.output
        <= usize::MAX {
        Some(((frames * counts.input) as usize, (frames * counts.output) as usize))
    } else {
        None
    }
}

impl ChannelCounts {
    /// The counts of a stream built from the given sides.
    pub fn of<T>(input: &Option<StreamParams<T>>, output: &Option<StreamParams<T>>) -> (r:
        ChannelCounts)
        ensures
            r.input == side_channels(*input),
            r.output == side_channels(*output),
    {
        let i = match input {
            Some(p) => p.channels(),
            None => 0,
        };
        let o = match output {
            Some(p) => p.channels(),
            None => 0,
        };
        ChannelCounts { input: i, output: o }
    }

    /// Lengths of the input and output sample windows for a callback of `frames` frames.
    pub fn windows(&self, frames: libc::c_long) -> (r: Option<(usize, usize)>)
        ensures
            r == window_lens(*self, frames as int),
    {
        if frames < 0 || frames as u64 > usize::MAX as u64 {
            return None;
        }
        let f = frames as u64 as usize;
        match (f.checked_mul(self.input as usize), f.checked_mul(self.output as usize)) {
            (Some(i), Some(o)) => Some((i, o)),
            _ => None,
        }
    }
}

/// The frame count a data callback reports back to the native library.
pub fn frames_for_native(produced: usize) -> (r: libc::c_long)
    ensures
        r == produced as libc::c_long,
{
    produced as libc::c_long
}

/// Which adapter fills the native state-callback slot.
#[derive(Debug, Copy, Clone, PartialEq, Eq, Structural)]
pub enum StateSlot {
    /// Forwards each transition to the caller's state callback.
    Forward,
    /// Ignores transitions: no state callback was supplied.
    Ignore,
}

/// Everything native stream initialisation is handed, but the callbacks themselves.
#[derive(Debug)]
pub struct StreamSetup {
    /// The stream's name, zero-terminated.
    pub name: Vec<u8>,
    /// Input device token, zero for the default device.
    pub input_device: usize,
    pub input: Option<cubeb_stream_params>,
    /// Output device token, zero for the default device.
    pub output_device: usize,
    pub output: Option<cubeb_stream_params>,
    pub latency_frames: u32,
    /// Channel counts stored with the callback record.
    pub channels: ChannelCounts,
    pub state_slot: StateSlot,
}

/// Token of an optional device: zero when absent.
pub open spec fn device_token(d: Option<DevId>) -> usize {
    match d {
        Some(id) => id.spec_token(),
        None => 0,
    }
}

/// Native form of an optional side.
pub open spec fn native_side<T>(p: Option<StreamParams<T>>, format: SampleFormat) -> Option<
    cubeb_stream_params,
> {
    match p {
        Some(q) => Some(native_params(q, format)),
        None => None,
    }
}

fn device_raw(d: Option<DevId>) -> (r: usize)
    ensures
        r == device_token(d),
{
    match d {
        Some(id) => id.raw(),
        None => 0,
    }
}

fn side_to_native<T>(p: &Option<StreamParams<T>>, format: SampleFormat) -> (r: Option<
    cubeb_stream_params,
>)
    ensures
        r == native_side(*p, format),
{
    match p {
        Some(q) => Some(q.to_native(format)),
        None => None,
    }
}

/// A native stream handle and the channel counts its callbacks use, for samples `T`.
#[derive(Debug)]
pub struct Stream<T> {
    native: NativeHandle,
    channels: ChannelCounts,
    phantom: PhantomData<T>,
}

impl<T> Stream<T> {
    /// The native stream.
    pub closed spec fn spec_handle(&self) -> NativeHandle {
        self.native
    }

    pub closed spec fn spec_channels(&self) -> ChannelCounts {
        self.channels
    }

    /// The plan for initialising a stream named `stream_name` whose samples are encoded as
    /// `format`; `None` when the name holds a zero byte, before anything is handed out.
    pub fn setup(
        stream_name: &str,
        format: SampleFormat,
        in_device: Option<DevId>,
        in_params: Option<StreamParams<T>>,
        out_device: Option<DevId>,
        out_params: Option<StreamParams<T>>,
        latency_frames: u32,
        has_state_callback: bool,
    ) -> (r: Option<StreamSetup>)
        ensures
            r.is_none() <==> has_nul(stream_name.spec_bytes()),
            r matches Some(s) ==> {
                &&& s.name@ == stream_name.spec_bytes().push(0)
                &&& s.input_device == device_token(in_device)
                &&& s.input == native_side(in_params, format)
                &&& s.output_device == device_token(out_device)
                &&& s.output == native_side(out_params, format)
                &&& s.latency_frames == latency_frames
                &&& s.channels == (ChannelCounts {
                    input: side_channels(in_params),
                    output: side_channels(out_params),
                })
                &&& s.state_slot == (if has_state_callback {
                    StateSlot::Forward
                } else {
                    StateSlot::Ignore
                })
            },
    {
        let name = match c_string(stream_name) {
            Some(n) => n,
            None => return None,
        };
        let channels = ChannelCounts::of(&in_params, &out_params);
        let state_slot = if has_state_callback {
            StateSlot::Forward
        } else {
            StateSlot::Ignore
        };
        Some(
            StreamSetup {
                name,
                input_device: device_raw(in_device),
                input: side_to_native(&in_params, format),
                output_device: device_raw(out_device),
                output: side_to_native(&out_params, format),
                latency_frames,
                channels,
                state_slot,
            },
        )
    }

    /// The stream an initialisation call produced: `status` is what the call returned,
    /// `addr` the native stream it filled in.
    pub fn from_init(status: libc::c_int, addr: usize, channels: ChannelCounts) -> (r: Result<
        Stream<T>,
    >)
        ensures
            status == CUBEB_OK <==> r is Ok,
            r is Err ==> r == Err::<Stream<T>, Error>(error_of(status as int)),
            r matches Ok(s) ==> {
                &&& s.spec_handle().spec_live()
                &&& s.spec_handle().spec_addr() == addr
                &&& s.spec_channels() == channels
            },
    {
        if status != CUBEB_OK {
            return Err(Error::from(status));
        }
        Ok(Stream { native: NativeHandle::new(addr), channels, phantom: PhantomData })
    }

    /// Address of the native stream.
    pub fn native(&self) -> (r: usize)
        ensures
            r == self.spec_handle().spec_addr(),
    {
        self.native.addr()
    }

    pub fn channels(&self) -> (r: ChannelCounts)
        ensures
            r == self.spec_channels(),
    {
        self.channels
    }

    /// Gives the native stream up for release: its address the first time, `None` after.
    pub fn release(&mut self) -> (r: Option<usize>)
        ensures
            released(old(self).spec_handle(), final(self).spec_handle(), r),
            final(self).spec_channels() == old(self).spec_channels(),
    {
        self.native.release()
    }
}

/// Whether the float whose bits are `bits` lies above one or below zero (not a NaN).
pub open spec fn volume_rejected(bits: u32) -> bool {
    (0x3F80_0000 < bits <= 0x7F80_0000) || (0x8000_0000 < bits <= 0xFF80_0000)
}

/// Whether the float whose bits are `bits` lies above one or below minus one (not a NaN).
pub open spec fn panning_rejected(bits: u32) -> bool {
    (0x3F80_0000 < bits <= 0x7F80_0000) || (0xBF80_0000 < bits <= 0xFF80_0000)
}

/// Checks a volume, given as the bits of an IEEE single: one outside `[0, 1]` is an
/// `InvalidParameter`; the value itself is never adjusted.
pub fn check_volume(bits: u32) -> (r: Result<()>)
    ensures
        volume_rejected(bits) ==> r == Err::<(), Error>(Error::InvalidParameter),
        !volume_rejected(bits) ==> r == Ok::<(), Error>(()),
{
    if (0x3F80_0000 < bits && bits <= 0x7F80_0000) || (0x8000_0000 < bits && bits <= 0xFF80_0000) {
        Err(Error::InvalidParameter)
    } else {
        Ok(())
    }
}

/// Checks a panning position, given as the bits of an IEEE single: one outside `[-1, 1]`
/// is an `InvalidParameter`; the value itself is never adjusted.
pub fn check_panning(bits: u32) -> (r: Result<()>)
    ensures
        panning_rejected(bits) ==> r == Err::<(), Error>(Error::InvalidParameter),
        !panning_rejected(bits) ==> r == Ok::<(), Error>(()),
{
    if (0x3F80_0000 < bits && bits <= 0x7F80_0000) || (0xBF80_0000 < bits && bits <= 0xFF80_0000) {
        Err(Error::InvalidParameter)
    } else {
        Ok(())
    }
}

/// A stream whose output side has `C` channels presents its data callback, for a request
/// of `F` frames, an output window of exactly `F * C` samples.
pub proof fn lemma_output_window<T>(
    in_params: Option<StreamParams<T>>,
    out_params: StreamParams<T>,
    frames: int,
)
    requires
        0 <= frames <= usize::MAX,
        frames * side_channels(in_params) <= usize::MAX,
        frames * out_params.spec_channels() <= usize::MAX,
    ensures
        ({
            let counts = ChannelCounts {
                input: side_channels(in_params),
                output: side_channels(Some(out_params)),
            };
            window_lens(counts, frames) matches Some((i, o)) && o == frames
                * out_params.spec_channels() && i == frames * side_channels(in_params)
        }),
{
}

} // verus!
