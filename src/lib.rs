//! Safe, ownership-tracked core of a binding to the cubeb audio library.
#![allow(non_camel_case_types)]

pub mod context;
pub mod device;
pub mod error;
pub mod ffi;
pub mod handle;
pub mod layout;
pub mod sample;
pub mod stream;

pub use context::{Context, InitRequest};
pub use device::{
    DevId, DeviceCollection, DeviceFmt, DeviceInfo, DevicePref, DeviceRecord, DeviceState,
    DeviceType,
};
pub use error::{check_status, status_value, Error, Result};
pub use layout::{layout_outcome, ChannelLayout, LogLevel};
pub use sample::{native_float32, native_signed16, SampleFormat};
pub use stream::{
    check_panning, check_volume, frames_for_native, state_message, ChannelCounts, State,
    StateSlot, Stream, StreamParams, StreamSetup,
};
