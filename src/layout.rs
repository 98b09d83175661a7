//! Speaker layouts and log levels.
use vstd::prelude::*;

use crate::error::{error_of, Error, Result};
use crate::ffi::CUBEB_OK;

verus! {

/// Verbosity of the native library's log.
#[derive(Debug, Copy, Clone, PartialEq, Eq, Structural)]
pub enum LogLevel {
    Disabled,
    Normal,
    Verbose,
}

/// The native code of a log level.
pub open spec fn log_level_code(l: LogLevel) -> u32 {
    match l {
        LogLevel::Disabled => 0,
        LogLevel::Normal => 1,
        LogLevel::Verbose => 2,
    }
}

impl From<LogLevel> for u32 {
    fn from(l: LogLevel) -> (r: u32)
        ensures
            r == log_level_code(l),
    {
        match l {
            LogLevel::Disabled => 0,
            LogLevel::Normal => 1,
            LogLevel::Verbose => 2,
        }
    }
}

impl vstd::std_specs::convert::FromSpecImpl<LogLevel> for u32 {
    open spec fn obeys_from_spec() -> bool {
        true
    }

    open spec fn from_spec(l: LogLevel) -> u32 {
        log_level_code(l)
    }
}

/// Arrangement of the channels of a stream.
#[derive(Debug, Copy, Clone, PartialEq, Eq, Structural)]
pub enum ChannelLayout {
    Undefined,
    DualMono,
    DualMono_LFE,
    Mono,
    Mono_LFE,
    Stereo,
    Stereo_LFE,
    F3,
    F3_LFE,
    F2_1,
    F2_1_LFE,
    F3_1,
    F3_1_LFE,
    F2_2,
    F2_2_LFE,
    F3_2,
    F3_2_LFE,
    F3_R3_LFE,
    F3_4_LFE,
    Max,
}

/// The native code of a channel layout.
pub open spec fn layout_code(l: ChannelLayout) -> u32 {
    match l {
        ChannelLayout::Undefined => 0,
        ChannelLayout::DualMono => 1,
        ChannelLayout::DualMono_LFE => 2,
        ChannelLayout::Mono => 3,
        ChannelLayout::Mono_LFE => 4,
        ChannelLayout::Stereo => 5,
        ChannelLayout::Stereo_LFE => 6,
        ChannelLayout::F3 => 7,
        ChannelLayout::F3_LFE => 8,
        ChannelLayout::F2_1 => 9,
        ChannelLayout::F2_1_LFE => 10,
        ChannelLayout::F3_1 => 11,
        ChannelLayout::F3_1_LFE => 12,
        ChannelLayout::F2_2 => 13,
        ChannelLayout::F2_2_LFE => 14,
        ChannelLayout::F3_2 => 15,
        ChannelLayout::F3_2_LFE => 16,
        ChannelLayout::F3_R3_LFE => 17,
        ChannelLayout::F3_4_LFE => 18,
        ChannelLayout::Max => 19,
    }
}

/// The layout a native code stands for; codes past `Max` read as `Undefined`.
pub open spec fn layout_of(code: u32) -> ChannelLayout {
    if code == 1 {
        ChannelLayout::DualMono
    } else if code == 2 {
        ChannelLayout::DualMono_LFE
    } else if code == 3 {
        ChannelLayout::Mono
    } else if code == 4 {
        ChannelLayout::Mono_LFE
    } else if code == 5 {
        ChannelLayout::Stereo
    } else if code == 6 {
        ChannelLayout::Stereo_LFE
    } else if code == 7 {
        ChannelLayout::F3
    } else if code == 8 {
        ChannelLayout::F3_LFE
    } else if code == 9 {
        ChannelLayout::F2_1
    } else if code == 10 {
        ChannelLayout::F2_1_LFE
    } else if code == 11 {
        ChannelLayout::F3_1
    } else if code == 12 {
        ChannelLayout::F3_1_LFE
    } else if code == 13 {
        ChannelLayout::F2_2
    } else if code == 14 {
        ChannelLayout::F2_2_LFE
    } else if code == 15 {
        ChannelLayout::F3_2
    } else if code == 16 {
        ChannelLayout::F3_2_LFE
    } else if code == 17 {
        ChannelLayout::F3_R3_LFE
    } else if code == 18 {
        ChannelLayout::F3_4_LFE
    } else if code == 19 {
        ChannelLayout::Max
    } else {
        ChannelLayout::Undefined
    }
}

impl From<ChannelLayout> for u32 {
    fn from(l: ChannelLayout) -> (r: u32)
        ensures
            r == layout_code(l),
    {
        match l {
            ChannelLayout::Undefined => 0,
            ChannelLayout::DualMono => 1,
            ChannelLayout::DualMono_LFE => 2,
            ChannelLayout::Mono => 3,
            ChannelLayout::Mono_LFE => 4,
            ChannelLayout::Stereo => 5,
            ChannelLayout::Stereo_LFE => 6,
            ChannelLayout::F3 => 7,
            ChannelLayout::F3_LFE => 8,
            ChannelLayout::F2_1 => 9,
            ChannelLayout::F2_1_LFE => 10,
            ChannelLayout::F3_1 => 11,
            ChannelLayout::F3_1_LFE => 12,
            ChannelLayout::F2_2 => 13,
            ChannelLayout::F2_2_LFE => 14,
            ChannelLayout::F3_2 => 15,
            ChannelLayout::F3_2_LFE => 16,
            ChannelLayout::F3_R3_LFE => 17,
            ChannelLayout::F3_4_LFE => 18,
            ChannelLayout::Max => 19,
        }
    }
}

impl vstd::std_specs::convert::FromSpecImpl<ChannelLayout> for u32 {
    open spec fn obeys_from_spec() -> bool {
        true
    }

    open spec fn from_spec(l: ChannelLayout) -> u32 {
        layout_code(l)
    }
}

impl From<u32> for ChannelLayout {
    fn from(code: u32) -> (r: ChannelLayout)
        ensures
            r == layout_of(code),
    {
        match code {
            1 => ChannelLayout::DualMono,
            2 => ChannelLayout::DualMono_LFE,
            3 => ChannelLayout::Mono,
            4 => ChannelLayout::Mono_LFE,
            5 => ChannelLayout::Stereo,
            6 => ChannelLayout::Stereo_LFE,
            7 => ChannelLayout::F3,
            8 => ChannelLayout::F3_LFE,
            9 => ChannelLayout::F2_1,
            10 => ChannelLayout::F2_1_LFE,
            11 => ChannelLayout::F3_1,
            12 => ChannelLayout::F3_1_LFE,
            13 => ChannelLayout::F2_2,
            14 => ChannelLayout::F2_2_LFE,
            15 => ChannelLayout::F3_2,
            16 => ChannelLayout::F3_2_LFE,
            17 => ChannelLayout::F3_R3_LFE,
            18 => ChannelLayout::F3_4_LFE,
            19 => ChannelLayout::Max,
            _ => ChannelLayout::Undefined,
        }
    }
}

impl vstd::std_specs::convert::FromSpecImpl<u32> for ChannelLayout {
    open spec fn obeys_from_spec() -> bool {
        true
    }

    open spec fn from_spec(code: u32) -> ChannelLayout {
        layout_of(code)
    }
}

/// Every layout survives the trip through its native code.
pub proof fn lemma_layout_code_round_trip(l: ChannelLayout)
    ensures
        layout_of(layout_code(l)) == l,
        layout_code(l) <= 19,
{
}

/// The layout a preferred-layout query produced: `status` is what the call returned,
/// `code` the layout it filled in.
pub fn layout_outcome(status: libc::c_int, code: u32) -> (r: Result<ChannelLayout>)
    ensures
        status == CUBEB_OK ==> r == Ok::<ChannelLayout, Error>(layout_of(code)),
        status != CUBEB_OK ==> r == Err::<ChannelLayout, Error>(error_of(status as int)),
{
    if status == CUBEB_OK {
        Ok(ChannelLayout::from(code))
    } else {
        Err(Error::from(status))
    }
}

} // verus!
