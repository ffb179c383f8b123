use vstd::prelude::*;

verus! {

/// The sample formats that an audio device may report.
#[derive(Clone, Copy, Debug, PartialEq, Eq, Structural)]
pub enum SampleFormat {
    I8,
    I16,
    I32,
    I64,
    U8,
    U16,
    U32,
    U64,
    F32,
    F64,
}

/// The native formats that the pipeline can record and play.
#[derive(Clone, Copy, Debug, PartialEq, Eq, Structural)]
pub enum NativeFormat {
    Int8,
    Int16,
    Int32,
    Float32,
}

/// Why a session could not be configured.
#[derive(Clone, Copy, Debug, PartialEq, Eq, Structural)]
pub enum ConfigError {
    /// The capture device's sample format has no adapter.
    UnsupportedInput(SampleFormat),
    /// The playback device's sample format has no adapter.
    UnsupportedOutput(SampleFormat),
}

/// A negotiated stream configuration.
#[derive(Clone, Copy, Debug, PartialEq, Eq, Structural)]
pub struct StreamConfig {
    pub channels: u16,
    pub sample_rate: u32,
    pub sample_format: SampleFormat,
}

pub open spec fn sample_size_spec(f: SampleFormat) -> nat {
    match f {
        SampleFormat::I8 | SampleFormat::U8 => 1,
        SampleFormat::I16 | SampleFormat::U16 => 2,
        SampleFormat::I32 | SampleFormat::U32 | SampleFormat::F32 => 4,
        SampleFormat::I64 | SampleFormat::U64 | SampleFormat::F64 => 8,
    }
}

pub open spec fn is_float_spec(f: SampleFormat) -> bool {
    f == SampleFormat::F32 || f == SampleFormat::F64
}

/// The native format that stands for a device format, where there is one.
pub open spec fn native_of(f: SampleFormat) -> Option<NativeFormat> {
    match f {
        SampleFormat::I8 => Some(NativeFormat::Int8),
        SampleFormat::I16 => Some(NativeFormat::Int16),
        SampleFormat::I32 => Some(NativeFormat::Int32),
        SampleFormat::F32 => Some(NativeFormat::Float32),
        _ => None,
    }
}

pub open spec fn native_size_spec(f: NativeFormat) -> nat {
    match f {
        NativeFormat::Int8 => 1,
        NativeFormat::Int16 => 2,
        NativeFormat::Int32 | NativeFormat::Float32 => 4,
    }
}

impl SampleFormat {
    /// The size of one sample in bytes.
    pub fn sample_size(&self) -> (r: usize)
        ensures
            r == sample_size_spec(*self),
    {
        match *self {
            SampleFormat::I8 | SampleFormat::U8 => 1,
            SampleFormat::I16 | SampleFormat::U16 => 2,
            SampleFormat::I32 | SampleFormat::U32 | SampleFormat::F32 => 4,
            SampleFormat::I64 | SampleFormat::U64 | SampleFormat::F64 => 8,
        }
    }

    /// Whether samples of this format are floating-point numbers.
    pub fn is_float(&self) -> (r: bool)
        ensures
            r == is_float_spec(*self),
    {
        match *self {
            SampleFormat::F32 | SampleFormat::F64 => true,
            _ => false,
        }
    }

    /// The native format that the pipeline uses for this device format; `None`
    /// where the pipeline has no adapter for it.
    pub fn native(&self) -> (r: Option<NativeFormat>)
        ensures
            r == native_of(*self),
    {
        match *self {
            SampleFormat::I8 => Some(NativeFormat::Int8),
            SampleFormat::I16 => Some(NativeFormat::Int16),
            SampleFormat::I32 => Some(NativeFormat::Int32),
            SampleFormat::F32 => Some(NativeFormat::Float32),
            _ => None,
        }
    }
}

impl NativeFormat {
    /// The device format that carries samples of this native format.
    pub fn sample_format(&self) -> (r: SampleFormat)
        ensures
            native_of(r) == Some(*self),
    {
        match *self {
            NativeFormat::Int8 => SampleFormat::I8,
            NativeFormat::Int16 => SampleFormat::I16,
            NativeFormat::Int32 => SampleFormat::I32,
            NativeFormat::Float32 => SampleFormat::F32,
        }
    }

    /// The size of one sample in bytes.
    pub fn sample_size(&self) -> (r: u16)
        ensures
            r == native_size_spec(*self),
            r == sample_size_spec(self.sample_format_spec()),
    {
        match *self {
            NativeFormat::Int8 => 1,
            NativeFormat::Int16 => 2,
            NativeFormat::Int32 | NativeFormat::Float32 => 4,
        }
    }

    pub open spec fn sample_format_spec(self) -> SampleFormat {
        match self {
            NativeFormat::Int8 => SampleFormat::I8,
            NativeFormat::Int16 => SampleFormat::I16,
            NativeFormat::Int32 => SampleFormat::I32,
            NativeFormat::Float32 => SampleFormat::F32,
        }
    }
}

/// The native formats of a capture and a playback configuration, or the
/// first of the two that the pipeline cannot carry (the capture side first).
pub open spec fn check_formats_spec(capture: StreamConfig, playback: StreamConfig) -> Result<
    (NativeFormat, NativeFormat),
    ConfigError,
> {
    match (native_of(capture.sample_format), native_of(playback.sample_format)) {
        (Some(i), Some(o)) => Ok((i, o)),
        (None, _) => Err(ConfigError::UnsupportedInput(capture.sample_format)),
        (Some(_), None) => Err(ConfigError::UnsupportedOutput(playback.sample_format)),
    }
}

/// Selects the native formats of both streams before anything is opened, so
/// that an unsupported format is a configuration error.
pub fn check_formats(capture: &StreamConfig, playback: &StreamConfig) -> (r: Result<
    (NativeFormat, NativeFormat),
    ConfigError,
>)
    ensures
        r == check_formats_spec(*capture, *playback),
{
    let i = match capture.sample_format.native() {
        Some(i) => i,
        None => {
            return Err(ConfigError::UnsupportedInput(capture.sample_format));
        },
    };
    match playback.sample_format.native() {
        Some(o) => Ok((i, o)),
        None => Err(ConfigError::UnsupportedOutput(playback.sample_format)),
    }
}

} // verus!
