use vstd::prelude::*;
use crate::format::{SampleFormat, StreamConfig, sample_size_spec, is_float_spec};

verus! {

/// How the samples of a WAV file are encoded.
#[derive(Clone, Copy, Debug, PartialEq, Eq, Structural)]
pub enum WavSampleFormat {
    Int,
    Float,
}

/// The header fields of a WAV file, fixed when the file is created.
#[derive(Clone, Copy, Debug, PartialEq, Eq, Structural)]
pub struct WavSpec {
    pub channels: u16,
    pub sample_rate: u32,
    pub bits_per_sample: u16,
    pub sample_format: WavSampleFormat,
}

/// The WAV header that archives a capture stream of the given configuration.
pub open spec fn wav_spec_of(config: StreamConfig) -> WavSpec {
    WavSpec {
        channels: config.channels,
        sample_rate: config.sample_rate,
        bits_per_sample: (sample_size_spec(config.sample_format) * 8) as u16,
        sample_format: if is_float_spec(config.sample_format) {
            WavSampleFormat::Float
        } else {
            WavSampleFormat::Int
        },
    }
}

/// Derives the WAV header from the capture stream's configuration: the same
/// channels and rate, eight bits per byte of a sample, and a float encoding
/// exactly for float formats.
pub fn wav_spec_from_config(config: &StreamConfig) -> (r: WavSpec)
    ensures
        r == wav_spec_of(*config),
{
    let sample_format = config.sample_format;
    WavSpec {
        channels: config.channels,
        sample_rate: config.sample_rate,
        bits_per_sample: (sample_format.sample_size() * 8) as u16,
        sample_format: if sample_format.is_float() {
            WavSampleFormat::Float
        } else {
            WavSampleFormat::Int
        },
    }
}

/// The number of bytes that one sample takes in the data chunk: the bit
/// depth rounded up to whole bytes.
pub open spec fn container_bytes(spec: WavSpec) -> nat {
    ((spec.bits_per_sample + 7) / 8) as nat
}

/// The length field of a data chunk that holds `samples` samples.
pub open spec fn data_len_of(spec: WavSpec, samples: nat) -> nat {
    samples * container_bytes(spec)
}

/// The largest data chunk that the 32-bit length field of a WAV file can
/// declare.
pub const MAX_DATA_LEN: u32 = 0xffff_ffff;

/// Why the WAV sink refused an operation.
#[derive(Clone, Copy, Debug, PartialEq, Eq, Structural)]
pub enum SinkError {
    /// The sink was finalized: no more samples, and no second finalize.
    Finalized,
    /// One more sample would overflow the data chunk's length field.
    Full,
}

/// The lifecycle of the archival WAV file: samples are appended in arrival
/// order until it is finalized, which happens at most once. The sink keeps
/// the count of samples handed to the file, so that the data chunk never
/// outgrows its 32-bit length field.
pub struct WavSink {
    spec: WavSpec,
    samples: u32,
    finalized: bool,
}

impl WavSink {
    pub closed spec fn spec_of(&self) -> WavSpec {
        self.spec
    }

    /// The number of samples handed to the file so far.
    pub closed spec fn samples_spec(&self) -> nat {
        self.samples as nat
    }

    pub closed spec fn is_finalized_spec(&self) -> bool {
        self.finalized
    }

    /// The sink's data chunk fits its length field and a sample takes at
    /// least one byte.
    pub closed spec fn wf(&self) -> bool {
        &&& container_bytes(self.spec) >= 1
        &&& data_len_of(self.spec, self.samples as nat) <= MAX_DATA_LEN
    }

    /// The current length of the data chunk in bytes.
    pub open spec fn data_len_spec(&self) -> nat {
        data_len_of(self.spec_of(), self.samples_spec())
    }

    /// How many more samples the data chunk can take.
    pub open spec fn room_spec(&self) -> nat {
        ((MAX_DATA_LEN - self.data_len_spec()) as nat) / container_bytes(self.spec_of())
    }

    /// What `accept` of a buffer of `n` samples answers, and the count of
    /// samples afterwards: a refusal after finalize; a refusal when the data
    /// chunk has no room left; else as many as fit, at most `n`.
    pub open spec fn accept_spec(&self, n: nat) -> (Result<usize, SinkError>, nat) {
        if self.is_finalized_spec() {
            (Err(SinkError::Finalized), self.samples_spec())
        } else if n > 0 && self.room_spec() == 0 {
            (Err(SinkError::Full), self.samples_spec())
        } else {
            let k = if n < self.room_spec() {
                n
            } else {
                self.room_spec()
            };
            (Ok(k as usize), self.samples_spec() + k)
        }
    }

    /// What `finalize` answers: the final length of the data chunk, or a
    /// refusal when the sink was already finalized.
    pub open spec fn finalize_spec(&self) -> Result<u32, SinkError> {
        if self.is_finalized_spec() {
            Err(SinkError::Finalized)
        } else {
            Ok(self.data_len_spec() as u32)
        }
    }

    /// A sink for a newly created file with the given header.
    pub fn new(spec: WavSpec) -> (r: WavSink)
        requires
            spec.bits_per_sample >= 1,
        ensures
            r.wf(),
            r.spec_of() == spec,
            r.samples_spec() == 0,
            !r.is_finalized_spec(),
    {
        let r = WavSink { spec, samples: 0, finalized: false };
        assert(data_len_of(spec, 0) == 0) by (nonlinear_arith);
        r
    }

    pub fn spec(&self) -> (r: WavSpec)
        ensures
            r == self.spec_of(),
    {
        self.spec
    }

    pub fn samples(&self) -> (r: u32)
        ensures
            r == self.samples_spec(),
    {
        self.samples
    }

    pub fn is_finalized(&self) -> (r: bool)
        ensures
            r == self.is_finalized_spec(),
    {
        self.finalized
    }

    fn bytes_per_sample(&self) -> (r: u32)
        ensures
            r == container_bytes(self.spec_of()),
    {
        (self.spec.bits_per_sample as u32 + 7) / 8
    }

    /// The current length of the data chunk in bytes.
    pub fn data_len(&self) -> (r: u32)
        requires
            self.wf(),
        ensures
            r == self.data_len_spec(),
    {
        let b = self.bytes_per_sample();
        proof {
            assert(self.samples * b == data_len_of(self.spec, self.samples as nat));
        }
        self.samples * b
    }

    /// Hands up to `n` samples of a delivered buffer to the file, in order.
    /// After finalize nothing is accepted; otherwise as many as the data
    /// chunk has room for, all of them in the common case.
    pub fn accept(&mut self, n: usize) -> (r: Result<usize, SinkError>)
        requires
            old(self).wf(),
        ensures
            final(self).wf(),
            final(self).spec_of() == old(self).spec_of(),
            final(self).is_finalized_spec() == old(self).is_finalized_spec(),
            (r, final(self).samples_spec()) == old(self).accept_spec(n as nat),
    {
        if self.finalized {
            return Err(SinkError::Finalized);
        }
        let b = self.bytes_per_sample();
        let used = self.data_len();
        let room = (MAX_DATA_LEN - used) / b;
        if n > 0 && room == 0 {
            return Err(SinkError::Full);
        }
        let k: u32 = if (n as u64) < (room as u64) {
            n as u32
        } else {
            room
        };
        proof {
            let s = self.samples as nat;
            let bb = b as nat;
            assert(k * bb <= room * bb) by (nonlinear_arith)
                requires
                    k <= room,
            ;
            assert(room * bb <= (MAX_DATA_LEN - used) as nat) by (nonlinear_arith)
                requires
                    room == (MAX_DATA_LEN - used) as nat / bb,
                    bb >= 1,
            ;
            assert((s + k) * bb == s * bb + k * bb) by (nonlinear_arith);
            assert(s + k <= s * bb + k * bb) by (nonlinear_arith)
                requires
                    bb >= 1,
            ;
        }
        self.samples = self.samples + k;
        Ok(k as usize)
    }

    /// Closes the sink and returns the final length of its data chunk. A
    /// second finalize is refused and changes nothing.
    pub fn finalize(&mut self) -> (r: Result<u32, SinkError>)
        requires
            old(self).wf(),
        ensures
            final(self).wf(),
            final(self).spec_of() == old(self).spec_of(),
            final(self).samples_spec() == old(self).samples_spec(),
            final(self).is_finalized_spec(),
            r == old(self).finalize_spec(),
    {
        if self.finalized {
            return Err(SinkError::Finalized);
        }
        self.finalized = true;
        Ok(self.data_len())
    }
}

/// No double finalize: once a sink is finalized, a further finalize is
/// refused, and so is every further sample.
pub proof fn lemma_finalized_sink_refuses(s: WavSink, n: nat)
    requires
        s.is_finalized_spec(),
    ensures
        s.finalize_spec() == Err::<u32, SinkError>(SinkError::Finalized),
        s.accept_spec(n) == (Err::<usize, SinkError>(SinkError::Finalized), s.samples_spec()),
{
}

/// Header correctness: a finalized mono Float32 file that holds `m` samples
/// declares a data chunk of `4 * m` bytes.
pub proof fn lemma_float_data_len(spec: WavSpec, m: nat)
    requires
        spec.bits_per_sample == 32,
        spec.sample_format == WavSampleFormat::Float,
        spec.channels == 1,
    ensures
        data_len_of(spec, m) == 4 * m,
{
}

} // verus!
