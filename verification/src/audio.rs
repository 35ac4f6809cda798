//! The recorded audio of the voice notepad, and the format in which it is
//! saved.
use vstd::prelude::*;

verus! {

/// How the samples of a WAV file are stored.
#[derive(Clone, Copy, PartialEq, Eq, Structural)]
pub enum SampleKind {
    Int,
    Float,
}

/// The format of a WAV file: channels, sample rate, bits per sample and
/// sample kind.
#[derive(Clone, Copy, PartialEq, Eq, Structural)]
pub struct WavFormat {
    pub channels: u16,
    pub sample_rate: u32,
    pub bits_per_sample: u16,
    pub sample_kind: SampleKind,
}

/// The format the recordings are saved in: one channel of 16-bit integer
/// samples at `sample_rate`.
pub fn mono_pcm16(sample_rate: u32) -> (f: WavFormat)
    ensures
        f == (WavFormat { channels: 1, sample_rate, bits_per_sample: 16, sample_kind: SampleKind::Int }),
{
    WavFormat { channels: 1, sample_rate, bits_per_sample: 16, sample_kind: SampleKind::Int }
}

/// The sample rate at which the notepad records, 48 kHz.
pub const SAMPLE_RATE: u32 = 48000;

/// Mono samples recorded at a given rate, oldest first.
pub struct AudioBuffer<S> {
    samples: Vec<S>,
    sample_rate: u32,
}

impl<S: Copy> AudioBuffer<S> {
    /// The samples held, oldest first.
    pub closed spec fn contents(&self) -> Seq<S> {
        self.samples@
    }

    /// The rate at which the samples were recorded.
    pub closed spec fn rate(&self) -> u32 {
        self.sample_rate
    }

    /// An empty buffer for samples at `sample_rate`.
    pub fn new(sample_rate: u32) -> (b: Self)
        ensures
            b.contents() == Seq::<S>::empty(),
            b.rate() == sample_rate,
    {
        AudioBuffer { samples: Vec::new(), sample_rate }
    }

    /// Appends `samples` after those already held.
    pub fn push_samples(&mut self, samples: &[S])
        ensures
            final(self).contents() == old(self).contents() + samples@,
            final(self).rate() == old(self).rate(),
    {
        let mut i: usize = 0;
        while i < samples.len()
            invariant
                i <= samples.len(),
                self.samples@ == old(self).samples@ + samples@.take(i as int),
                self.sample_rate == old(self).sample_rate,
            decreases samples.len() - i,
        {
            self.samples.push(samples[i]);
            i = i + 1;
            assert(samples@.take(i as int) == samples@.take(i - 1).push(samples@[i - 1]));
        }
        assert(samples@.take(samples.len() as int) == samples@);
    }

    /// Drops all samples held.
    pub fn clear(&mut self)
        ensures
            final(self).contents() == Seq::<S>::empty(),
            final(self).rate() == old(self).rate(),
    {
        self.samples = Vec::new();
    }

    /// The number of samples held.
    pub fn len(&self) -> (n: usize)
        ensures
            n == self.contents().len(),
    {
        self.samples.len()
    }

    /// The rate at which the samples were recorded.
    pub fn sample_rate(&self) -> (r: u32)
        ensures
            r == self.rate(),
    {
        self.sample_rate
    }

    /// The samples held, oldest first.
    pub fn samples(&self) -> (s: &[S])
        ensures
            s@ == self.contents(),
    {
        self.samples.as_slice()
    }

    /// The format the buffer is saved in: mono, 16-bit integers, at the
    /// buffer's rate.
    pub fn wav_format(&self) -> (f: WavFormat)
        ensures
            f == (WavFormat { channels: 1, sample_rate: self.rate(), bits_per_sample: 16, sample_kind: SampleKind::Int }),
    {
        mono_pcm16(self.sample_rate)
    }

    /// After `added` samples were pushed: whether the count passed a
    /// multiple of 4096 with them, which is when the recorder reports it.
    pub fn report_due(&self, added: usize) -> (b: bool)
        ensures
            b == (self.contents().len() % 4096 < added),
    {
        self.samples.len() % 4096 < added
    }

    /// Whether the buffer holds at least one second of audio.
    pub fn has_one_second(&self) -> (b: bool)
        ensures
            b == (self.contents().len() >= self.rate()),
    {
        self.samples.len() >= self.sample_rate as usize
    }
}

/// Whether the `n`-th audio callback (counting from 1) reports its level:
/// every hundredth does.
pub fn level_report_due(n: u64) -> (b: bool)
    ensures
        b == (n % 100 == 0),
{
    n % 100 == 0
}

} // verus!
