//! The audio capture bridge's verified core: bit-exact conversion of
//! native samples to signed 16-bit little-endian PCM bytes, frame
//! assembly, and the first-in-first-out handoff model under which no
//! frame is ever dropped or reordered. The hardware callback, the
//! forwarding thread and the channels they block on live outside this
//! library and move whole frames only.
use vstd::prelude::*;

verus! {

/// The two's-complement bit pattern of a signed 16-bit sample, as an
/// unsigned value.
pub open spec fn sample_bits(x: i16) -> int {
    if x >= 0 {
        x as int
    } else {
        x as int + 0x10000
    }
}

/// The two little-endian bytes of a signed 16-bit sample.
pub open spec fn le_bytes_of_i16(x: i16) -> Seq<u8> {
    seq![(sample_bits(x) % 256) as u8, (sample_bits(x) / 256) as u8]
}

/// An unsigned 16-bit sample recentred to signed: the unsigned midpoint
/// becomes zero.
pub open spec fn u16_to_i16_sample(u: u16) -> i16 {
    (u - 0x8000) as i16
}

/// The little-endian byte stream of a sample batch: two bytes per sample,
/// in sample order.
pub open spec fn pcm_bytes(samples: Seq<i16>) -> Seq<u8>
    decreases samples.len(),
{
    if samples.len() == 0 {
        Seq::<u8>::empty()
    } else {
        pcm_bytes(samples.drop_last()) + le_bytes_of_i16(samples.last())
    }
}

/// The little-endian bytes of one sample.
pub fn sample_to_le(x: i16) -> (b: (u8, u8))
    ensures
        seq![b.0, b.1] == le_bytes_of_i16(x),
{
    let v: u16 = if x >= 0 {
        x as u16
    } else {
        ((x as i32) + 0x10000) as u16
    };
    proof {
        assert(v as int == sample_bits(x));
    }
    ((v % 256) as u8, (v / 256) as u8)
}

/// Recentres one unsigned 16-bit sample to signed; bit-exact.
pub fn convert_u16_sample(u: u16) -> (x: i16)
    ensures
        x == u16_to_i16_sample(u),
{
    let d: i32 = (u as i32) - 0x8000;
    d as i16
}

/// Encodes a batch of signed samples as little-endian PCM bytes.
pub fn encode_i16_samples(samples: &Vec<i16>) -> (out: Vec<u8>)
    ensures
        out@ == pcm_bytes(samples@),
        out@.len() == 2 * samples@.len(),
{
    let n = samples.len();
    let mut out: Vec<u8> = Vec::new();
    let mut i: usize = 0;
    proof {
        assert(samples@.take(0) =~= Seq::<i16>::empty());
        assert(out@ =~= pcm_bytes(samples@.take(0)));
    }
    while i < n
        invariant
            n == samples@.len(),
            0 <= i <= n,
            out@.len() == 2 * i,
            out@ == pcm_bytes(samples@.take(i as int)),
        decreases n - i,
    {
        let (lo, hi) = sample_to_le(samples[i]);
        out.push(lo);
        out.push(hi);
        proof {
            assert(samples@.take(i + 1).drop_last() =~= samples@.take(i as int));
            assert(samples@.take(i + 1).last() == samples@[i as int]);
            assert(out@ =~= pcm_bytes(samples@.take(i as int)) + le_bytes_of_i16(
                samples@[i as int],
            ));
        }
        i += 1;
    }
    proof {
        assert(samples@.take(n as int) =~= samples@);
    }
    out
}

/// Encodes a batch of unsigned samples: each is recentred to signed and
/// then written as little-endian PCM bytes.
pub fn encode_u16_samples(samples: &Vec<u16>) -> (out: Vec<u8>)
    ensures
        out@ == pcm_bytes(samples@.map_values(|u: u16| u16_to_i16_sample(u))),
        out@.len() == 2 * samples@.len(),
{
    let n = samples.len();
    let mut conv: Vec<i16> = Vec::new();
    let mut i: usize = 0;
    while i < n
        invariant
            n == samples@.len(),
            0 <= i <= n,
            conv@ =~= samples@.take(i as int).map_values(|u: u16| u16_to_i16_sample(u)),
        decreases n - i,
    {
        let x = convert_u16_sample(samples[i]);
        conv.push(x);
        proof {
            assert(conv@ =~= samples@.take(i + 1).map_values(|u: u16| u16_to_i16_sample(u)));
        }
        i += 1;
    }
    proof {
        assert(samples@.take(n as int) =~= samples@);
    }
    encode_i16_samples(&conv)
}

/// One PCM sample batch handed from the capture side to the consumer.
pub struct AudioFrame {
    pub data: Vec<u8>,
}

impl View for AudioFrame {
    type V = Seq<u8>;

    open spec fn view(&self) -> Seq<u8> {
        self.data@
    }
}

impl DeepView for AudioFrame {
    type V = Seq<u8>;

    open spec fn deep_view(&self) -> Seq<u8> {
        self.data@
    }
}

/// The handoff between the capture side and the consumer, modeled as the
/// queue of frames produced and not yet drained. The producer appends at
/// the back; the consumer takes from the front; nothing else touches it.
pub struct AudioCaptureBridge {
    queue: Vec<AudioFrame>,
}

impl View for AudioCaptureBridge {
    type V = Seq<Seq<u8>>;

    closed spec fn view(&self) -> Seq<Seq<u8>> {
        self.queue.deep_view()
    }
}

impl AudioCaptureBridge {
    /// An empty bridge.
    pub fn new() -> (b: Self)
        ensures
            b@ == Seq::<Seq<u8>>::empty(),
    {
        let b = AudioCaptureBridge { queue: Vec::new() };
        proof {
            assert(b@ =~= Seq::<Seq<u8>>::empty());
        }
        b
    }

    /// How many frames wait to be drained.
    pub fn len(&self) -> (n: usize)
        ensures
            n == self@.len(),
    {
        self.queue.len()
    }

    /// The producer hands one frame in; every frame already queued stays,
    /// in order.
    pub fn push_frame(&mut self, f: AudioFrame)
        ensures
            final(self)@ == old(self)@.push(f@),
    {
        self.queue.push(f);
        proof {
            assert(final(self)@ =~= old(self)@.push(f@));
        }
    }

    /// The consumer drains the oldest frame, if any; the rest keep their
    /// order.
    pub fn take_frame(&mut self) -> (r: Option<AudioFrame>)
        ensures
            old(self)@.len() > 0 ==> (r matches Some(f) && f@ == old(self)@[0] && final(self)@
                == old(self)@.drop_first()),
            old(self)@.len() == 0 ==> r is None && final(self)@ == old(self)@,
    {
        if self.queue.len() > 0 {
            let f = self.queue.remove(0);
            proof {
                assert(final(self)@ =~= old(self)@.drop_first());
            }
            Some(f)
        } else {
            None
        }
    }
}

/// The queue after a whole frame sequence is pushed, one at a time.
pub open spec fn pushed_all(q: Seq<Seq<u8>>, frames: Seq<Seq<u8>>) -> Seq<Seq<u8>>
    decreases frames.len(),
{
    if frames.len() == 0 {
        q
    } else {
        pushed_all(q.push(frames[0]), frames.drop_first())
    }
}

/// Law: however fast frames are pushed into the bridge, none is dropped
/// and none is reordered: after pushing a frame sequence the queue holds
/// everything it held before, followed by exactly that sequence, so the
/// consumer — which always drains from the front — receives the frames
/// in production order, possibly delayed.
pub proof fn lemma_no_frame_dropped(q: Seq<Seq<u8>>, frames: Seq<Seq<u8>>)
    ensures
        pushed_all(q, frames) == q + frames,
    decreases frames.len(),
{
    if frames.len() == 0 {
        assert(q + frames =~= q);
    } else {
        lemma_no_frame_dropped(q.push(frames[0]), frames.drop_first());
        assert(q.push(frames[0]) + frames.drop_first() =~= q + frames);
    }
}

/// The parameters the transcription stream is opened with; they are a
/// compatibility contract with the capture side's output format.
pub struct StreamParams {
    pub encoding: String,
    pub sample_rate: u32,
    pub channels: u16,
    pub keep_alive: bool,
}

/// The fixed transcription stream parameters: linear 16-bit encoding at
/// 44100 Hz over two channels, with keep-alive enabled.
pub fn stream_params() -> (p: StreamParams)
    ensures
        p.encoding@ == "linear16"@,
        p.sample_rate == 44100,
        p.channels == 2,
        p.keep_alive,
{
    StreamParams {
        encoding: "linear16".to_owned(),
        sample_rate: 44100,
        channels: 2,
        keep_alive: true,
    }
}

} // verus!
