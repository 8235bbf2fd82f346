//! From rendered blocks to a stream of samples.
//!
//! A sound is a recipe: one graph, a sample rate and a channel count.  Each
//! playback gets a copy of the graph and a decoder of its own.  The decoder
//! takes the blocks that the playback renders, channel by channel, and
//! hands out their samples one at a time, interleaved.

use vstd::prelude::*;
use vstd::arithmetic::div_mod::lemma_fundamental_div_mod_converse;
use crate::dsp::graph::Graph;

verus! {

/// The recipe of a sound.
pub struct ProceduralAudio {
    graph: Graph,
    sample_rate: u32,
    channels: u16,
}

/// Sample `k` of a block of interleaved frames: the first channel comes
/// from `left`, the second from `right`, any further channel is `fill`.
pub open spec fn slot<T>(left: Seq<T>, right: Seq<T>, channels: int, fill: T, k: int) -> T {
    if k % channels == 0 {
        left[k / channels]
    } else if k % channels == 1 {
        right[k / channels]
    } else {
        fill
    }
}

/// The frames of a block, interleaved: one sample per channel for the first
/// frame, then for the second, and so on.
pub open spec fn interleaved<T>(left: Seq<T>, right: Seq<T>, channels: int, fill: T) -> Seq<T> {
    Seq::new((left.len() * channels) as nat, |k: int| slot(left, right, channels, fill, k))
}

/// A decoder as the contracts see it.
pub struct DecoderView<T> {
    pub sample_rate: u32,
    pub channels: u16,
    /// The number of frames in a block.
    pub frames: nat,
    /// What channels beyond the second carry.
    pub silence: T,
    /// The last block, interleaved.
    pub buffer: Seq<T>,
    /// How many samples of the buffer have been handed out.
    pub pos: nat,
}

impl<T> DecoderView<T> {
    /// The buffer holds one block, and channels beyond the second are silent.
    pub open spec fn wf(self) -> bool {
        &&& self.channels >= 1
        &&& self.buffer.len() == self.frames * self.channels
        &&& self.pos <= self.buffer.len()
        &&& forall|k: int|
            0 <= k < self.buffer.len() && k % (self.channels as int) >= 2
                ==> #[trigger] self.buffer[k] == self.silence
    }

    /// The samples that are still to be handed out.
    pub open spec fn pending(self) -> Seq<T> {
        self.buffer.subrange(self.pos as int, self.buffer.len() as int)
    }
}

/// Hands out the samples of rendered blocks one at a time.
pub struct ProceduralAudioDecoder<T> {
    sample_rate: u32,
    channels: u16,
    frames: usize,
    silence: T,
    buffer: Vec<T>,
    pos: usize,
}

impl<T> View for ProceduralAudioDecoder<T> {
    type V = DecoderView<T>;

    closed spec fn view(&self) -> DecoderView<T> {
        DecoderView {
            sample_rate: self.sample_rate,
            channels: self.channels,
            frames: self.frames as nat,
            silence: self.silence,
            buffer: self.buffer@,
            pos: self.pos as nat,
        }
    }
}

/// Frame `i` starts at sample `i * channels`, and its samples all lie within the block.
proof fn lemma_frame_bounds(i: int, frames: int, channels: int)
    by (nonlinear_arith)
    requires
        0 <= i < frames,
        0 < channels,
    ensures
        (i + 1) * channels == i * channels + channels,
        0 <= i * channels,
        (i + 1) * channels <= frames * channels,
{
}

impl<T: Copy> ProceduralAudioDecoder<T> {
    /// A decoder for blocks of `frames` frames of `channels` channels.  It
    /// starts out exhausted, so that the first sample asks for a block.
    pub fn new(sample_rate: u32, channels: u16, frames: usize, silence: T) -> (d: Self)
        requires
            channels >= 1,
            frames * channels <= usize::MAX,
        ensures
            d@.wf(),
            d@.sample_rate == sample_rate,
            d@.channels == channels,
            d@.frames == frames,
            d@.silence == silence,
            d@.pending() == Seq::<T>::empty(),
    {
        let total: usize = frames * (channels as usize);
        let mut buffer: Vec<T> = Vec::new();
        let mut k: usize = 0;
        while k < total
            invariant
                k <= total,
                buffer@.len() == k,
                forall|j: int| 0 <= j < k ==> #[trigger] buffer@[j] == silence,
            decreases total - k,
        {
            buffer.push(silence);
            k += 1;
        }
        let d = ProceduralAudioDecoder { sample_rate, channels, frames, silence, buffer, pos: total };
        assert(d@.pending() =~= Seq::<T>::empty());
        d
    }

    /// The number of channels.
    pub fn channels(&self) -> (r: u16)
        ensures
            r == self@.channels,
    {
        self.channels
    }

    /// The number of frames per second.
    pub fn sample_rate(&self) -> (r: u32)
        ensures
            r == self@.sample_rate,
    {
        self.sample_rate
    }

    /// The number of frames in a block.
    pub fn frames(&self) -> (r: usize)
        ensures
            r == self@.frames,
    {
        self.frames
    }

    /// The number of samples before the stream's format may change: the
    /// format never changes, so there is no such number.
    pub fn current_frame_len(&self) -> (r: Option<usize>)
        ensures
            r is None,
    {
        None
    }

    /// Whether all samples of the last block have been handed out.
    pub fn exhausted(&self) -> (r: bool)
        requires
            self@.wf(),
        ensures
            r == (self@.pending().len() == 0),
    {
        self.pos >= self.buffer.len()
    }

    /// Takes in a rendered block: `left` is its first channel and `right`
    /// its second, which is read only where there are two channels or more.
    /// What was pending is dropped.
    pub fn fill_block(&mut self, left: &Vec<T>, right: &Vec<T>)
        requires
            old(self)@.wf(),
            left@.len() == old(self)@.frames,
            old(self)@.channels >= 2 ==> right@.len() == old(self)@.frames,
        ensures
            final(self)@.wf(),
            final(self)@.pending() == interleaved(
                left@,
                right@,
                old(self)@.channels as int,
                old(self)@.silence,
            ),
            final(self)@.sample_rate == old(self)@.sample_rate,
            final(self)@.channels == old(self)@.channels,
            final(self)@.frames == old(self)@.frames,
            final(self)@.silence == old(self)@.silence,
    {
        let ch: usize = self.channels as usize;
        let size: usize = self.frames;
        let ghost fill = self.silence;
        let total: usize = self.buffer.len();
        let mut i: usize = 0;
        let mut base: usize = 0;
        while i < size
            invariant
                i <= size,
                total == size * ch,
                ch == self.channels >= 1,
                size == self.frames == left@.len(),
                ch >= 2 ==> right@.len() == size,
                fill == self.silence,
                base == i * ch,
                self.buffer@.len() == size * ch,
                self.pos <= self.buffer@.len(),
                self.sample_rate == old(self).sample_rate,
                self.channels == old(self).channels,
                self.frames == old(self).frames,
                self.silence == old(self).silence,
                forall|k: int|
                    0 <= k < self.buffer@.len() && k % (ch as int) >= 2
                        ==> #[trigger] self.buffer@[k] == fill,
                base <= total,
                forall|k: int|
                    0 <= k < base ==> #[trigger] self.buffer@[k] == slot(
                        left@,
                        right@,
                        ch as int,
                        fill,
                        k,
                    ),
            decreases size - i,
        {
            proof {
                lemma_frame_bounds(i as int, size as int, ch as int);
                lemma_fundamental_div_mod_converse(base as int, ch as int, i as int, 0);
                assert(base + ch <= total);
            }
            self.buffer.set(base, left[i]);
            if ch >= 2 {
                proof {
                    lemma_fundamental_div_mod_converse(base + 1, ch as int, i as int, 1);
                }
                self.buffer.set(base + 1, right[i]);
            }
            proof {
                assert forall|k: int| 0 <= k < base + ch implies #[trigger] self.buffer@[k]
                    == slot(left@, right@, ch as int, fill, k) by {
                    if k >= base {
                        lemma_fundamental_div_mod_converse(k, ch as int, i as int, k - base);
                    }
                }
            }
            base = base + ch;
            i += 1;
        }
        self.pos = 0;
        proof {
            assert(self@.pending() =~= interleaved(left@, right@, ch as int, fill));
        }
    }

    /// Hands out the next sample, or nothing where the decoder is exhausted
    /// and needs a block first.
    pub fn next_sample(&mut self) -> (r: Option<T>)
        requires
            old(self)@.wf(),
        ensures
            final(self)@.wf(),
            match r {
                Some(s) => old(self)@.pending().len() > 0 && s == old(self)@.pending()[0]
                    && final(self)@.pending() == old(self)@.pending().skip(1),
                None => old(self)@.pending().len() == 0 && final(self)@ == old(self)@,
            },
            final(self)@.buffer == old(self)@.buffer,
            final(self)@.sample_rate == old(self)@.sample_rate,
            final(self)@.channels == old(self)@.channels,
            final(self)@.frames == old(self)@.frames,
            final(self)@.silence == old(self)@.silence,
    {
        if self.pos >= self.buffer.len() {
            return None;
        }
        let sample = self.buffer[self.pos];
        self.pos = self.pos + 1;
        proof {
            assert(self@.pending() =~= old(self)@.pending().skip(1));
        }
        Some(sample)
    }
}

impl ProceduralAudio {
    /// A sound that plays `graph` at `sample_rate` frames per second on `channels` channels.
    pub fn new(graph: Graph, sample_rate: u32, channels: u16) -> (r: Self)
        ensures
            r.graph_view() == graph@,
            r.rate() == sample_rate,
            r.channel_count() == channels,
    {
        ProceduralAudio { graph, sample_rate, channels }
    }

    /// The graph of the sound.
    pub closed spec fn graph_view(&self) -> crate::dsp::graph::GraphView {
        self.graph@
    }

    /// The sample rate of the sound.
    pub closed spec fn rate(&self) -> u32 {
        self.sample_rate
    }

    /// The channel count of the sound.
    pub closed spec fn channel_count(&self) -> u16 {
        self.channels
    }

    /// The graph of the sound.
    pub fn graph(&self) -> (g: &Graph)
        ensures
            g@ == self.graph_view(),
    {
        &self.graph
    }

    /// The number of frames per second.
    pub fn sample_rate(&self) -> (r: u32)
        ensures
            r == self.rate(),
    {
        self.sample_rate
    }

    /// The number of channels.
    pub fn channels(&self) -> (r: u16)
        ensures
            r == self.channel_count(),
    {
        self.channels
    }

    /// What a new playback starts from: a copy of the graph, which shares
    /// nothing with the recipe or with any other playback, and a decoder
    /// that has handed out nothing yet.
    pub fn decoder<T: Copy>(&self, frames: usize, silence: T) -> (r: (
        Graph,
        ProceduralAudioDecoder<T>,
    ))
        requires
            self.channel_count() >= 1,
            frames * self.channel_count() <= usize::MAX,
        ensures
            r.0@ == self.graph_view(),
            r.1@.wf(),
            r.1@.sample_rate == self.rate(),
            r.1@.channels == self.channel_count(),
            r.1@.frames == frames,
            r.1@.silence == silence,
            r.1@.pending() == Seq::<T>::empty(),
    {
        let cloned = self.graph.duplicate();
        (cloned, ProceduralAudioDecoder::new(self.sample_rate, self.channels, frames, silence))
    }
}

} // verus!
