//! A uniform slot: one CPU-side plain value mirrored into a GPU buffer.
//!
//! The CPU value is the single source of truth. Overwriting it makes the slot
//! stale until [`UniformBuffer::update`] pushes the whole value to the GPU;
//! there is no partial write and no read-back. The GPU-visible words are
//! modeled by a ghost field, so staleness and sync atomicity are stated and
//! proved rather than assumed.

use vstd::prelude::*;
use crate::gpu::{make_buffer, write_buffer_words, BufferUse, GpuBuffer};

verus! {

/// A fixed-size, fixed-layout value that can live in a uniform buffer.
///
/// `word_view` is the value's exact GPU layout as 32-bit words, padding
/// included; `raw_view` produces those words for upload. Every block of the
/// layout must start on a 16-byte boundary, so composite implementors insert
/// explicit padding words. The layout is fixed: every value of the type
/// occupies the same, nonzero number of words, which [`Self::words_fixed`]
/// obliges each implementor to prove.
pub trait UniformBufferData: Sized {
    /// The words this value occupies on the GPU, in layout order.
    spec fn word_view(&self) -> Seq<u32>;

    /// How many words a value of this type occupies; the same for every
    /// value.
    spec fn word_count() -> nat;

    /// The type is fixed-size: every value's layout has exactly
    /// [`Self::word_count`] words, and at least one.
    proof fn words_fixed(&self)
        ensures
            self.word_view().len() == Self::word_count(),
            Self::word_count() > 0,
    ;

    /// The value serialized as raw words for upload.
    fn raw_view(&self) -> (r: Vec<u32>)
        ensures
            r@ == self.word_view(),
    ;
}

/// The abstract state of a uniform slot: the words of the CPU value and the
/// words last pushed to the GPU.
#[verifier::ext_equal]
pub struct SlotState {
    pub cpu: Seq<u32>,
    pub gpu: Seq<u32>,
}

/// Overwriting the CPU value leaves the GPU words untouched (the slot goes
/// stale but stays well defined).
pub open spec fn slot_write(s: SlotState, v: Seq<u32>) -> SlotState {
    SlotState { cpu: v, gpu: s.gpu }
}

/// A sync copies the whole CPU value to the GPU, whatever was there before.
pub open spec fn slot_sync(s: SlotState) -> SlotState {
    SlotState { cpu: s.cpu, gpu: s.cpu }
}

/// After writing `v1`, syncing, then writing `v2` and syncing again, the
/// GPU-visible words are exactly `v2` — a full-value copy, never a mix of
/// the two values.
pub proof fn lemma_second_sync_overwrites(s: SlotState, v1: Seq<u32>, v2: Seq<u32>)
    ensures
        slot_sync(slot_write(slot_sync(slot_write(s, v1)), v2)).gpu == v2,
{
}

/// Syncing twice with no intervening write changes nothing: sync is
/// idempotent.
pub proof fn lemma_sync_idempotent(s: SlotState)
    ensures
        slot_sync(slot_sync(s)) == slot_sync(s),
{
}

/// One CPU-side value and its mirrored GPU buffer.
pub struct UniformBuffer<T: UniformBufferData> {
    /// The CPU value; overwrite it, then call [`Self::update`].
    pub data: T,
    /// The GPU buffer, allocated once at construction with the value's size.
    pub buffer: GpuBuffer,
    /// Model of the words the GPU currently sees; written only by this
    /// module's constructor and sync.
    pub gpu_words: Ghost<Seq<u32>>,
}

impl<T: UniformBufferData> UniformBuffer<T> {
    /// The GPU buffer is a uniform one of exactly the type's size;
    /// established at construction, preserved by every method, relied on by
    /// [`Self::update`]'s full-size write.
    pub open spec fn wf(&self) -> bool {
        &&& self.buffer.usage() == BufferUse::Uniform
        &&& self.buffer.size_words() == T::word_count()
    }

    /// The slot's abstract state.
    pub open spec fn abs(&self) -> SlotState {
        SlotState { cpu: self.data.word_view(), gpu: self.gpu_words@ }
    }

    /// The GPU mirror holds exactly the current value's words.
    pub open spec fn synced(&self) -> bool {
        self.gpu_words@ == self.data.word_view()
    }

    /// Allocates the GPU buffer and immediately writes the initial value.
    pub fn new(device: &wgpu::Device, data: T, label: Option<&str>) -> (r: Self)
        ensures
            r.data == data,
            r.synced(),
            r.wf(),
            r.buffer.creation_words() == data.word_view(),
    {
        proof {
            data.words_fixed();
        }
        let words = data.raw_view();
        let buffer = make_buffer(device, &words, BufferUse::Uniform, label);
        UniformBuffer { data, buffer, gpu_words: Ghost(words@) }
    }

    /// Pushes the current CPU value to the GPU, full-size, at offset 0.
    pub fn update(&mut self, queue: &wgpu::Queue)
        requires
            old(self).wf(),
        ensures
            final(self).data == old(self).data,
            final(self).buffer == old(self).buffer,
            final(self).wf(),
            final(self).synced(),
            final(self).abs() == slot_sync(old(self).abs()),
    {
        proof {
            self.data.words_fixed();
        }
        let words = self.data.raw_view();
        write_buffer_words(queue, &self.buffer, &words);
        self.gpu_words = Ghost(words@);
        proof {
            assert(self.abs() =~= slot_sync(old(self).abs()));
        }
    }
}

} // verus!
