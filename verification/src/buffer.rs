//! The triple buffer and its two capability handles.
//!
//! A `TripleBuffer<T>` owns three slots of `T` plus the packed back-slot
//! state word, the two privately held slot indices, and the two exclusivity
//! flags. A `BufferWriter` and a `BufferReader` are role tokens handed out at
//! most one each; every operation takes the buffer it acts on and is
//! specified against the abstract `BufferModel` state.

use vstd::prelude::*;

use crate::model::BufferModel;
use crate::model::{
    lemma_after_publish, lemma_after_update, lemma_after_write, lemma_initial, lemma_with_input,
};
use crate::word::{back_index_of, is_dirty, pack_back_info};

verus! {

/// A single-producer, single-consumer exchange cell: three slots rotating
/// among the writer, the reader and a shared back position.
pub struct TripleBuffer<T> {
    slots: Vec<T>,
    back_info: u8,
    input_idx: u8,
    output_idx: u8,
    reader_exists: bool,
    writer_exists: bool,
}

/// The reader's role token: at most one is outstanding per buffer.
pub struct BufferReader {
    _role: (),
}

/// The writer's role token: at most one is outstanding per buffer.
pub struct BufferWriter {
    _role: (),
}

impl<T> View for TripleBuffer<T> {
    type V = BufferModel<T>;

    closed spec fn view(&self) -> BufferModel<T> {
        BufferModel {
            slots: self.slots@,
            back_word: self.back_info,
            input_index: self.input_idx,
            output_index: self.output_idx,
            reader_live: self.reader_exists,
            writer_live: self.writer_exists,
        }
    }
}

impl<T> TripleBuffer<T> {
    /// Builds a buffer from the three initial slot values: the first goes to
    /// the back slot, the second to the writer's slot, the third to the
    /// reader's slot; nothing is pending and no handle is outstanding.
    pub fn new_const(s1: T, s2: T, s3: T) -> (r: Self)
        ensures
            r@ == BufferModel::initial(s1, s2, s3),
            r@.wf(),
            !r@.dirty(),
            !r@.reader_live,
            !r@.writer_live,
            r@.back_value() == s1,
            r@.input_value() == s2,
            r@.output_value() == s3,
    {
        let ghost g1 = s1;
        let ghost g2 = s2;
        let ghost g3 = s3;
        let mut slots: Vec<T> = Vec::new();
        slots.push(s1);
        slots.push(s2);
        slots.push(s3);
        let r = TripleBuffer {
            slots,
            back_info: 0,
            input_idx: 1,
            output_idx: 2,
            reader_exists: false,
            writer_exists: false,
        };
        proof {
            lemma_initial(g1, g2, g3);
            assert(r@ =~= BufferModel::initial(g1, g2, g3));
        }
        r
    }

    /// Builds a buffer by invoking the value generator once per slot.
    pub fn new(generator: impl Fn() -> T) -> (r: Self)
        requires
            call_requires(generator, ()),
        ensures
            r@.wf(),
            !r@.dirty(),
            !r@.reader_live,
            !r@.writer_live,
            call_ensures(generator, (), r@.back_value()),
            call_ensures(generator, (), r@.input_value()),
            call_ensures(generator, (), r@.output_value()),
            r@ == BufferModel::initial(r@.back_value(), r@.input_value(), r@.output_value()),
    {
        let s1 = generator();
        let s2 = generator();
        let s3 = generator();
        Self::new_const(s1, s2, s3)
    }

    /// Hands out the reader token. The caller must know no reader is
    /// outstanding; a wrapper that checks first is `try_get_reader`.
    pub fn get_reader(&mut self) -> (r: BufferReader)
        requires
            !old(self)@.reader_live,
        ensures
            final(self)@ == (BufferModel { reader_live: true, ..old(self)@ }),
            final(self)@.reader_live,
            old(self)@.wf() ==> final(self)@.wf(),
    {
        self.reader_exists = true;
        proof {
            assert(self@ =~= (BufferModel { reader_live: true, ..old(self)@ }));
        }
        BufferReader { _role: () }
    }

    /// Hands out the writer token. The caller must know no writer is
    /// outstanding; a wrapper that checks first is `try_get_writer`.
    pub fn get_writer(&mut self) -> (w: BufferWriter)
        requires
            !old(self)@.writer_live,
        ensures
            final(self)@ == (BufferModel { writer_live: true, ..old(self)@ }),
            final(self)@.writer_live,
            old(self)@.wf() ==> final(self)@.wf(),
    {
        self.writer_exists = true;
        proof {
            assert(self@ =~= (BufferModel { writer_live: true, ..old(self)@ }));
        }
        BufferWriter { _role: () }
    }

    /// Hands out the reader token only if none is outstanding; returns
    /// `None` exactly when a reader is still live.
    pub fn try_get_reader(&mut self) -> (r: Option<BufferReader>)
        ensures
            r.is_some() == !old(self)@.reader_live,
            final(self)@ == (BufferModel { reader_live: true, ..old(self)@ }),
            old(self)@.wf() ==> final(self)@.wf(),
    {
        if self.reader_exists {
            proof {
                assert(self@ =~= (BufferModel { reader_live: true, ..old(self)@ }));
            }
            None
        } else {
            Some(self.get_reader())
        }
    }

    /// Hands out the writer token only if none is outstanding; returns
    /// `None` exactly when a writer is still live.
    pub fn try_get_writer(&mut self) -> (w: Option<BufferWriter>)
        ensures
            w.is_some() == !old(self)@.writer_live,
            final(self)@ == (BufferModel { writer_live: true, ..old(self)@ }),
            old(self)@.wf() ==> final(self)@.wf(),
    {
        if self.writer_exists {
            proof {
                assert(self@ =~= (BufferModel { writer_live: true, ..old(self)@ }));
            }
            None
        } else {
            Some(self.get_writer())
        }
    }

    /// Takes the reader token back, permitting a new reader to be issued.
    pub fn release_reader(&mut self, reader: BufferReader)
        ensures
            final(self)@ == (BufferModel { reader_live: false, ..old(self)@ }),
            !final(self)@.reader_live,
            old(self)@.wf() ==> final(self)@.wf(),
    {
        let BufferReader { _role } = reader;
        self.reader_exists = false;
        proof {
            assert(self@ =~= (BufferModel { reader_live: false, ..old(self)@ }));
        }
    }

    /// Takes the writer token back, permitting a new writer to be issued.
    pub fn release_writer(&mut self, writer: BufferWriter)
        ensures
            final(self)@ == (BufferModel { writer_live: false, ..old(self)@ }),
            !final(self)@.writer_live,
            old(self)@.wf() ==> final(self)@.wf(),
    {
        let BufferWriter { _role } = writer;
        self.writer_exists = false;
        proof {
            assert(self@ =~= (BufferModel { writer_live: false, ..old(self)@ }));
        }
    }
}

impl BufferWriter {
    /// Mutable access to the slot the writer currently owns; changes made
    /// through it stay invisible to the reader until published.
    pub fn input_buffer<'a, T>(&self, buf: &'a mut TripleBuffer<T>) -> (r: &'a mut T)
        requires
            old(buf)@.wf(),
            old(buf)@.writer_live,
        ensures
            *r == old(buf)@.input_value(),
            final(buf)@ == old(buf)@.with_input(*final(r)),
    {
        let i = buf.input_idx;
        &mut buf.slots[i as usize]
    }

    /// Whether the most recently published value has been claimed by the
    /// reader (the dirty bit is clear).
    pub fn consumed<T>(&self, buf: &TripleBuffer<T>) -> (r: bool)
        ensures
            r == !buf@.dirty(),
    {
        !is_dirty(buf.back_info)
    }

    /// The handoff on the writer's side: the writer's slot becomes the back
    /// slot, marked dirty, and the writer takes over the previous back slot.
    /// Returns true exactly when the previously published value had not yet
    /// been claimed, i.e. the reader skipped a generation.
    pub fn publish<T>(&self, buf: &mut TripleBuffer<T>) -> (skipped: bool)
        requires
            old(buf)@.wf(),
            old(buf)@.writer_live,
        ensures
            final(buf)@ == old(buf)@.after_publish(),
            final(buf)@.wf(),
            final(buf)@.dirty(),
            final(buf)@.back_value() == old(buf)@.input_value(),
            final(buf)@.input_value() == old(buf)@.back_value(),
            final(buf)@.output_value() == old(buf)@.output_value(),
            skipped == old(buf)@.dirty(),
    {
        let former_back_info = buf.back_info;
        buf.back_info = pack_back_info(buf.input_idx, true);
        buf.input_idx = back_index_of(former_back_info);
        proof {
            lemma_after_publish(old(buf)@);
            assert(buf@ =~= old(buf)@.after_publish());
        }
        is_dirty(former_back_info)
    }

    /// Overwrites the writer's slot with `value` as a whole, then publishes
    /// it: afterwards `value` is the pending back value.
    pub fn write<T>(&self, buf: &mut TripleBuffer<T>, value: T)
        requires
            old(buf)@.wf(),
            old(buf)@.writer_live,
        ensures
            final(buf)@ == old(buf)@.after_write(value),
            final(buf)@.wf(),
            final(buf)@.dirty(),
            final(buf)@.back_value() == value,
            final(buf)@.output_value() == old(buf)@.output_value(),
    {
        let ghost gv = value;
        let slot = self.input_buffer(buf);
        *slot = value;
        proof {
            lemma_with_input(old(buf)@, gv);
        }
        let _skipped: bool = self.publish(buf);
        proof {
            lemma_after_write(old(buf)@, gv);
        }
    }
}

impl BufferReader {
    /// Whether a published value is pending beyond what the reader holds.
    pub fn updated<T>(&self, buf: &TripleBuffer<T>) -> (r: bool)
        ensures
            r == buf@.dirty(),
    {
        is_dirty(buf.back_info)
    }

    /// The handoff on the reader's side: if a value is pending, takes over
    /// the back slot and hands the old output slot back clean. Returns true
    /// exactly when a swap occurred.
    pub fn update<T>(&self, buf: &mut TripleBuffer<T>) -> (swapped: bool)
        requires
            old(buf)@.wf(),
            old(buf)@.reader_live,
        ensures
            final(buf)@ == old(buf)@.after_update(),
            final(buf)@.wf(),
            !final(buf)@.dirty(),
            final(buf)@.output_value() == (if old(buf)@.dirty() {
                old(buf)@.back_value()
            } else {
                old(buf)@.output_value()
            }),
            final(buf)@.input_value() == old(buf)@.input_value(),
            swapped == old(buf)@.dirty(),
    {
        let swapped = is_dirty(buf.back_info);
        if swapped {
            let former_back_info = buf.back_info;
            buf.back_info = pack_back_info(buf.output_idx, false);
            buf.output_idx = back_index_of(former_back_info);
        }
        proof {
            lemma_after_update(old(buf)@);
            assert(buf@ =~= old(buf)@.after_update());
        }
        swapped
    }

    /// Access to the slot the reader currently owns, without a handoff.
    pub fn output_buffer<'a, T>(&self, buf: &'a mut TripleBuffer<T>) -> (r: &'a mut T)
        requires
            old(buf)@.wf(),
            old(buf)@.reader_live,
        ensures
            *r == old(buf)@.output_value(),
            final(buf)@ == old(buf)@.with_output(*final(r)),
    {
        let i = buf.output_idx;
        &mut buf.slots[i as usize]
    }

    /// Claims the freshest available value and returns it: the pending back
    /// value if one was published, otherwise the value already held.
    pub fn read<'a, T>(&self, buf: &'a mut TripleBuffer<T>) -> (r: &'a T)
        requires
            old(buf)@.wf(),
            old(buf)@.reader_live,
        ensures
            final(buf)@ == old(buf)@.after_update(),
            final(buf)@.wf(),
            !final(buf)@.dirty(),
            *r == old(buf)@.read_result(),
            *r == final(buf)@.output_value(),
    {
        let _swapped: bool = self.update(buf);
        let i = buf.output_idx;
        &buf.slots[i as usize]
    }
}

} // verus!
