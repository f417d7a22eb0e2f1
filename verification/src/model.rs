//! The mathematical model of the triple buffer.
//!
//! A buffer state is three slot values, the packed back-slot word, the two
//! privately held slot indices, and the two handle-exclusivity flags. The
//! well-formedness predicate states the central protocol invariant: the back
//! slot's index and the two private indices are a permutation of {0, 1, 2},
//! so every slot has exactly one owner at any instant.

use vstd::prelude::*;

use crate::word::lemma_word_pack;
use crate::word::{word_dirty, word_index, word_pack};

verus! {

/// Abstract state of a triple buffer holding values of type `T`.
#[verifier::ext_equal]
#[verifier::reject_recursive_types(T)]
pub struct BufferModel<T> {
    /// The three slot values, indexed 0 to 2.
    pub slots: Seq<T>,
    /// The packed state word: back-slot index plus dirty bit.
    pub back_word: u8,
    /// Index of the slot the writer currently owns.
    pub input_index: u8,
    /// Index of the slot the reader currently owns.
    pub output_index: u8,
    /// Whether a reader handle is outstanding.
    pub reader_live: bool,
    /// Whether a writer handle is outstanding.
    pub writer_live: bool,
}

impl<T> BufferModel<T> {
    /// Index of the back slot, as carried by the packed word.
    pub open spec fn back_index(self) -> u8 {
        word_index(self.back_word)
    }

    /// Whether the back slot holds a published value the reader has not yet
    /// claimed.
    pub open spec fn dirty(self) -> bool {
        word_dirty(self.back_word)
    }

    /// Well-formedness: three slots, a meaningful state word, and the three
    /// slot indices a permutation of {0, 1, 2}.
    pub open spec fn wf(self) -> bool {
        &&& self.slots.len() == 3
        &&& self.back_word < 8
        &&& self.back_index() < 3
        &&& self.input_index < 3
        &&& self.output_index < 3
        &&& self.back_index() != self.input_index
        &&& self.back_index() != self.output_index
        &&& self.input_index != self.output_index
    }

    /// The value in the back slot.
    pub open spec fn back_value(self) -> T {
        self.slots[self.back_index() as int]
    }

    /// The value in the writer's slot.
    pub open spec fn input_value(self) -> T {
        self.slots[self.input_index as int]
    }

    /// The value in the reader's slot.
    pub open spec fn output_value(self) -> T {
        self.slots[self.output_index as int]
    }

    /// The state just after construction from three initial slot values:
    /// back slot 0, writer slot 1, reader slot 2, nothing published, no
    /// handle outstanding.
    pub open spec fn initial(s1: T, s2: T, s3: T) -> Self {
        BufferModel {
            slots: seq![s1, s2, s3],
            back_word: 0,
            input_index: 1,
            output_index: 2,
            reader_live: false,
            writer_live: false,
        }
    }

    /// The writer's slot overwritten with `v`; nothing else moves.
    pub open spec fn with_input(self, v: T) -> Self {
        BufferModel { slots: self.slots.update(self.input_index as int, v), ..self }
    }

    /// The reader's slot overwritten with `v`; nothing else moves.
    pub open spec fn with_output(self, v: T) -> Self {
        BufferModel { slots: self.slots.update(self.output_index as int, v), ..self }
    }

    /// The handoff on the writer's side: the writer's slot becomes the back
    /// slot with the dirty bit set, and the writer takes over the previous
    /// back slot. Slot contents do not move.
    pub open spec fn after_publish(self) -> Self {
        BufferModel {
            back_word: word_pack(self.input_index, true),
            input_index: self.back_index(),
            ..self
        }
    }

    /// A whole write: overwrite the writer's slot, then publish it.
    pub open spec fn after_write(self, v: T) -> Self {
        self.with_input(v).after_publish()
    }

    /// The handoff on the reader's side: if a value is pending, the reader
    /// takes over the back slot and hands its old slot back as the new,
    /// clean back slot; otherwise nothing changes.
    pub open spec fn after_update(self) -> Self {
        if self.dirty() {
            BufferModel {
                back_word: word_pack(self.output_index, false),
                output_index: self.back_index(),
                ..self
            }
        } else {
            self
        }
    }

    /// What a read returns: the freshest available value.
    pub open spec fn read_result(self) -> T {
        self.after_update().output_value()
    }

    /// The state after a sequence of writes, first element first.
    pub open spec fn after_writes(self, vs: Seq<T>) -> Self
        decreases vs.len(),
    {
        if vs.len() == 0 {
            self
        } else {
            self.after_write(vs.first()).after_writes(vs.drop_first())
        }
    }
}

/// Overwriting the writer's slot touches no other slot and no index: the
/// back and output values, the dirty bit and the flags are unchanged, and
/// well-formedness is kept.
pub proof fn lemma_with_input<T>(m: BufferModel<T>, v: T)
    requires
        m.wf(),
    ensures
        m.with_input(v).wf(),
        m.with_input(v).input_value() == v,
        m.with_input(v).back_value() == m.back_value(),
        m.with_input(v).output_value() == m.output_value(),
        m.with_input(v).dirty() == m.dirty(),
        m.with_input(v).reader_live == m.reader_live,
        m.with_input(v).writer_live == m.writer_live,
{
}

/// Overwriting the reader's slot touches no other slot and no index.
pub proof fn lemma_with_output<T>(m: BufferModel<T>, v: T)
    requires
        m.wf(),
    ensures
        m.with_output(v).wf(),
        m.with_output(v).output_value() == v,
        m.with_output(v).back_value() == m.back_value(),
        m.with_output(v).input_value() == m.input_value(),
        m.with_output(v).dirty() == m.dirty(),
        m.with_output(v).reader_live == m.reader_live,
        m.with_output(v).writer_live == m.writer_live,
{
}

/// The writer's handoff swaps the writer's slot with the back slot, sets
/// the dirty bit, moves no slot contents, and keeps the permutation
/// invariant.
pub proof fn lemma_after_publish<T>(m: BufferModel<T>)
    requires
        m.wf(),
    ensures
        m.after_publish().wf(),
        m.after_publish().dirty(),
        m.after_publish().back_value() == m.input_value(),
        m.after_publish().input_value() == m.back_value(),
        m.after_publish().output_value() == m.output_value(),
        m.after_publish().slots == m.slots,
        m.after_publish().reader_live == m.reader_live,
        m.after_publish().writer_live == m.writer_live,
{
    lemma_word_pack(m.input_index, true);
}

/// A whole write publishes exactly the written value: it becomes the back
/// value, the dirty bit is set, and the reader's slot is untouched.
pub proof fn lemma_after_write<T>(m: BufferModel<T>, v: T)
    requires
        m.wf(),
    ensures
        m.after_write(v).wf(),
        m.after_write(v).dirty(),
        m.after_write(v).back_value() == v,
        m.after_write(v).input_value() == m.back_value(),
        m.after_write(v).output_value() == m.output_value(),
        m.after_write(v).reader_live == m.reader_live,
        m.after_write(v).writer_live == m.writer_live,
{
    lemma_with_input(m, v);
    lemma_after_publish(m.with_input(v));
}

/// The reader's handoff claims the pending value if there is one: the back
/// value becomes the output value, the dirty bit is cleared either way, and
/// the writer's slot is untouched.
pub proof fn lemma_after_update<T>(m: BufferModel<T>)
    requires
        m.wf(),
    ensures
        m.after_update().wf(),
        !m.after_update().dirty(),
        m.after_update().output_value() == (if m.dirty() {
            m.back_value()
        } else {
            m.output_value()
        }),
        m.after_update().input_value() == m.input_value(),
        m.after_update().slots == m.slots,
        m.after_update().reader_live == m.reader_live,
        m.after_update().writer_live == m.writer_live,
{
    if m.dirty() {
        lemma_word_pack(m.output_index, false);
    }
}

/// A freshly constructed buffer is well formed, has nothing pending, and
/// holds the three initial values in back, writer and reader slot order.
pub proof fn lemma_initial<T>(s1: T, s2: T, s3: T)
    ensures
        BufferModel::initial(s1, s2, s3).wf(),
        !BufferModel::initial(s1, s2, s3).dirty(),
        BufferModel::initial(s1, s2, s3).back_value() == s1,
        BufferModel::initial(s1, s2, s3).input_value() == s2,
        BufferModel::initial(s1, s2, s3).output_value() == s3,
        !BufferModel::initial(s1, s2, s3).reader_live,
        !BufferModel::initial(s1, s2, s3).writer_live,
{
    assert(0u8 & 0b11u8 == 0 && 0u8 & 0b100u8 == 0) by (bit_vector);
}

} // verus!
