//! The protocol's guarantees, stated and proved over the abstract model.

use vstd::prelude::*;

use crate::model::BufferModel;
use crate::model::{lemma_after_update, lemma_after_write};

verus! {

/// Single-writer liveness: after any non-empty sequence of writes, the
/// pending back value is exactly the last value written, and a read claims
/// it. Intermediate values may be skipped, the final one never is.
pub proof fn lemma_last_write_wins<T>(m: BufferModel<T>, vs: Seq<T>)
    requires
        m.wf(),
        vs.len() > 0,
    ensures
        m.after_writes(vs).wf(),
        m.after_writes(vs).dirty(),
        m.after_writes(vs).back_value() == vs.last(),
        m.after_writes(vs).read_result() == vs.last(),
    decreases vs.len(),
{
    lemma_after_write(m, vs.first());
    if vs.len() == 1 {
        let m1 = m.after_write(vs.first());
        assert(vs.drop_first().len() == 0);
        assert(m1.after_writes(vs.drop_first()) == m1);
    } else {
        lemma_last_write_wins(m.after_write(vs.first()), vs.drop_first());
        assert(vs.drop_first().last() == vs.last());
    }
    lemma_after_update(m.after_writes(vs));
}

/// No tearing: a write replaces exactly one slot with the written value as
/// a whole, a read moves no slot contents at all, and the value a read
/// claims right after a write is that whole written value — never a mixture
/// of two writes.
pub proof fn lemma_no_tearing<T>(m: BufferModel<T>, v: T)
    requires
        m.wf(),
    ensures
        m.after_write(v).slots == m.slots.update(m.input_index as int, v),
        m.after_update().slots == m.slots,
        m.after_write(v).read_result() == v,
{
    lemma_last_write_wins(m, seq![v]);
    assert(m.after_writes(seq![v]) == m.after_write(seq![v].first()).after_writes(
        seq![v].drop_first(),
    ));
    assert(seq![v].drop_first() =~= Seq::<T>::empty());
    assert(m.after_writes(seq![v]) == m.after_write(v));
}

/// Idempotent re-read: claiming twice with no write in between is the same
/// as claiming once — the second handoff does not occur, the observed value
/// is identical, and nothing is pending before the second claim.
pub proof fn lemma_idempotent_reread<T>(m: BufferModel<T>)
    requires
        m.wf(),
    ensures
        !m.after_update().dirty(),
        m.after_update().after_update() == m.after_update(),
        m.after_update().read_result() == m.read_result(),
{
    lemma_after_update(m);
}

/// One step of a trace: either the writer publishes a whole value or the
/// reader claims whatever is pending.
pub enum BufferOp<T> {
    /// The writer overwrites its slot with the value and publishes it.
    Write(T),
    /// The reader performs a handoff if a value is pending.
    Claim,
}

/// The state after a trace of writer and reader steps, first step first.
pub open spec fn run_ops<T>(m: BufferModel<T>, ops: Seq<BufferOp<T>>) -> BufferModel<T>
    decreases ops.len(),
{
    if ops.len() == 0 {
        m
    } else {
        let next = match ops.first() {
            BufferOp::Write(v) => m.after_write(v),
            BufferOp::Claim => m.after_update(),
        };
        run_ops(next, ops.drop_first())
    }
}

/// The values written along a trace, in order.
pub open spec fn written_values<T>(ops: Seq<BufferOp<T>>) -> Seq<T>
    decreases ops.len(),
{
    if ops.len() == 0 {
        Seq::empty()
    } else {
        match ops.first() {
            BufferOp::Write(v) => seq![v] + written_values(ops.drop_first()),
            BufferOp::Claim => written_values(ops.drop_first()),
        }
    }
}

/// Latest-value broadcast: however writer steps and reader claims are
/// interleaved, a read at the end of the trace yields the last value
/// written — intermediate values may be skipped, the freshest never is. A
/// trace with no write leaves the observed value where it was.
pub proof fn lemma_interleaved_last_write_wins<T>(m: BufferModel<T>, ops: Seq<BufferOp<T>>)
    requires
        m.wf(),
    ensures
        run_ops(m, ops).wf(),
        written_values(ops).len() > 0 ==> run_ops(m, ops).read_result()
            == written_values(ops).last(),
        written_values(ops).len() == 0 ==> run_ops(m, ops).read_result() == m.read_result(),
    decreases ops.len(),
{
    if ops.len() > 0 {
        let rest = ops.drop_first();
        match ops.first() {
            BufferOp::Write(v) => {
                lemma_no_tearing(m, v);
                lemma_after_write(m, v);
                lemma_interleaved_last_write_wins(m.after_write(v), rest);
                if written_values(rest).len() > 0 {
                    assert(written_values(ops).last() == written_values(rest).last());
                } else {
                    assert(written_values(ops).last() == v);
                }
            },
            BufferOp::Claim => {
                lemma_after_update(m);
                lemma_idempotent_reread(m);
                lemma_interleaved_last_write_wins(m.after_update(), rest);
            },
        }
    }
}

/// Dirty-bit correctness: a fresh buffer has nothing pending, a write
/// always leaves a value pending, and a claim always leaves nothing
/// pending.
pub proof fn lemma_dirty_bit<T>(s1: T, s2: T, s3: T, m: BufferModel<T>, v: T)
    requires
        m.wf(),
    ensures
        !BufferModel::initial(s1, s2, s3).dirty(),
        m.after_write(v).dirty(),
        !m.after_update().dirty(),
{
    crate::model::lemma_initial(s1, s2, s3);
    lemma_after_write(m, v);
    lemma_after_update(m);
}

} // verus!
