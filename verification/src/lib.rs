//! A single-producer, single-consumer "triple buffer": three storage slots
//! rotate among a writer-owned input slot, a reader-owned output slot, and a
//! shared back slot holding the most recently published value. The handoff
//! protocol is driven by a packed state word (back-slot index plus a dirty
//! bit); this crate proves the protocol's bookkeeping correct: the three
//! indices always form a permutation of the slots, the dirty bit is set
//! exactly while an unclaimed value sits in the back slot, and a read always
//! yields the most recently published whole value.

pub mod buffer;
pub mod laws;
pub mod model;
pub mod word;

pub use buffer::{BufferReader, BufferWriter, TripleBuffer};
pub use model::BufferModel;

pub use word::{back_index_of, is_dirty, pack_back_info};
pub use word::{BACK_DIRTY_BIT, BACK_INDEX_MASK};
