//! Log rotation: which numbered history file receives the current log, and
//! what becomes of the current log after the copy.
use vstd::prelude::*;

verus! {

/// How many numbered history files rotation may use (numbers 1 to 99).
pub const HISTORY_SLOTS: u64 = 99;

/// Slot `n` (counted from 1) is taken. `taken[n - 1]` says whether history
/// file `n` exists; slots past the end of `taken` are free.
pub open spec fn slot_taken(taken: Seq<bool>, n: int) -> bool {
    n - 1 < taken.len() && taken[n - 1]
}

/// The lowest free slot from `n` up to the last one.
pub open spec fn first_free_from(taken: Seq<bool>, n: nat) -> Option<u64>
    decreases HISTORY_SLOTS + 1 - n,
{
    if n < 1 || n > HISTORY_SLOTS {
        None
    } else if !slot_taken(taken, n as int) {
        Some(n as u64)
    } else {
        first_free_from(taken, n + 1)
    }
}

proof fn lemma_first_free_from(taken: Seq<bool>, n: nat)
    requires
        1 <= n,
    ensures
        match first_free_from(taken, n) {
            Some(k) => n <= k <= HISTORY_SLOTS && !slot_taken(taken, k as int) && forall|m: int|
                n <= m < k ==> #[trigger] slot_taken(taken, m),
            None => forall|m: int| n <= m <= HISTORY_SLOTS ==> #[trigger] slot_taken(taken, m),
        },
    decreases HISTORY_SLOTS + 1 - n,
{
    if n <= HISTORY_SLOTS && slot_taken(taken, n as int) {
        lemma_first_free_from(taken, n + 1);
    }
}

/// The history file that rotation copies the current log into: the lowest
/// numbered one from 1 to 99 that does not exist yet, or none when all exist.
pub fn first_free_slot(taken: &Vec<bool>) -> (r: Option<u64>)
    ensures
        r == first_free_from(taken@, 1),
        match r {
            Some(k) => 1 <= k <= HISTORY_SLOTS && !slot_taken(taken@, k as int) && forall|m: int|
                1 <= m < k ==> #[trigger] slot_taken(taken@, m),
            None => forall|m: int| 1 <= m <= HISTORY_SLOTS ==> #[trigger] slot_taken(taken@, m),
        },
{
    let mut n: u64 = 1;
    while n <= HISTORY_SLOTS
        invariant
            1 <= n <= HISTORY_SLOTS + 1,
            first_free_from(taken@, 1) == first_free_from(taken@, n as nat),
        decreases HISTORY_SLOTS + 1 - n,
    {
        let idx = (n - 1) as usize;
        if idx >= taken.len() || !taken[idx] {
            proof {
                lemma_first_free_from(taken@, 1);
            }
            return Some(n);
        }
        n = n + 1;
    }
    proof {
        lemma_first_free_from(taken@, 1);
    }
    None
}

/// How a rotation ended.
#[derive(Clone, Copy, Debug, PartialEq, Eq, Structural)]
pub enum RotationOutcome {
    /// All history slots are taken: nothing was copied and nothing changes.
    NoFreeSlot,
    /// The copy reached the history file: the current log is emptied.
    Rotated,
    /// The copy could not be flushed: the current log is kept as it is.
    CopyNotFlushed,
}

pub open spec fn outcome_spec(slot: Option<u64>, flushed: bool) -> RotationOutcome {
    if slot is None {
        RotationOutcome::NoFreeSlot
    } else if flushed {
        RotationOutcome::Rotated
    } else {
        RotationOutcome::CopyNotFlushed
    }
}

/// Decides what to do with the current log once the copy into `slot` has
/// been attempted: empty it only when the copy was flushed.
pub fn rotation_outcome(slot: Option<u64>, flushed: bool) -> (r: RotationOutcome)
    ensures
        r == outcome_spec(slot, flushed),
{
    match slot {
        None => RotationOutcome::NoFreeSlot,
        Some(_) => if flushed {
            RotationOutcome::Rotated
        } else {
            RotationOutcome::CopyNotFlushed
        },
    }
}

/// All bytes of the history files, in slot order.
pub open spec fn concat_all(history: Seq<Seq<u8>>) -> Seq<u8>
    decreases history.len(),
{
    if history.len() == 0 {
        Seq::empty()
    } else {
        concat_all(history.drop_last()) + history.last()
    }
}

/// The history files and the current log after one rotation, where
/// `history[i]` is the content of history file `i + 1`.
pub open spec fn rotate_model(history: Seq<Seq<u8>>, current: Seq<u8>, flushed: bool) -> (
    Seq<Seq<u8>>,
    Seq<u8>,
) {
    let slot = first_free_from(Seq::new(history.len(), |i: int| true), 1);
    match outcome_spec(slot, flushed) {
        RotationOutcome::NoFreeSlot => (history, current),
        RotationOutcome::Rotated => (history.push(current), Seq::empty()),
        RotationOutcome::CopyNotFlushed => (history.push(current), current),
    }
}

/// Rotation loses nothing: after a rotation whose copy was flushed, the
/// history files followed by the current log hold exactly the bytes they held
/// before; when the copy was not flushed, the current log is left as it was.
pub proof fn lemma_rotation_keeps_bytes(history: Seq<Seq<u8>>, current: Seq<u8>, flushed: bool)
    ensures
        ({
            let (h2, c2) = rotate_model(history, current, flushed);
            &&& flushed ==> concat_all(h2) + c2 == concat_all(history) + current
            &&& !flushed ==> c2 == current
        }),
{
    let taken = Seq::new(history.len(), |i: int| true);
    lemma_first_free_from(taken, 1);
    let slot = first_free_from(taken, 1);
    if slot is Some {
        let k = slot->Some_0;
        if history.len() + 1 != k {
            if k <= history.len() {
                assert(slot_taken(taken, k as int));
            } else {
                assert(slot_taken(taken, history.len() + 1 as int));
            }
        }
        let h2 = history.push(current);
        assert(h2.drop_last() =~= history);
        assert(concat_all(h2) + Seq::<u8>::empty() =~= concat_all(history) + current);
    }
}

} // verus!
