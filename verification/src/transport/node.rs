//! The connections of one node: how many there are to be, which of them
//! are open, and which one a request takes.

use crate::routing::Token;
use vstd::prelude::*;

verus! {

/// The state of one connection of a node.
#[derive(Debug, Clone, Copy, PartialEq, Eq, Structural)]
pub enum SlotState {
    /// Not open, and not being opened.
    Closed,
    /// Being opened.
    Opening,
    /// Open.
    Live,
}

/// What a request is to do for a connection to a node.
#[derive(Debug, Clone, Copy, PartialEq, Eq, Structural)]
pub enum PoolChoice {
    /// Use the connection in this slot.
    Use(usize),
    /// Open a connection for this slot, and use it.
    Open(usize),
    /// Nothing can be had now: no connection is open, and all are being
    /// opened already.
    Unavailable,
}

/// The number of connections among the first `count` that are in the given
/// state.
pub open spec fn count_in_state(slots: Seq<SlotState>, state: SlotState, count: nat) -> nat
    decreases count,
{
    if count == 0 {
        0
    } else {
        count_in_state(slots, state, (count - 1) as nat) + (if slots[count - 1] == state {
            1nat
        } else {
            0nat
        })
    }
}

/// The slot of the connection that is the `rank`-th in the given state,
/// counting from zero, from slot `from` on; or the number of slots if there
/// are not so many.
pub open spec fn nth_in_state(slots: Seq<SlotState>, state: SlotState, rank: nat, from: nat) -> nat
    decreases slots.len() - from,
{
    if from >= slots.len() {
        slots.len()
    } else if slots[from as int] == state {
        if rank == 0 {
            from
        } else {
            nth_in_state(slots, state, (rank - 1) as nat, from + 1)
        }
    } else {
        nth_in_state(slots, state, rank, from + 1)
    }
}

/// The connection that a request takes, where `pick` is a number of the
/// caller's choosing: one of the open connections, the one whose rank among
/// them is `pick` modulo their number; or, where none is open, the first
/// that is closed, which is to be opened; or none.
pub open spec fn pool_choice(slots: Seq<SlotState>, pick: nat) -> PoolChoice {
    let live = count_in_state(slots, SlotState::Live, slots.len());
    if live > 0 {
        PoolChoice::Use(nth_in_state(slots, SlotState::Live, pick % live, 0) as usize)
    } else if count_in_state(slots, SlotState::Closed, slots.len()) > 0 {
        PoolChoice::Open(nth_in_state(slots, SlotState::Closed, 0, 0) as usize)
    } else {
        PoolChoice::Unavailable
    }
}

/// Where there are more than `rank` connections in a state from slot `from`
/// on, the one of that rank is found, and it is in that state.
pub proof fn lemma_nth_in_state(slots: Seq<SlotState>, state: SlotState, rank: nat, from: nat)
    requires
        from <= slots.len(),
        rank < count_in_state(slots, state, slots.len()) - count_in_state(slots, state, from),
    ensures
        from <= nth_in_state(slots, state, rank, from) < slots.len(),
        slots[nth_in_state(slots, state, rank, from) as int] == state,
    decreases slots.len() - from,
{
    if from >= slots.len() {
    } else {
        assert(count_in_state(slots, state, from + 1) == count_in_state(slots, state, from) + (
        if slots[from as int] == state {
            1nat
        } else {
            0nat
        }));
        if slots[from as int] == state {
            if rank > 0 {
                lemma_nth_in_state(slots, state, (rank - 1) as nat, from + 1);
            }
        } else {
            lemma_nth_in_state(slots, state, rank, from + 1);
        }
    }
}

/// A request is never sent to a connection that is not open, nor is a
/// connection opened that is open or being opened.
pub proof fn lemma_pool_choice(slots: Seq<SlotState>, pick: nat)
    requires
        slots.len() <= usize::MAX,
    ensures
        match pool_choice(slots, pick) {
            PoolChoice::Use(slot) => slot < slots.len() && slots[slot as int] is Live,
            PoolChoice::Open(slot) => slot < slots.len() && slots[slot as int] is Closed
                && forall|i: int| 0 <= i < slots.len() ==> !(#[trigger] slots[i] is Live),
            PoolChoice::Unavailable => forall|i: int|
                0 <= i < slots.len() ==> #[trigger] slots[i] is Opening,
        },
{
    let live = count_in_state(slots, SlotState::Live, slots.len());
    let closed = count_in_state(slots, SlotState::Closed, slots.len());
    lemma_none_in_state(slots, SlotState::Live, slots.len());
    lemma_none_in_state(slots, SlotState::Closed, slots.len());
    if live > 0 {
        assert(pick % live < live) by (nonlinear_arith)
            requires
                live > 0,
        ;
        lemma_nth_in_state(slots, SlotState::Live, pick % live, 0);
    } else if closed > 0 {
        lemma_nth_in_state(slots, SlotState::Closed, 0, 0);
        assert forall|i: int| 0 <= i < slots.len() implies !(#[trigger] slots[i] is Live) by {
            assert(slots[i] != SlotState::Live);
        }
    } else {
        assert forall|i: int| 0 <= i < slots.len() implies #[trigger] slots[i] is Opening by {
            assert(slots[i] != SlotState::Live);
            assert(slots[i] != SlotState::Closed);
        }
    }
}

/// Where no connection among the first `count` is in a state, none of them
/// is.
pub proof fn lemma_none_in_state(slots: Seq<SlotState>, state: SlotState, count: nat)
    requires
        count <= slots.len(),
    ensures
        count_in_state(slots, state, count) <= count,
        count_in_state(slots, state, count) == 0 ==> forall|i: int|
            0 <= i < count ==> #[trigger] slots[i] != state,
    decreases count,
{
    if count > 0 {
        lemma_none_in_state(slots, state, (count - 1) as nat);
    }
}

/// The connections of one node.
#[derive(Debug)]
pub struct ConnectionPool {
    slots: Vec<SlotState>,
}

impl View for ConnectionPool {
    type V = Seq<SlotState>;

    closed spec fn view(&self) -> Seq<SlotState> {
        self.slots@
    }
}

impl ConnectionPool {
    /// A pool of `size` connections, none of which is open yet: they are
    /// opened when they are needed.
    pub fn new(size: usize) -> (r: Self)
        ensures
            r@.len() == size,
            forall|i: int| 0 <= i < size ==> #[trigger] r@[i] is Closed,
    {
        let mut slots: Vec<SlotState> = Vec::new();
        while slots.len() < size
            invariant
                slots@.len() <= size,
                forall|i: int| 0 <= i < slots@.len() ==> #[trigger] slots@[i] is Closed,
            decreases size - slots@.len(),
        {
            slots.push(SlotState::Closed);
        }
        ConnectionPool { slots }
    }

    /// The number of connections in a state.
    pub fn count(&self, state: SlotState) -> (r: usize)
        ensures
            r == count_in_state(self@, state, self@.len()),
    {
        let mut n: usize = 0;
        let mut i: usize = 0;
        while i < self.slots.len()
            invariant
                i <= self.slots@.len(),
                n <= i,
                n == count_in_state(self.slots@, state, i as nat),
            decreases self.slots@.len() - i,
        {
            if self.slots[i] == state {
                n += 1;
            }
            i += 1;
        }
        n
    }

    fn nth(&self, state: SlotState, rank: usize) -> (r: usize)
        ensures
            r == nth_in_state(self@, state, rank as nat, 0),
    {
        let mut left = rank;
        let mut i: usize = 0;
        while i < self.slots.len()
            invariant
                i <= self.slots@.len(),
                nth_in_state(self.slots@, state, rank as nat, 0) == nth_in_state(
                    self.slots@,
                    state,
                    left as nat,
                    i as nat,
                ),
            decreases self.slots@.len() - i,
        {
            if self.slots[i] == state {
                if left == 0 {
                    return i;
                }
                left -= 1;
            }
            i += 1;
        }
        self.slots.len()
    }

    /// The connection for a request, picked by a number of the caller's
    /// choosing, a random one as a rule. A connection that is to be opened
    /// is marked as being opened.
    pub fn random_connection(&mut self, pick: usize) -> (r: PoolChoice)
        ensures
            r == pool_choice(old(self)@, pick as nat),
            final(self)@ == (match r {
                PoolChoice::Open(slot) => old(self)@.update(slot as int, SlotState::Opening),
                _ => old(self)@,
            }),
            r matches PoolChoice::Use(slot) ==> slot < old(self)@.len()
                && old(self)@[slot as int] is Live,
            r matches PoolChoice::Open(slot) ==> slot < old(self)@.len()
                && old(self)@[slot as int] is Closed,
    {
        let _ = self.slots.len();
        proof {
            lemma_pool_choice(self@, pick as nat);
        }
        let live = self.count(SlotState::Live);
        if live > 0 {
            PoolChoice::Use(self.nth(SlotState::Live, pick % live))
        } else if self.count(SlotState::Closed) > 0 {
            let slot = self.nth(SlotState::Closed, 0);
            self.slots[slot] = SlotState::Opening;
            PoolChoice::Open(slot)
        } else {
            PoolChoice::Unavailable
        }
    }

    /// The connection for a request that touches the row of a token: the
    /// token picks among the open connections, so that requests for one row
    /// take one connection as long as the same connections are open.
    pub fn connection_for_token(&mut self, token: Token) -> (r: PoolChoice)
        ensures
            r == pool_choice(old(self)@, token_pick(token) as nat),
            final(self)@ == (match r {
                PoolChoice::Open(slot) => old(self)@.update(slot as int, SlotState::Opening),
                _ => old(self)@,
            }),
    {
        let pick: u64 = if token.value >= 0 {
            token.value as u64
        } else {
            (token.value as i128 + 0x1_0000_0000_0000_0000) as u64
        };
        self.random_connection((pick % 0x1_0000_0000) as usize)
    }

    /// Takes note that the connection of a slot is open.
    pub fn opened(&mut self, slot: usize)
        ensures
            final(self)@ == (if slot < old(self)@.len() {
                old(self)@.update(slot as int, SlotState::Live)
            } else {
                old(self)@
            }),
    {
        if slot < self.slots.len() {
            self.slots[slot] = SlotState::Live;
        }
    }

    /// Takes note that the connection of a slot is gone: it could not be
    /// opened, or a request on it met an I/O error.
    pub fn closed(&mut self, slot: usize)
        ensures
            final(self)@ == (if slot < old(self)@.len() {
                old(self)@.update(slot as int, SlotState::Closed)
            } else {
                old(self)@
            }),
    {
        if slot < self.slots.len() {
            self.slots[slot] = SlotState::Closed;
        }
    }

    /// The closed connections, which are opened again in the background:
    /// each is marked as being opened.
    pub fn take_closed(&mut self) -> (r: Vec<usize>)
        ensures
            final(self)@.len() == old(self)@.len(),
            forall|i: int|
                0 <= i < old(self)@.len()
                    ==> #[trigger] final(self)@[i] == (if old(self)@[i] is Closed {
                    SlotState::Opening
                } else {
                    old(self)@[i]
                }),
            forall|i: int|
                0 <= i < old(self)@.len()
                    ==> (r@.contains(i as usize) <==> #[trigger] old(self)@[i] is Closed),
            forall|j: int, k: int| 0 <= j < k < r@.len() ==> r@[j] < r@[k],
            forall|j: int| 0 <= j < r@.len() ==> r@[j] < old(self)@.len(),
    {
        let mut found: Vec<usize> = Vec::new();
        let mut i: usize = 0;
        while i < self.slots.len()
            invariant
                i <= self.slots@.len() == old(self)@.len(),
                forall|k: int|
                    0 <= k < i ==> #[trigger] self.slots@[k] == (if old(self)@[k] is Closed {
                        SlotState::Opening
                    } else {
                        old(self)@[k]
                    }),
                forall|k: int| i <= k < self.slots@.len() ==> self.slots@[k] == old(self)@[k],
                forall|k: int|
                    0 <= k < i
                        ==> (found@.contains(k as usize) <==> #[trigger] old(self)@[k] is Closed),
                forall|j: int| 0 <= j < found@.len() ==> found@[j] < i,
                forall|j: int, k: int| 0 <= j < k < found@.len() ==> found@[j] < found@[k],
            decreases self.slots@.len() - i,
        {
            let ghost before = found@;
            if self.slots[i] == SlotState::Closed {
                self.slots[i] = SlotState::Opening;
                found.push(i);
                proof {
                    assert(found@[before.len() as int] == i);
                    assert forall|k: int| 0 <= k < i + 1 implies (found@.contains(k as usize)
                        <==> #[trigger] old(self)@[k] is Closed) by {
                        if k < i {
                            if before.contains(k as usize) {
                                let j = choose|j: int|
                                    0 <= j < before.len() && before[j] == k as usize;
                                assert(found@[j] == k as usize);
                            }
                            if found@.contains(k as usize) {
                                let j = choose|j: int|
                                    0 <= j < found@.len() && found@[j] == k as usize;
                                assert(before[j] == k as usize);
                            }
                        }
                    }
                }
            } else {
                proof {
                    assert forall|k: int| 0 <= k < i + 1 implies (found@.contains(k as usize)
                        <==> #[trigger] old(self)@[k] is Closed) by {
                        if k == i && found@.contains(k as usize) {
                            let j = choose|j: int|
                                0 <= j < found@.len() && found@[j] == k as usize;
                            assert(found@[j] < i);
                        }
                    }
                }
            }
            i += 1;
        }
        found
    }
}

/// The number by which a token picks a connection: its lower 32 bits.
pub open spec fn token_pick(token: Token) -> usize {
    ((if token.value >= 0 {
        token.value as int
    } else {
        token.value + 0x1_0000_0000_0000_0000
    }) % 0x1_0000_0000) as usize
}

} // verus!
