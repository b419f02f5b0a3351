use vstd::prelude::*;

use crate::habit::HabitType;

verus! {

/// The cursor over the two habit lists: a position in each, and which list
/// has the focus (`switch` is set when the avoid list has it).
#[derive(Clone, Copy, Debug, PartialEq, Eq, Structural)]
pub struct Counter {
    pub build_counter: usize,
    pub avoid_counter: usize,
    pub switch: bool,
}

/// An operation that moves the cursor or shrinks a list under it.
pub enum SelectionOp {
    Increment,
    Decrement,
    /// One habit leaves the given list (nothing happens to an empty list).
    Delete(HabitType),
}

impl Counter {
    /// The cursor fits lists of `build_len` and `avoid_len` habits: each
    /// position lies within its list (or is 0 for an empty list), and the
    /// focus rests on a non-empty list unless both are empty.
    pub open spec fn valid(self, build_len: nat, avoid_len: nat) -> bool {
        &&& if build_len == 0 {
            self.build_counter == 0
        } else {
            self.build_counter < build_len
        }
        &&& if avoid_len == 0 {
            self.avoid_counter == 0
        } else {
            self.avoid_counter < avoid_len
        }
        &&& self.switch ==> avoid_len > 0
        &&& !self.switch ==> (build_len > 0 || avoid_len == 0)
    }

    /// One step down: within the build list, then from its end to the start
    /// of the avoid list, then within the avoid list; no wrap-around.
    pub open spec fn incremented(self, build_len: nat, avoid_len: nat) -> Counter {
        if !self.switch {
            if self.build_counter + 1 < build_len {
                Counter { build_counter: (self.build_counter + 1) as usize, ..self }
            } else if avoid_len > 0 {
                Counter { switch: true, avoid_counter: 0, ..self }
            } else {
                self
            }
        } else if self.avoid_counter + 1 < avoid_len {
            Counter { avoid_counter: (self.avoid_counter + 1) as usize, ..self }
        } else {
            self
        }
    }

    /// One step up: within the avoid list, then from its start back to the
    /// build list at the position it had, then within the build list.
    pub open spec fn decremented(self, build_len: nat) -> Counter {
        if self.switch {
            if self.avoid_counter > 0 {
                Counter { avoid_counter: (self.avoid_counter - 1) as usize, ..self }
            } else if build_len > 0 {
                Counter { switch: false, ..self }
            } else {
                self
            }
        } else if self.build_counter > 0 {
            Counter { build_counter: (self.build_counter - 1) as usize, ..self }
        } else {
            self
        }
    }

    /// The cursor brought back within lists of the given lengths: each
    /// position is cut to the last habit of its list (0 when empty), and the
    /// focus leaves an empty list for a non-empty one.
    pub open spec fn clamped(self, build_len: nat, avoid_len: nat) -> Counter {
        Counter {
            build_counter: if build_len == 0 {
                0
            } else if self.build_counter < build_len {
                self.build_counter
            } else {
                (build_len - 1) as usize
            },
            avoid_counter: if avoid_len == 0 {
                0
            } else if self.avoid_counter < avoid_len {
                self.avoid_counter
            } else {
                (avoid_len - 1) as usize
            },
            switch: if avoid_len == 0 {
                false
            } else if build_len == 0 {
                true
            } else {
                self.switch
            },
        }
    }

    pub fn new() -> (r: Counter)
        ensures
            r == (Counter { build_counter: 0, avoid_counter: 0, switch: false }),
            r.valid(0, 0),
    {
        Counter { build_counter: 0, avoid_counter: 0, switch: false }
    }

    pub fn increment(&mut self, build_len: usize, avoid_len: usize)
        ensures
            *final(self) == old(self).incremented(build_len as nat, avoid_len as nat),
            old(self).valid(build_len as nat, avoid_len as nat) ==> final(self).valid(
                build_len as nat,
                avoid_len as nat,
            ),
    {
        if !self.switch {
            if self.build_counter < build_len && self.build_counter + 1 < build_len {
                self.build_counter = self.build_counter + 1;
            } else if avoid_len > 0 {
                self.switch = true;
                self.avoid_counter = 0;
            }
        } else if self.avoid_counter < avoid_len && self.avoid_counter + 1 < avoid_len {
            self.avoid_counter = self.avoid_counter + 1;
        }
    }

    pub fn decrement(&mut self, build_len: usize)
        ensures
            *final(self) == old(self).decremented(build_len as nat),
            forall|avoid_len: nat|
                old(self).valid(build_len as nat, avoid_len) ==> final(self).valid(
                    build_len as nat,
                    avoid_len,
                ),
    {
        if self.switch {
            if self.avoid_counter > 0 {
                self.avoid_counter = self.avoid_counter - 1;
            } else if build_len > 0 {
                self.switch = false;
            }
        } else if self.build_counter > 0 {
            self.build_counter = self.build_counter - 1;
        }
    }

    pub fn clamp(&mut self, build_len: usize, avoid_len: usize)
        ensures
            *final(self) == old(self).clamped(build_len as nat, avoid_len as nat),
            final(self).valid(build_len as nat, avoid_len as nat),
    {
        if build_len == 0 {
            self.build_counter = 0;
        } else if self.build_counter >= build_len {
            self.build_counter = build_len - 1;
        }
        if avoid_len == 0 {
            self.avoid_counter = 0;
            self.switch = false;
        } else {
            if self.avoid_counter >= avoid_len {
                self.avoid_counter = avoid_len - 1;
            }
            if build_len == 0 {
                self.switch = true;
            }
        }
    }
}

/// The cursor and the two list lengths after one operation.
pub open spec fn step(state: (Counter, nat, nat), op: SelectionOp) -> (Counter, nat, nat) {
    let (c, b, a) = state;
    match op {
        SelectionOp::Increment => (c.incremented(b, a), b, a),
        SelectionOp::Decrement => (c.decremented(b), b, a),
        SelectionOp::Delete(HabitType::Build) => {
            let nb = if b > 0 { (b - 1) as nat } else { b };
            (c.clamped(nb, a), nb, a)
        },
        SelectionOp::Delete(HabitType::Avoid) => {
            let na = if a > 0 { (a - 1) as nat } else { a };
            (c.clamped(b, na), b, na)
        },
    }
}

/// The cursor and the two list lengths after a sequence of operations.
pub open spec fn run(state: (Counter, nat, nat), ops: Seq<SelectionOp>) -> (Counter, nat, nat)
    decreases ops.len(),
{
    if ops.len() == 0 {
        state
    } else {
        step(run(state, ops.drop_last()), ops.last())
    }
}

pub open spec fn state_valid(state: (Counter, nat, nat)) -> bool {
    state.0.valid(state.1, state.2)
}

proof fn lemma_step_keeps_valid(state: (Counter, nat, nat), op: SelectionOp)
    requires
        state_valid(state),
    ensures
        state_valid(step(state, op)),
{
}

proof fn lemma_run_keeps_valid(state: (Counter, nat, nat), ops: Seq<SelectionOp>)
    requires
        state_valid(state),
    ensures
        state_valid(run(state, ops)),
    decreases ops.len(),
{
    if ops.len() > 0 {
        lemma_run_keeps_valid(state, ops.drop_last());
        lemma_step_keeps_valid(run(state, ops.drop_last()), ops.last());
    }
}

/// Starting from a cursor that fits its lists, any sequence of increments,
/// decrements and deletions leaves the cursor fitting the lists after every
/// step.
pub proof fn lemma_selection_stays_valid(state: (Counter, nat, nat), ops: Seq<SelectionOp>)
    requires
        state_valid(state),
    ensures
        forall|k: int| 0 <= k <= ops.len() ==> #[trigger] state_valid(run(state, ops.take(k))),
{
    assert forall|k: int| 0 <= k <= ops.len() implies #[trigger] state_valid(
        run(state, ops.take(k)),
    ) by {
        lemma_run_keeps_valid(state, ops.take(k));
    }
}

} // verus!
