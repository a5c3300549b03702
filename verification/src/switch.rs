//! The switch action: an ordered table of cases, and the pass that yields the
//! actions of the cases that match the held keys.

use crate::evaluate::{evaluate, evaluate_boolean, is_well_formed, well_formed};
use crate::opcode::OpCode;
use vstd::prelude::*;

verus! {

/// Whether or not a case should break out of the switch if it evaluates to true or fallthrough to
/// the next case.
#[derive(Debug, Copy, Clone)]
pub enum BreakOrFallthrough {
    Break,
    Fallthrough,
}

/// One case of a switch: its compiled expression, its action, and what
/// happens after it has matched.
pub type Case<'a, T> = (&'a [OpCode], &'a T, BreakOrFallthrough);

/// Behaviour of a switch action.
pub struct Switch<'a, T: 'a> {
    pub cases: &'a [Case<'a, T>],
}

/// One pass over the cases of a switch, for one snapshot of the held keys.
pub struct SwitchActions<'a, 'k, T> {
    cases: &'a [Case<'a, T>],
    key_codes: &'k [u16],
    case_index: usize,
}

/// Whether the expression of every case is well formed.
pub open spec fn cases_well_formed<T>(cases: Seq<Case<T>>) -> bool {
    forall|i: int| 0 <= i < cases.len() ==> well_formed((#[trigger] cases[i]).0@)
}

/// The index of the first case at or after `from` whose expression holds of
/// `keys`, or the number of cases if there is none.
pub open spec fn first_match<T>(cases: Seq<Case<T>>, keys: Seq<u16>, from: int) -> int
    decreases cases.len() - from,
{
    if !(0 <= from < cases.len()) {
        cases.len() as int
    } else if evaluate(cases[from].0@, keys) {
        from
    } else {
        first_match(cases, keys, from + 1)
    }
}

/// Where a pass stands after it has yielded the action of the case at
/// `index`: at the end of the table after a break, at the next case after a
/// fallthrough.
pub open spec fn position_after<T>(cases: Seq<Case<T>>, index: int) -> int {
    match cases[index].2 {
        BreakOrFallthrough::Break => cases.len() as int,
        BreakOrFallthrough::Fallthrough => index + 1,
    }
}

/// The indices of the cases whose actions a pass that stands at `from` yields
/// until it is exhausted, in the order in which it yields them.
pub open spec fn yielded<T>(cases: Seq<Case<T>>, keys: Seq<u16>, from: int) -> Seq<int>
    decreases cases.len() - from,
{
    if !(0 <= from < cases.len()) {
        Seq::empty()
    } else if !evaluate(cases[from].0@, keys) {
        yielded(cases, keys, from + 1)
    } else {
        match cases[from].2 {
            BreakOrFallthrough::Break => seq![from],
            BreakOrFallthrough::Fallthrough => seq![from] + yielded(cases, keys, from + 1),
        }
    }
}

impl<'a, T> Switch<'a, T> {
    /// Whether the expression of every case is well formed.
    pub open spec fn well_formed(&self) -> bool {
        cases_well_formed(self.cases@)
    }

    /// Says whether the expression of every case is well formed.
    pub fn is_well_formed(&self) -> (ok: bool)
        ensures
            ok == self.well_formed(),
    {
        let mut i: usize = 0;
        while i < self.cases.len()
            invariant
                i <= self.cases.len(),
                forall|j: int| 0 <= j < i ==> well_formed((#[trigger] self.cases@[j]).0@),
            decreases self.cases.len() - i,
        {
            if !is_well_formed(self.cases[i].0) {
                return false;
            }
            i += 1;
        }
        true
    }

    /// Starts a pass over the cases for the held keys `key_codes`.
    pub fn actions<'k>(&self, key_codes: &'k [u16]) -> (pass: SwitchActions<'a, 'k, T>)
        requires
            self.well_formed(),
        ensures
            pass.cases() == self.cases@,
            pass.key_codes() == key_codes@,
            pass.position() == 0,
    {
        SwitchActions { cases: self.cases, key_codes, case_index: 0 }
    }
}

impl<'a, 'k, T> SwitchActions<'a, 'k, T> {
    /// A pass runs over well-formed cases and never stands behind the end of
    /// the table.
    #[verifier::type_invariant]
    spec fn inv(&self) -> bool {
        &&& cases_well_formed(self.cases@)
        &&& self.case_index <= self.cases@.len()
    }

    /// The cases of the switch.
    pub closed spec fn cases(&self) -> Seq<Case<'a, T>> {
        self.cases@
    }

    /// The held keys.
    pub closed spec fn key_codes(&self) -> Seq<u16> {
        self.key_codes@
    }

    /// The index of the case at which the pass goes on.
    pub closed spec fn position(&self) -> int {
        self.case_index as int
    }

    /// The indices of the cases whose actions the pass has yet to yield.
    pub open spec fn remaining(&self) -> Seq<int> {
        yielded(self.cases(), self.key_codes(), self.position())
    }

    /// Yields the action of the next case that matches, if there is one.
    ///
    /// The cases are tried in order from where the pass stands. After a match
    /// with a break no further case is tried, in this call or a later one;
    /// after a match with a fallthrough the next call goes on behind the case
    /// that matched.
    pub fn next(&mut self) -> (action: Option<&'a T>)
        ensures
            final(self).cases() == old(self).cases(),
            final(self).key_codes() == old(self).key_codes(),
            ({
                let cases = old(self).cases();
                let found = first_match(cases, old(self).key_codes(), old(self).position());
                if found < cases.len() {
                    &&& action == Some(cases[found].1)
                    &&& final(self).position() == position_after(cases, found)
                    &&& old(self).remaining() == seq![found] + final(self).remaining()
                } else {
                    &&& action is None
                    &&& final(self).position() == cases.len()
                    &&& old(self).remaining() == Seq::<int>::empty()
                    &&& final(self).remaining() == Seq::<int>::empty()
                }
            }),
    {
        proof {
            use_type_invariant(&*self);
        }
        while self.case_index < self.cases.len()
            invariant
                self.cases == old(self).cases,
                self.key_codes == old(self).key_codes,
                cases_well_formed(self.cases@),
                old(self).case_index <= self.case_index <= self.cases.len(),
                first_match(self.cases@, self.key_codes@, self.case_index as int) == first_match(
                    self.cases@,
                    self.key_codes@,
                    old(self).case_index as int,
                ),
                yielded(self.cases@, self.key_codes@, self.case_index as int) == yielded(
                    self.cases@,
                    self.key_codes@,
                    old(self).case_index as int,
                ),
            decreases self.cases.len() - self.case_index,
        {
            let case = &self.cases[self.case_index];
            if evaluate_boolean(case.0, self.key_codes) {
                let ret_ac = case.1;
                match case.2 {
                    BreakOrFallthrough::Break => {
                        self.case_index = self.cases.len();
                    },
                    BreakOrFallthrough::Fallthrough => {
                        self.case_index += 1;
                    },
                }
                return Some(ret_ac);
            }
            self.case_index += 1;
        }
        None
    }
}

/// Two cases that both match, the first with a fallthrough and the second
/// with a break: the pass yields the first, then the second, and nothing
/// more.
pub proof fn lemma_fallthrough_then_break<T>(cases: Seq<Case<T>>, keys: Seq<u16>)
    requires
        cases.len() == 2,
        evaluate(cases[0].0@, keys),
        evaluate(cases[1].0@, keys),
        cases[0].2 is Fallthrough,
        cases[1].2 is Break,
    ensures
        yielded(cases, keys, 0) == seq![0int, 1int],
{
    reveal_with_fuel(yielded, 3);
    assert(yielded(cases, keys, 1) == seq![1int]);
    assert(seq![0int] + seq![1int] =~= seq![0int, 1int]);
}

/// A first case that matches with a break: the pass yields it and nothing
/// more, whatever cases follow and whether or not they match.
pub proof fn lemma_break_ends_pass<T>(cases: Seq<Case<T>>, keys: Seq<u16>)
    requires
        cases.len() > 0,
        evaluate(cases[0].0@, keys),
        cases[0].2 is Break,
    ensures
        yielded(cases, keys, 0) == seq![0int],
{
}

/// What a pass yields, it yields in the order of the table: every case that
/// it yields lies at or after the place where the pass stands and matches
/// the held keys, the indices ascend, and only the last case yielded can be
/// one with a break.
pub proof fn lemma_yielded_in_table_order<T>(cases: Seq<Case<T>>, keys: Seq<u16>, from: int)
    requires
        0 <= from,
    ensures
        forall|j: int|
            0 <= j < yielded(cases, keys, from).len() ==> {
                let index = #[trigger] yielded(cases, keys, from)[j];
                &&& from <= index < cases.len()
                &&& evaluate(cases[index].0@, keys)
            },
        forall|j: int|
            0 <= j < yielded(cases, keys, from).len() - 1 ==> {
                let index = #[trigger] yielded(cases, keys, from)[j];
                &&& index < yielded(cases, keys, from)[j + 1]
                &&& cases[index].2 is Fallthrough
            },
    decreases cases.len() - from,
{
    if from < cases.len() {
        lemma_yielded_in_table_order(cases, keys, from + 1);
        let rest = yielded(cases, keys, from + 1);
        if evaluate(cases[from].0@, keys) && cases[from].2 is Fallthrough {
            let all = yielded(cases, keys, from);
            assert(all == seq![from] + rest);
            assert forall|j: int| 0 <= j < all.len() implies {
                let index = #[trigger] all[j];
                &&& from <= index < cases.len()
                &&& evaluate(cases[index].0@, keys)
            } by {
                if j > 0 {
                    assert(all[j] == rest[j - 1]);
                }
            }
            assert forall|j: int| 0 <= j < all.len() - 1 implies {
                let index = #[trigger] all[j];
                &&& index < all[j + 1]
                &&& cases[index].2 is Fallthrough
            } by {
                assert(all[j + 1] == rest[j]);
                if j > 0 {
                    assert(all[j] == rest[j - 1]);
                }
            }
        }
    }
}

} // verus!
