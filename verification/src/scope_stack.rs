//! The stack of enclosing scopes that the evaluator keeps while it walks a
//! compiled expression: a fixed-capacity ring buffer that lives on the
//! machine stack, so that evaluation never allocates.
//!
//! The buffer is `arraydeque::ArrayDeque`. Verus does not look inside it; the
//! functions below state what its methods do to the items it holds.

use crate::opcode::{OperatorAndEndIndex, MAX_BOOL_EXPR_DEPTH};
use arraydeque::behavior::Saturating;
use arraydeque::ArrayDeque;
use vstd::prelude::*;

verus! {

/// The enclosing scopes of the evaluator, innermost last: an
/// `arraydeque::ArrayDeque` over an array of 8 items that refuses a push when
/// it is full.
#[verifier::external_body]
pub struct ScopeStack {
    deque: ArrayDeque<[OperatorAndEndIndex; MAX_BOOL_EXPR_DEPTH], Saturating>,
}

/// The items that a scope stack holds, from front to back.
pub uninterp spec fn scopes(stack: ScopeStack) -> Seq<OperatorAndEndIndex>;

/// `ArrayDeque::default`, which is `ArrayDeque::new`: a buffer that holds
/// nothing.
#[verifier::external_body]
pub(crate) fn new_scope_stack() -> (stack: ScopeStack)
    ensures
        scopes(stack) == Seq::<OperatorAndEndIndex>::empty(),
{
    ScopeStack { deque: Default::default() }
}

/// `ArrayDeque::push_back` of a saturating buffer. With fewer items than the
/// capacity, which for an array of 8 is 8, the item becomes the last one and
/// the call reports success; a full buffer is left as it was and the call
/// reports failure.
#[verifier::external_body]
pub(crate) fn push_scope(stack: &mut ScopeStack, scope: OperatorAndEndIndex) -> (pushed: bool)
    ensures
        pushed == (scopes(*old(stack)).len() < MAX_BOOL_EXPR_DEPTH),
        pushed ==> scopes(*final(stack)) == scopes(*old(stack)).push(scope),
        !pushed ==> scopes(*final(stack)) == scopes(*old(stack)),
{
    match stack.deque.push_back(scope) {
        Ok(()) => true,
        Err(_) => false,
    }
}

/// `ArrayDeque::pop_back`. An empty buffer gives `None` and stays empty;
/// otherwise the last item is taken out and returned.
#[verifier::external_body]
pub(crate) fn pop_scope(stack: &mut ScopeStack) -> (top: Option<OperatorAndEndIndex>)
    ensures
        match top {
            Some(scope) => scopes(*old(stack)).len() > 0 && scope == scopes(*old(stack)).last()
                && scopes(*final(stack)) == scopes(*old(stack)).drop_last(),
            None => scopes(*old(stack)).len() == 0 && scopes(*final(stack)) == scopes(
                *old(stack),
            ),
        },
{
    stack.deque.pop_back()
}

} // verus!
