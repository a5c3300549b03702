//! Evaluation of a compiled boolean expression against the keys that are held.
//!
//! A compiled expression is a tree of OR and AND nodes over key leaves, laid
//! out flat in pre-order. The header of an operator node says where its
//! operand list ends, so the operands of the node at index `i` with end index
//! `e` are the opcodes in `[i + 1, e)`. The whole sequence is the operand list
//! of an implicit OR.

use crate::opcode::{BooleanOperator, OpCode, OpCodeType, OperatorAndEndIndex, MAX_BOOL_EXPR_DEPTH};
use crate::scope_stack::{new_scope_stack, pop_scope, push_scope, scopes, ScopeStack};
use vstd::prelude::*;

verus! {

/// Whether a scope governed by `op` is decided by the running result, so that
/// its remaining operands are skipped: an OR by `true`, an AND by `false`.
pub open spec fn short_circuits(op: BooleanOperator, result: bool) -> bool {
    match op {
        BooleanOperator::Or => result,
        BooleanOperator::And => !result,
    }
}

/// The value of the operands in `[lo, hi)` of a scope governed by `op`, taken
/// in order, where `result` is the running result before the first of them.
///
/// A key leaf is true when its key is among `keys`. An operator node has the
/// value of its own operand list. The operands are taken one after the other
/// until one of them decides the scope; the value of the scope is the value
/// of the operand taken last. A scope without operands leaves the running
/// result as it is.
pub open spec fn eval_operands(
    expr: Seq<OpCode>,
    keys: Seq<u16>,
    op: BooleanOperator,
    lo: int,
    hi: int,
    result: bool,
) -> bool
    decreases hi - lo,
{
    if !(0 <= lo < hi <= expr.len()) {
        result
    } else {
        match expr[lo].decode() {
            OpCodeType::KeyCode(key) => {
                let value = keys.contains(key);
                if short_circuits(op, value) {
                    value
                } else {
                    eval_operands(expr, keys, op, lo + 1, hi, value)
                }
            },
            OpCodeType::BooleanOp(node) => {
                if lo < node.idx <= hi {
                    let value = eval_operands(expr, keys, node.op, lo + 1, node.idx as int, result);
                    if short_circuits(op, value) {
                        value
                    } else {
                        eval_operands(expr, keys, op, node.idx as int, hi, value)
                    }
                } else {
                    result
                }
            },
        }
    }
}

/// The value of a compiled expression: that of an OR over the whole
/// sequence, with a running result that starts as `true`.
pub open spec fn evaluate(expr: Seq<OpCode>, keys: Seq<u16>) -> bool {
    eval_operands(expr, keys, BooleanOperator::Or, 0, expr.len() as int, true)
}

/// Whether `[lo, hi)` is a well-formed operand list that lies inside `depth`
/// operator nodes: every opcode in it can be decoded, the operand list of
/// every operator node ends after its header and inside the list that the
/// node stands in, and no operator node lies inside `MAX_BOOL_EXPR_DEPTH`
/// others.
pub open spec fn well_nested(expr: Seq<OpCode>, lo: int, hi: int, depth: int) -> bool
    decreases hi - lo,
{
    if !(0 <= lo < hi <= expr.len()) {
        0 <= lo == hi <= expr.len()
    } else if !expr[lo].is_valid() {
        false
    } else {
        match expr[lo].decode() {
            OpCodeType::KeyCode(_) => well_nested(expr, lo + 1, hi, depth),
            OpCodeType::BooleanOp(node) => {
                &&& lo < node.idx <= hi
                &&& depth < MAX_BOOL_EXPR_DEPTH
                &&& well_nested(expr, lo + 1, node.idx as int, depth + 1)
                &&& well_nested(expr, node.idx as int, hi, depth)
            },
        }
    }
}

/// Whether `expr` is a well-formed compiled expression: what the evaluator
/// accepts.
pub open spec fn well_formed(expr: Seq<OpCode>) -> bool {
    well_nested(expr, 0, expr.len() as int, 0)
}

/// The result of an evaluation that stands at `idx` in a scope governed by
/// `op` that ends at `end`, with running result `result`, inside the scopes
/// `frames`, innermost last. Each of these goes on where the one inside it
/// ended, unless its value decides it.
spec fn resume(
    expr: Seq<OpCode>,
    keys: Seq<u16>,
    frames: Seq<OperatorAndEndIndex>,
    op: BooleanOperator,
    end: int,
    idx: int,
    result: bool,
) -> bool
    decreases frames.len(),
{
    let value = eval_operands(expr, keys, op, idx, end, result);
    if frames.len() == 0 {
        value
    } else {
        let outer = frames.last();
        let next = if short_circuits(outer.op, value) {
            outer.idx as int
        } else {
            end
        };
        resume(expr, keys, frames.drop_last(), outer.op, outer.idx as int, next, value)
    }
}

/// Whether the scopes `frames`, innermost last, are well nested around a
/// scope that ends at `end`: each is well formed from where the one inside
/// it ends.
spec fn frames_nested(expr: Seq<OpCode>, frames: Seq<OperatorAndEndIndex>, end: int) -> bool
    decreases frames.len(),
{
    frames.len() == 0 || {
        let outer = frames.last();
        &&& end <= outer.idx <= expr.len()
        &&& well_nested(expr, end, outer.idx as int, frames.len() - 1)
        &&& frames_nested(expr, frames.drop_last(), outer.idx as int)
    }
}

/// The result depends on where the current scope stands only through the
/// value that this scope will have.
proof fn lemma_resume_by_value(
    expr: Seq<OpCode>,
    keys: Seq<u16>,
    frames: Seq<OperatorAndEndIndex>,
    op: BooleanOperator,
    end: int,
    idx1: int,
    result1: bool,
    idx2: int,
    result2: bool,
)
    requires
        eval_operands(expr, keys, op, idx1, end, result1) == eval_operands(
            expr,
            keys,
            op,
            idx2,
            end,
            result2,
        ),
    ensures
        resume(expr, keys, frames, op, end, idx1, result1) == resume(
            expr,
            keys,
            frames,
            op,
            end,
            idx2,
            result2,
        ),
{
}

/// At the end of the expression every enclosing scope has ended too, and the
/// running result is the result.
proof fn lemma_resume_at_end(
    expr: Seq<OpCode>,
    keys: Seq<u16>,
    frames: Seq<OperatorAndEndIndex>,
    op: BooleanOperator,
    end: int,
    result: bool,
)
    requires
        end == expr.len(),
        frames_nested(expr, frames, end),
    ensures
        resume(expr, keys, frames, op, end, end, result) == result,
    decreases frames.len(),
{
    if frames.len() > 0 {
        let outer = frames.last();
        lemma_resume_at_end(expr, keys, frames.drop_last(), outer.op, end, result);
    }
}

/// Says whether the running result decides a scope governed by `op`.
fn is_decided(op: BooleanOperator, result: bool) -> (decided: bool)
    ensures
        decided == short_circuits(op, result),
{
    match op {
        BooleanOperator::Or => result,
        BooleanOperator::And => !result,
    }
}

/// Says whether the key `key` is among the held keys.
pub fn is_held(key_codes: &[u16], key: u16) -> (held: bool)
    ensures
        held == key_codes@.contains(key),
{
    let mut i: usize = 0;
    while i < key_codes.len()
        invariant
            i <= key_codes.len(),
            forall|j: int| 0 <= j < i ==> key_codes@[j] != key,
        decreases key_codes.len() - i,
    {
        if key_codes[i] == key {
            return true;
        }
        i += 1;
    }
    false
}

/// Says whether `[lo, hi)` is a well-formed operand list inside `depth`
/// operator nodes.
fn check_operands(bool_expr: &[OpCode], lo: usize, hi: usize, depth: usize) -> (ok: bool)
    requires
        lo <= hi <= bool_expr.len(),
        depth <= MAX_BOOL_EXPR_DEPTH,
    ensures
        ok == well_nested(bool_expr@, lo as int, hi as int, depth as int),
    decreases hi - lo,
{
    let mut i: usize = lo;
    while i < hi
        invariant
            lo <= i <= hi <= bool_expr.len(),
            depth <= MAX_BOOL_EXPR_DEPTH,
            well_nested(bool_expr@, lo as int, hi as int, depth as int) == well_nested(
                bool_expr@,
                i as int,
                hi as int,
                depth as int,
            ),
        decreases hi - i,
    {
        let opcode: OpCode = bool_expr[i];
        if !opcode.check_valid() {
            return false;
        }
        match opcode.opcode_type() {
            OpCodeType::KeyCode(_) => {
                i += 1;
            },
            OpCodeType::BooleanOp(node) => {
                if node.idx <= i || node.idx > hi || depth >= MAX_BOOL_EXPR_DEPTH {
                    return false;
                }
                if !check_operands(bool_expr, i + 1, node.idx, depth + 1) {
                    return false;
                }
                i = node.idx;
            },
        }
    }
    true
}

/// Says whether `evaluate_boolean` accepts the expression.
pub fn is_well_formed(bool_expr: &[OpCode]) -> (ok: bool)
    ensures
        ok == well_formed(bool_expr@),
{
    check_operands(bool_expr, 0, bool_expr.len(), 0)
}

/// Evaluate the return value of an expression evaluated on the given key codes.
///
/// The expression is walked once from left to right, with a stack of at most
/// `MAX_BOOL_EXPR_DEPTH` enclosing scopes. Operands that can no longer change
/// the value of their scope are skipped.
pub fn evaluate_boolean(bool_expr: &[OpCode], key_codes: &[u16]) -> (ret: bool)
    requires
        well_formed(bool_expr@),
    ensures
        ret == evaluate(bool_expr@, key_codes@),
        bool_expr@.len() == 0 ==> ret,
{
    let mut ret: bool = true;
    let mut current_index: usize = 0;
    let mut current_end_index: usize = bool_expr.len();
    let mut current_op: BooleanOperator = BooleanOperator::Or;
    let mut stack: ScopeStack = new_scope_stack();
    while current_index < bool_expr.len()
        invariant
            current_index <= current_end_index <= bool_expr.len(),
            well_nested(
                bool_expr@,
                current_index as int,
                current_end_index as int,
                scopes(stack).len() as int,
            ),
            frames_nested(bool_expr@, scopes(stack), current_end_index as int),
            resume(
                bool_expr@,
                key_codes@,
                scopes(stack),
                current_op,
                current_end_index as int,
                current_index as int,
                ret,
            ) == evaluate(bool_expr@, key_codes@),
        ensures
            current_index >= bool_expr.len() || (scopes(stack).len() == 0 && current_index
                >= current_end_index),
        decreases bool_expr.len() - current_index, scopes(stack).len(),
    {
        let ghost frames = scopes(stack);
        if current_index >= current_end_index {
            match pop_scope(&mut stack) {
                Some(operator) => {
                    current_op = operator.op;
                    current_end_index = operator.idx;
                },
                None => {
                    break ;
                },
            }
            if is_decided(current_op, ret) {
                current_index = current_end_index;
            }
            continue ;
        }
        match bool_expr[current_index].opcode_type() {
            OpCodeType::KeyCode(kc) => {
                ret = is_held(key_codes, kc);
                if is_decided(current_op, ret) {
                    current_index = current_end_index;
                    continue ;
                }
            },
            OpCodeType::BooleanOp(operator) => {
                let enclosing = OperatorAndEndIndex { op: current_op, idx: current_end_index };
                let pushed = push_scope(&mut stack, enclosing);
                assert(pushed);
                proof {
                    let inner = eval_operands(
                        bool_expr@,
                        key_codes@,
                        operator.op,
                        current_index + 1,
                        operator.idx as int,
                        ret,
                    );
                    let next = if short_circuits(enclosing.op, inner) {
                        enclosing.idx as int
                    } else {
                        operator.idx as int
                    };
                    assert(scopes(stack).drop_last() == frames);
                    assert(scopes(stack).last() == enclosing);
                    lemma_resume_by_value(
                        bool_expr@,
                        key_codes@,
                        frames,
                        enclosing.op,
                        enclosing.idx as int,
                        next,
                        inner,
                        current_index as int,
                        ret,
                    );
                }
                current_op = operator.op;
                current_end_index = operator.idx;
            },
        }
        current_index += 1;
    }
    proof {
        if current_index >= bool_expr.len() {
            assert(current_index == current_end_index);
            lemma_resume_at_end(
                bool_expr@,
                key_codes@,
                scopes(stack),
                current_op,
                current_end_index as int,
                ret,
            );
        }
    }
    ret
}

/// Evaluates the expression if it is well formed, and gives `None` if it is
/// not.
pub fn checked_evaluate_boolean(bool_expr: &[OpCode], key_codes: &[u16]) -> (ret: Option<bool>)
    ensures
        ret == if well_formed(bool_expr@) {
            Some(evaluate(bool_expr@, key_codes@))
        } else {
            None
        },
{
    if is_well_formed(bool_expr) {
        Some(evaluate_boolean(bool_expr, key_codes))
    } else {
        None
    }
}

/// The value of an operand list depends on the held keys only through which
/// keys are held.
proof fn lemma_eval_operands_same_held(
    expr: Seq<OpCode>,
    keys1: Seq<u16>,
    keys2: Seq<u16>,
    op: BooleanOperator,
    lo: int,
    hi: int,
    result: bool,
)
    requires
        forall|key: u16| keys1.contains(key) == keys2.contains(key),
    ensures
        eval_operands(expr, keys1, op, lo, hi, result) == eval_operands(
            expr,
            keys2,
            op,
            lo,
            hi,
            result,
        ),
    decreases hi - lo,
{
    if 0 <= lo < hi <= expr.len() {
        match expr[lo].decode() {
            OpCodeType::KeyCode(key) => {
                lemma_eval_operands_same_held(expr, keys1, keys2, op, lo + 1, hi, keys1.contains(key));
            },
            OpCodeType::BooleanOp(node) => {
                if lo < node.idx <= hi {
                    lemma_eval_operands_same_held(
                        expr,
                        keys1,
                        keys2,
                        node.op,
                        lo + 1,
                        node.idx as int,
                        result,
                    );
                    let value = eval_operands(expr, keys1, node.op, lo + 1, node.idx as int, result);
                    lemma_eval_operands_same_held(expr, keys1, keys2, op, node.idx as int, hi, value);
                }
            },
        }
    }
}

/// Evaluation is a function of the expression and of the set of held keys:
/// two snapshots that hold the same keys, in whatever order and however
/// often, give the same value. In particular the same expression and the
/// same snapshot always give the same value.
pub proof fn lemma_value_depends_on_held_keys(expr: Seq<OpCode>, keys1: Seq<u16>, keys2: Seq<u16>)
    requires
        forall|key: u16| keys1.contains(key) == keys2.contains(key),
    ensures
        evaluate(expr, keys1) == evaluate(expr, keys2),
{
    lemma_eval_operands_same_held(
        expr,
        keys1,
        keys2,
        BooleanOperator::Or,
        0,
        expr.len() as int,
        true,
    );
}

/// The empty expression is well formed and true, whatever keys are held.
pub proof fn lemma_empty_expression_is_true(keys: Seq<u16>)
    ensures
        well_formed(Seq::<OpCode>::empty()),
        evaluate(Seq::<OpCode>::empty(), keys),
{
}

/// Whether every opcode in `[lo, hi)` is a key leaf.
pub open spec fn all_key_leaves(expr: Seq<OpCode>, lo: int, hi: int) -> bool {
    forall|i: int| lo <= i < hi ==> (#[trigger] expr[i]).is_key()
}

/// Whether the key of some opcode in `[lo, hi)` is held.
pub open spec fn some_key_held(expr: Seq<OpCode>, keys: Seq<u16>, lo: int, hi: int) -> bool {
    exists|i: int| lo <= i < hi && keys.contains((#[trigger] expr[i]).0)
}

/// Whether the key of every opcode in `[lo, hi)` is held.
pub open spec fn every_key_held(expr: Seq<OpCode>, keys: Seq<u16>, lo: int, hi: int) -> bool {
    forall|i: int| lo <= i < hi ==> keys.contains((#[trigger] expr[i]).0)
}

/// An OR over one or more key leaves is true exactly when one of the keys
/// is held, whatever the running result was before.
pub proof fn lemma_or_of_key_leaves(
    expr: Seq<OpCode>,
    keys: Seq<u16>,
    lo: int,
    hi: int,
    result: bool,
)
    requires
        0 <= lo < hi <= expr.len(),
        all_key_leaves(expr, lo, hi),
    ensures
        eval_operands(expr, keys, BooleanOperator::Or, lo, hi, result) == some_key_held(
            expr,
            keys,
            lo,
            hi,
        ),
    decreases hi - lo,
{
    assert(expr[lo].is_key());
    assert(expr[lo].decode() == OpCodeType::KeyCode(expr[lo].0));
    let held = keys.contains(expr[lo].0);
    if held {
        assert(some_key_held(expr, keys, lo, hi));
    } else if lo + 1 < hi {
        lemma_or_of_key_leaves(expr, keys, lo + 1, hi, held);
        if some_key_held(expr, keys, lo, hi) {
            let i = choose|i: int| lo <= i < hi && keys.contains((#[trigger] expr[i]).0);
            assert(lo + 1 <= i < hi && keys.contains(expr[i].0));
        }
    } else {
        assert(eval_operands(expr, keys, BooleanOperator::Or, lo + 1, hi, held) == held);
    }
}

/// An AND over one or more key leaves is true exactly when all of the keys
/// are held, whatever the running result was before.
pub proof fn lemma_and_of_key_leaves(
    expr: Seq<OpCode>,
    keys: Seq<u16>,
    lo: int,
    hi: int,
    result: bool,
)
    requires
        0 <= lo < hi <= expr.len(),
        all_key_leaves(expr, lo, hi),
    ensures
        eval_operands(expr, keys, BooleanOperator::And, lo, hi, result) == every_key_held(
            expr,
            keys,
            lo,
            hi,
        ),
    decreases hi - lo,
{
    assert(expr[lo].is_key());
    assert(expr[lo].decode() == OpCodeType::KeyCode(expr[lo].0));
    let held = keys.contains(expr[lo].0);
    if !held {
        assert(!every_key_held(expr, keys, lo, hi));
    } else if lo + 1 < hi {
        lemma_and_of_key_leaves(expr, keys, lo + 1, hi, held);
        if every_key_held(expr, keys, lo + 1, hi) {
            assert forall|i: int| lo <= i < hi implies keys.contains((#[trigger] expr[i]).0) by {
                if i > lo {
                    assert(lo + 1 <= i < hi);
                }
            }
        }
    } else {
        assert(eval_operands(expr, keys, BooleanOperator::And, lo + 1, hi, held) == held);
    }
}

/// Key leaves without an operator around them are the operands of the
/// implicit OR: `[a, b]` is true exactly when `a` or `b` is held.
pub proof fn lemma_bare_keys_are_or(a: u16, b: u16, keys: Seq<u16>)
    requires
        a < 0x0FFF,
        b < 0x0FFF,
    ensures
        well_formed(seq![OpCode(a), OpCode(b)]),
        evaluate(seq![OpCode(a), OpCode(b)], keys) == (keys.contains(a) || keys.contains(b)),
{
    let expr = seq![OpCode(a), OpCode(b)];
    reveal_with_fuel(well_nested, 3);
    reveal_with_fuel(eval_operands, 3);
    assert(expr[0].decode() == OpCodeType::KeyCode(a));
    assert(expr[1].decode() == OpCodeType::KeyCode(b));
}

/// An OR node over two key leaves, `[OR.3, a, b]`, is true exactly when `a`
/// or `b` is held.
pub proof fn lemma_or_of_two_keys(a: u16, b: u16, keys: Seq<u16>)
    requires
        a < 0x0FFF,
        b < 0x0FFF,
    ensures
        well_formed(seq![OpCode(0x1003), OpCode(a), OpCode(b)]),
        evaluate(seq![OpCode(0x1003), OpCode(a), OpCode(b)], keys) == (keys.contains(a)
            || keys.contains(b)),
{
    let expr = seq![OpCode(0x1003), OpCode(a), OpCode(b)];
    reveal_with_fuel(well_nested, 4);
    reveal_with_fuel(eval_operands, 4);
    assert(expr[0].decode() == OpCodeType::BooleanOp(
        OperatorAndEndIndex { op: BooleanOperator::Or, idx: 3 },
    ));
    assert(expr[1].decode() == OpCodeType::KeyCode(a));
    assert(expr[2].decode() == OpCodeType::KeyCode(b));
}

/// An AND node over three key leaves, `[AND.4, a, b, c]`, is true exactly
/// when `a`, `b` and `c` are all held.
pub proof fn lemma_and_of_three_keys(a: u16, b: u16, c: u16, keys: Seq<u16>)
    requires
        a < 0x0FFF,
        b < 0x0FFF,
        c < 0x0FFF,
    ensures
        well_formed(seq![OpCode(0x2004), OpCode(a), OpCode(b), OpCode(c)]),
        evaluate(seq![OpCode(0x2004), OpCode(a), OpCode(b), OpCode(c)], keys) == (keys.contains(a)
            && keys.contains(b) && keys.contains(c)),
{
    let expr = seq![OpCode(0x2004), OpCode(a), OpCode(b), OpCode(c)];
    reveal_with_fuel(well_nested, 5);
    reveal_with_fuel(eval_operands, 5);
    assert(expr[0].decode() == OpCodeType::BooleanOp(
        OperatorAndEndIndex { op: BooleanOperator::And, idx: 4 },
    ));
    assert(expr[1].decode() == OpCodeType::KeyCode(a));
    assert(expr[2].decode() == OpCodeType::KeyCode(b));
    assert(expr[3].decode() == OpCodeType::KeyCode(c));
}

/// An OR node inside an AND node, `[AND.5, OR.4, a, b, c]`, is true exactly
/// when `a` or `b` is held and `c` is held too: skipping the rest of the
/// inner scope does not skip what follows it in the outer one.
pub proof fn lemma_and_over_or(a: u16, b: u16, c: u16, keys: Seq<u16>)
    requires
        a < 0x0FFF,
        b < 0x0FFF,
        c < 0x0FFF,
    ensures
        well_formed(seq![OpCode(0x2005), OpCode(0x1004), OpCode(a), OpCode(b), OpCode(c)]),
        evaluate(seq![OpCode(0x2005), OpCode(0x1004), OpCode(a), OpCode(b), OpCode(c)], keys) == ((
        keys.contains(a) || keys.contains(b)) && keys.contains(c)),
{
    let expr = seq![OpCode(0x2005), OpCode(0x1004), OpCode(a), OpCode(b), OpCode(c)];
    reveal_with_fuel(well_nested, 6);
    reveal_with_fuel(eval_operands, 6);
    assert(expr[0].decode() == OpCodeType::BooleanOp(
        OperatorAndEndIndex { op: BooleanOperator::And, idx: 5 },
    ));
    assert(expr[1].decode() == OpCodeType::BooleanOp(
        OperatorAndEndIndex { op: BooleanOperator::Or, idx: 4 },
    ));
    assert(expr[2].decode() == OpCodeType::KeyCode(a));
    assert(expr[3].decode() == OpCodeType::KeyCode(b));
    assert(expr[4].decode() == OpCodeType::KeyCode(c));
}

} // verus!
