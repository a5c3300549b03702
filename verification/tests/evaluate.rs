use kanata_switch::evaluate::{
    checked_evaluate_boolean, evaluate_boolean, is_held, is_well_formed,
};
use kanata_switch::opcode::{
    BooleanOperator, OpCode, OpCodeType, OperatorAndEndIndex, MAX_BOOL_EXPR_DEPTH, MAX_OPCODE_LEN,
};

// Key codes of the letters, as a USB keyboard reports them.
const A: u16 = 4;
const B: u16 = 5;
const C: u16 = 6;
const D: u16 = 7;
const E: u16 = 8;
const F: u16 = 9;

#[test]
fn bool_evaluation_test_1() {
    let opcodes = [
        OpCode(0x2009),
        OpCode(A),
        OpCode(B),
        OpCode(0x1006),
        OpCode(C),
        OpCode(D),
        OpCode(0x1009),
        OpCode(E),
        OpCode(F),
    ];
    let keycodes = [A, B, C, D, E, F];
    assert_eq!(
        evaluate_boolean(opcodes.as_slice(), keycodes.as_slice()),
        true
    );
}

#[test]
fn bool_evaluation_test_2() {
    let opcodes = [
        OpCode(0x2009),
        OpCode(A),
        OpCode(B),
        OpCode(0x1006),
        OpCode(C),
        OpCode(D),
        OpCode(0x1009),
        OpCode(E),
        OpCode(F),
    ];
    let keycodes = [A, B, E, F];
    assert_eq!(
        evaluate_boolean(opcodes.as_slice(), keycodes.as_slice()),
        false
    );
}

#[test]
fn bool_evaluation_test_3() {
    let opcodes = [
        OpCode(0x2009),
        OpCode(A),
        OpCode(B),
        OpCode(0x1006),
        OpCode(C),
        OpCode(D),
        OpCode(0x1009),
        OpCode(E),
        OpCode(F),
    ];
    let keycodes = [B, C, D, E, F];
    assert_eq!(
        evaluate_boolean(opcodes.as_slice(), keycodes.as_slice()),
        false
    );
}

#[test]
fn bool_evaluation_test_4() {
    let opcodes: [OpCode; 0] = [];
    let keycodes: [u16; 0] = [];
    assert_eq!(
        evaluate_boolean(opcodes.as_slice(), keycodes.as_slice()),
        true
    );
}

#[test]
fn bool_evaluation_test_5() {
    let opcodes: [OpCode; 0] = [];
    let keycodes = [A, B, C, D, E, F];
    assert_eq!(
        evaluate_boolean(opcodes.as_slice(), keycodes.as_slice()),
        true
    );
}

#[test]
fn bool_evaluation_test_6() {
    let opcodes = [OpCode(A), OpCode(B)];
    let keycodes = [A, B, C, D, E, F];
    assert_eq!(
        evaluate_boolean(opcodes.as_slice(), keycodes.as_slice()),
        true
    );
}

#[test]
fn bool_evaluation_test_7() {
    let opcodes = [OpCode(A), OpCode(B)];
    let keycodes = [C, D, E, F];
    assert_eq!(
        evaluate_boolean(opcodes.as_slice(), keycodes.as_slice()),
        false
    );
}

#[test]
fn bool_evaluation_test_9() {
    let opcodes = [OpCode(0x2003), OpCode(A), OpCode(B), OpCode(C)];
    let keycodes = [C, D, E, F];
    assert_eq!(
        evaluate_boolean(opcodes.as_slice(), keycodes.as_slice()),
        true
    );
}

#[test]
fn bool_evaluation_test_10() {
    let opcodes = [OpCode(0x2004), OpCode(A), OpCode(B), OpCode(C)];
    let keycodes = [C, D, E, F];
    assert_eq!(
        evaluate_boolean(opcodes.as_slice(), keycodes.as_slice()),
        false
    );
}

#[test]
fn bool_evaluation_test_11() {
    let opcodes = [OpCode(0x1003), OpCode(A), OpCode(B)];
    let keycodes = [C, D, E, F];
    assert_eq!(
        evaluate_boolean(opcodes.as_slice(), keycodes.as_slice()),
        false
    );
}

#[test]
fn bool_evaluation_test_12() {
    let opcodes = [
        OpCode(0x1005),
        OpCode(0x2004),
        OpCode(A),
        OpCode(B),
        OpCode(C),
    ];
    let keycodes = [C, D, E, F];
    assert_eq!(
        evaluate_boolean(opcodes.as_slice(), keycodes.as_slice()),
        true
    );
}

#[test]
fn limits_are_those_of_the_encoding() {
    assert_eq!(MAX_OPCODE_LEN, 4095);
    assert_eq!(MAX_BOOL_EXPR_DEPTH, 8);
}

#[test]
fn key_leaf_is_decoded_as_its_key() {
    assert_eq!(OpCode(0).opcode_type(), OpCodeType::KeyCode(0));
    assert_eq!(OpCode(A).opcode_type(), OpCodeType::KeyCode(4));
    assert_eq!(OpCode(0x0FFE).opcode_type(), OpCodeType::KeyCode(0x0FFE));
}

#[test]
fn operator_node_is_decoded_as_operator_and_end_index() {
    assert_eq!(
        OpCode(0x1003).opcode_type(),
        OpCodeType::BooleanOp(OperatorAndEndIndex {
            op: BooleanOperator::Or,
            idx: 3
        })
    );
    assert_eq!(
        OpCode(0x2009).opcode_type(),
        OpCodeType::BooleanOp(OperatorAndEndIndex {
            op: BooleanOperator::And,
            idx: 9
        })
    );
    assert_eq!(
        OpCode(0x1000).opcode_type(),
        OpCodeType::BooleanOp(OperatorAndEndIndex {
            op: BooleanOperator::Or,
            idx: 0
        })
    );
    assert_eq!(
        OpCode(0x2FFF).opcode_type(),
        OpCodeType::BooleanOp(OperatorAndEndIndex {
            op: BooleanOperator::And,
            idx: 4095
        })
    );
    assert_eq!(
        OperatorAndEndIndex::from(0x1FFF),
        OperatorAndEndIndex {
            op: BooleanOperator::Or,
            idx: 4095
        }
    );
}

#[test]
fn opcodes_with_another_tag_are_not_valid() {
    assert!(OpCode(0).check_valid());
    assert!(OpCode(0x0FFE).check_valid());
    assert!(!OpCode(0x0FFF).check_valid());
    assert!(OpCode(0x1000).check_valid());
    assert!(OpCode(0x1FFF).check_valid());
    assert!(OpCode(0x2000).check_valid());
    assert!(OpCode(0x2FFF).check_valid());
    assert!(!OpCode(0x3000).check_valid());
    assert!(!OpCode(0x4001).check_valid());
    assert!(!OpCode(0xF002).check_valid());
    assert!(!OpCode(0xFFFF).check_valid());
}

#[test]
fn held_keys_are_found_wherever_they_stand() {
    assert!(!is_held(&[], A));
    assert!(is_held(&[A], A));
    assert!(is_held(&[B, C, A], A));
    assert!(is_held(&[A, A], A));
    assert!(!is_held(&[B, C, D], A));
}

#[test]
fn evaluation_is_repeatable() {
    let opcodes = [OpCode(0x2005), OpCode(0x1004), OpCode(A), OpCode(B), OpCode(C)];
    let keycodes = [B, C];
    let first = evaluate_boolean(&opcodes, &keycodes);
    let second = evaluate_boolean(&opcodes, &keycodes);
    assert_eq!(first, true);
    assert_eq!(first, second);
    assert_eq!(opcodes[0], OpCode(0x2005));
    assert_eq!(keycodes, [B, C]);
}

#[test]
fn order_and_repetition_of_held_keys_do_not_matter() {
    let opcodes = [OpCode(0x2004), OpCode(A), OpCode(B), OpCode(C)];
    assert_eq!(evaluate_boolean(&opcodes, &[A, B, C]), true);
    assert_eq!(evaluate_boolean(&opcodes, &[C, B, A]), true);
    assert_eq!(evaluate_boolean(&opcodes, &[C, C, A, B, A]), true);
    assert_eq!(evaluate_boolean(&opcodes, &[A, B]), false);
    assert_eq!(evaluate_boolean(&opcodes, &[B, A, A]), false);
}

#[test]
fn empty_expression_is_true() {
    assert!(is_well_formed(&[]));
    assert_eq!(evaluate_boolean(&[], &[]), true);
    assert_eq!(evaluate_boolean(&[], &[A]), true);
    assert_eq!(checked_evaluate_boolean(&[], &[A, B]), Some(true));
}

#[test]
fn and_of_three_keys() {
    let opcodes = [OpCode(0x2004), OpCode(A), OpCode(B), OpCode(C)];
    for mask in 0u16..8 {
        let mut held: Vec<u16> = Vec::new();
        if mask & 1 != 0 {
            held.push(A);
        }
        if mask & 2 != 0 {
            held.push(B);
        }
        if mask & 4 != 0 {
            held.push(C);
        }
        assert_eq!(evaluate_boolean(&opcodes, &held), mask == 7);
    }
}

#[test]
fn or_of_two_keys() {
    let opcodes = [OpCode(0x1003), OpCode(A), OpCode(B)];
    assert_eq!(evaluate_boolean(&opcodes, &[]), false);
    assert_eq!(evaluate_boolean(&opcodes, &[A]), true);
    assert_eq!(evaluate_boolean(&opcodes, &[B]), true);
    assert_eq!(evaluate_boolean(&opcodes, &[A, B]), true);
    assert_eq!(evaluate_boolean(&opcodes, &[C]), false);
}

#[test]
fn and_over_or_and_a_key() {
    let opcodes = [OpCode(0x2005), OpCode(0x1004), OpCode(A), OpCode(B), OpCode(C)];
    for mask in 0u16..8 {
        let a = mask & 1 != 0;
        let b = mask & 2 != 0;
        let c = mask & 4 != 0;
        let mut held: Vec<u16> = Vec::new();
        if a {
            held.push(A);
        }
        if b {
            held.push(B);
        }
        if c {
            held.push(C);
        }
        assert_eq!(evaluate_boolean(&opcodes, &held), (a || b) && c);
    }
}

#[test]
fn scope_that_ends_with_an_inner_scope_decides_the_outer_one() {
    // (C and (A or B)) or D
    let opcodes = [
        OpCode(0x1007),
        OpCode(0x2006),
        OpCode(C),
        OpCode(0x1006),
        OpCode(A),
        OpCode(B),
        OpCode(D),
    ];
    assert!(is_well_formed(&opcodes));
    for mask in 0u16..16 {
        let a = mask & 1 != 0;
        let b = mask & 2 != 0;
        let c = mask & 4 != 0;
        let d = mask & 8 != 0;
        let mut held: Vec<u16> = Vec::new();
        if a {
            held.push(A);
        }
        if b {
            held.push(B);
        }
        if c {
            held.push(C);
        }
        if d {
            held.push(D);
        }
        assert_eq!(evaluate_boolean(&opcodes, &held), (c && (a || b)) || d);
    }
}

#[test]
fn inner_scopes_return_into_the_scope_they_were_entered_from() {
    // (A or (B and (C or D) and E)), then F
    let opcodes = [
        OpCode(0x2009),
        OpCode(0x1009),
        OpCode(A),
        OpCode(0x2009),
        OpCode(B),
        OpCode(0x1008),
        OpCode(C),
        OpCode(D),
        OpCode(E),
        OpCode(F),
    ];
    // Three scopes end at 9, so F is an operand of the implicit OR.
    assert!(is_well_formed(&opcodes));
    for mask in 0u16..64 {
        let held: Vec<u16> = [A, B, C, D, E, F]
            .iter()
            .enumerate()
            .filter(|(i, _)| mask & (1 << i) != 0)
            .map(|(_, k)| *k)
            .collect();
        let h = |k: u16| held.contains(&k);
        let expected = (h(A) || (h(B) && (h(C) || h(D)) && h(E))) || h(F);
        assert_eq!(evaluate_boolean(&opcodes, &held), expected);
    }
}

#[test]
fn operator_without_operands_keeps_the_running_result() {
    assert_eq!(evaluate_boolean(&[OpCode(0x2001)], &[]), true);
    assert_eq!(evaluate_boolean(&[OpCode(0x1001)], &[]), true);
    assert_eq!(evaluate_boolean(&[OpCode(A), OpCode(0x1002)], &[]), false);
    assert_eq!(evaluate_boolean(&[OpCode(A), OpCode(0x2002)], &[]), false);
}

fn nested_ands(depth: u16) -> Vec<OpCode> {
    // AND nodes one inside the other around a single key leaf.
    let mut opcodes: Vec<OpCode> = Vec::new();
    for _ in 0..depth {
        opcodes.push(OpCode(0x2000 + depth + 1));
    }
    opcodes.push(OpCode(A));
    opcodes
}

#[test]
fn eight_nested_operators_are_accepted() {
    let opcodes = nested_ands(8);
    assert!(is_well_formed(&opcodes));
    assert_eq!(evaluate_boolean(&opcodes, &[A]), true);
    assert_eq!(evaluate_boolean(&opcodes, &[B]), false);
    assert_eq!(checked_evaluate_boolean(&opcodes, &[A]), Some(true));
}

#[test]
fn nine_nested_operators_are_refused() {
    let opcodes = nested_ands(9);
    assert!(!is_well_formed(&opcodes));
    assert_eq!(checked_evaluate_boolean(&opcodes, &[A]), None);
}

#[test]
fn many_operators_side_by_side_are_accepted() {
    let mut opcodes: Vec<OpCode> = Vec::new();
    for i in 0..20u16 {
        opcodes.push(OpCode(0x2000 + 2 * i + 2));
        opcodes.push(OpCode(A));
    }
    assert!(is_well_formed(&opcodes));
    assert_eq!(evaluate_boolean(&opcodes, &[B]), false);
    assert_eq!(evaluate_boolean(&opcodes, &[A]), true);
}

#[test]
fn malformed_expressions_are_refused() {
    // A tag that names no operator.
    assert!(!is_well_formed(&[OpCode(0x3002), OpCode(A)]));
    assert!(!is_well_formed(&[OpCode(0x0FFF)]));
    assert!(!is_well_formed(&[OpCode(A), OpCode(0xF000)]));
    // An operand list that ends behind the expression.
    assert!(!is_well_formed(&[OpCode(0x2004), OpCode(A), OpCode(B)]));
    // An operand list that ends at or before its own header.
    assert!(!is_well_formed(&[OpCode(0x1000), OpCode(A)]));
    assert!(!is_well_formed(&[OpCode(A), OpCode(0x1001), OpCode(B)]));
    // An operand list that ends behind the one it stands in.
    assert!(!is_well_formed(&[
        OpCode(0x2003),
        OpCode(0x1004),
        OpCode(A),
        OpCode(B)
    ]));
    assert_eq!(
        checked_evaluate_boolean(&[OpCode(0x3002), OpCode(A)], &[A]),
        None
    );
    assert_eq!(
        checked_evaluate_boolean(&[OpCode(0x2004), OpCode(A), OpCode(B)], &[A, B]),
        None
    );
}

#[test]
fn checked_evaluation_agrees_with_evaluation() {
    let opcodes = [OpCode(0x1005), OpCode(0x2004), OpCode(A), OpCode(B), OpCode(C)];
    assert_eq!(checked_evaluate_boolean(&opcodes, &[C]), Some(true));
    assert_eq!(checked_evaluate_boolean(&opcodes, &[A]), Some(false));
    assert_eq!(checked_evaluate_boolean(&opcodes, &[A, B]), Some(true));
}
