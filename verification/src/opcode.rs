//! Opcodes: the instructions of a compiled boolean expression.
//!
//! An opcode is a 16-bit value. A value below `0x0FFF` is a key leaf and
//! stands for "the key with this code is held". Any other value is the header
//! of an operator node: the top four bits select the operator, the low twelve
//! bits hold the index one past the last opcode of its operand list.

use vstd::prelude::*;

verus! {

/// The greatest end index that an opcode can encode, and so the greatest
/// length of a compiled expression.
pub const MAX_OPCODE_LEN: usize = 0x0FFF;

/// The greatest number of operator nodes that may be nested in one another.
pub const MAX_BOOL_EXPR_DEPTH: usize = 8;

/// Operator of an operator node.
#[derive(Debug, Copy, Clone, PartialEq, Eq, Structural)]
pub enum BooleanOperator {
    Or,
    And,
}

/// One instruction of a compiled boolean expression.
#[derive(Debug, Copy, Clone, PartialEq, Eq, PartialOrd, Ord)]
pub struct OpCode(pub u16);

/// Interpretation of an `OpCode`.
#[derive(Debug, Copy, Clone, PartialEq, Eq, Structural)]
pub enum OpCodeType {
    BooleanOp(OperatorAndEndIndex),
    KeyCode(u16),
}

/// Operator of an operator node together with its end index: the index, in
/// the compiled expression, one past the last opcode of the node's operands.
/// The maximum end index is 0x0FFF, or 4095.
#[derive(Debug, Copy, Clone, PartialEq, Eq, Structural)]
pub struct OperatorAndEndIndex {
    pub op: BooleanOperator,
    pub idx: usize,
}

/// The operator tag of a raw opcode value: its top four bits.
pub open spec fn operator_tag(value: u16) -> int {
    value as int / 0x1000
}

/// The end index of a raw opcode value: its low twelve bits.
pub open spec fn end_index(value: u16) -> int {
    value as int % 0x1000
}

/// Whether the top four bits of `value` name an operator: 1 is OR, 2 is AND.
pub open spec fn has_operator_tag(value: u16) -> bool {
    operator_tag(value) == 1 || operator_tag(value) == 2
}

/// What a raw value with an operator tag stands for.
pub open spec fn operator_of(value: u16) -> OperatorAndEndIndex {
    OperatorAndEndIndex {
        op: if operator_tag(value) == 2 {
            BooleanOperator::And
        } else {
            BooleanOperator::Or
        },
        idx: end_index(value) as usize,
    }
}

impl OperatorAndEndIndex {
    /// Splits the raw value of an operator node into operator and end index.
    ///
    /// A value whose top four bits are neither 1 nor 2 names no operator and
    /// is not accepted.
    pub fn from(value: u16) -> (r: Self)
        requires
            has_operator_tag(value),
        ensures
            r == operator_of(value),
            r.idx <= MAX_OPCODE_LEN,
    {
        let tag: u16 = value & 0xF000;
        let low: u16 = value & 0x0FFF;
        assert(tag == 0x2000 <==> value / 0x1000 == 2) by (bit_vector)
            requires
                tag == value & 0xF000,
        ;
        assert(low == value % 0x1000) by (bit_vector)
            requires
                low == value & 0x0FFF,
        ;
        Self {
            op: if tag == 0x2000 {
                BooleanOperator::And
            } else {
                BooleanOperator::Or
            },
            idx: low as usize,
        }
    }
}

impl OpCode {
    /// Whether this opcode is a key leaf.
    pub open spec fn is_key(self) -> bool {
        self.0 < 0x0FFF
    }

    /// Whether this opcode can be decoded: it is a key leaf, or an operator
    /// node whose tag names OR or AND.
    pub open spec fn is_valid(self) -> bool {
        self.is_key() || has_operator_tag(self.0)
    }

    /// The interpretation of a valid opcode.
    pub open spec fn decode(self) -> OpCodeType {
        if self.is_key() {
            OpCodeType::KeyCode(self.0)
        } else {
            OpCodeType::BooleanOp(operator_of(self.0))
        }
    }

    /// Says whether `opcode_type` accepts this opcode.
    pub fn check_valid(self) -> (ok: bool)
        ensures
            ok == self.is_valid(),
    {
        let tag: u16 = self.0 & 0xF000;
        let v: u16 = self.0;
        assert(tag == 0x1000 <==> v / 0x1000 == 1) by (bit_vector)
            requires
                tag == v & 0xF000,
        ;
        assert(tag == 0x2000 <==> v / 0x1000 == 2) by (bit_vector)
            requires
                tag == v & 0xF000,
        ;
        self.0 < 0x0FFF || tag == 0x1000 || tag == 0x2000
    }

    /// Return the interpretation of this `OpCode`.
    pub fn opcode_type(self) -> (r: OpCodeType)
        requires
            self.is_valid(),
        ensures
            r == self.decode(),
    {
        if self.0 < 0x0FFF {
            OpCodeType::KeyCode(self.0)
        } else {
            OpCodeType::BooleanOp(OperatorAndEndIndex::from(self.0))
        }
    }
}

} // verus!
