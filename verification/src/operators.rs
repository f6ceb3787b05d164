//! Operators on readers.
//!
//! Each operator builds the reader that, when run, runs both operands in the
//! same environment and applies the operation of the engine to what they
//! yield. An operand may be a plain 32-bit integer, which stands for the
//! literal cast to the 32-bit integer type.

use crate::reader::{BinaryOp, Order, Reader, ReaderModel, UnaryOp};
use vstd::prelude::*;

verus! {

/// The sum of what two readers yield.
impl core::ops::Add<Reader> for Reader {
    type Output = Reader;

    fn add(self, rhs: Reader) -> (reader: Reader)
        ensures
            reader@ == (ReaderModel::Binary {
                op: BinaryOp::Plus,
                order: Order::LeftFirst,
                left: Box::new(self@),
                right: Box::new(rhs@),
            }),
    {
        Reader::binary(BinaryOp::Plus, Order::LeftFirst, self, rhs)
    }
}

impl vstd::std_specs::ops::AddSpecImpl<Reader> for Reader {
    open spec fn obeys_add_spec() -> bool {
        true
    }

    open spec fn add_req(self, rhs: Reader) -> bool {
        true
    }

    open spec fn add_spec(self, rhs: Reader) -> Reader {
        Reader::binary_of(BinaryOp::Plus, Order::LeftFirst, self, rhs)
    }
}

/// The sum of what a reader yields and a 32-bit integer.
impl core::ops::Add<i32> for Reader {
    type Output = Reader;

    fn add(self, rhs: i32) -> (reader: Reader)
        ensures
            reader@ == (ReaderModel::Binary {
                op: BinaryOp::Plus,
                order: Order::LeftFirst,
                left: Box::new(self@),
                right: Box::new(ReaderModel::Int32 { value: rhs }),
            }),
    {
        Reader::binary(BinaryOp::Plus, Order::LeftFirst, self, Reader::int32(rhs))
    }
}

impl vstd::std_specs::ops::AddSpecImpl<i32> for Reader {
    open spec fn obeys_add_spec() -> bool {
        true
    }

    open spec fn add_req(self, rhs: i32) -> bool {
        true
    }

    open spec fn add_spec(self, rhs: i32) -> Reader {
        Reader::binary_of(BinaryOp::Plus, Order::LeftFirst, self, Reader::int32_of(rhs))
    }
}

/// The sum of a 32-bit integer and what a reader yields.
impl core::ops::Add<Reader> for i32 {
    type Output = Reader;

    fn add(self, rhs: Reader) -> (reader: Reader)
        ensures
            reader@ == (ReaderModel::Binary {
                op: BinaryOp::Plus,
                order: Order::LeftFirst,
                left: Box::new(ReaderModel::Int32 { value: self }),
                right: Box::new(rhs@),
            }),
    {
        Reader::binary(BinaryOp::Plus, Order::LeftFirst, Reader::int32(self), rhs)
    }
}

impl vstd::std_specs::ops::AddSpecImpl<Reader> for i32 {
    open spec fn obeys_add_spec() -> bool {
        true
    }

    open spec fn add_req(self, rhs: Reader) -> bool {
        true
    }

    open spec fn add_spec(self, rhs: Reader) -> Reader {
        Reader::binary_of(BinaryOp::Plus, Order::LeftFirst, Reader::int32_of(self), rhs)
    }
}

/// The difference of what two readers yield.
impl core::ops::Sub<Reader> for Reader {
    type Output = Reader;

    fn sub(self, rhs: Reader) -> (reader: Reader)
        ensures
            reader@ == (ReaderModel::Binary {
                op: BinaryOp::Minus,
                order: Order::LeftFirst,
                left: Box::new(self@),
                right: Box::new(rhs@),
            }),
    {
        Reader::binary(BinaryOp::Minus, Order::LeftFirst, self, rhs)
    }
}

impl vstd::std_specs::ops::SubSpecImpl<Reader> for Reader {
    open spec fn obeys_sub_spec() -> bool {
        true
    }

    open spec fn sub_req(self, rhs: Reader) -> bool {
        true
    }

    open spec fn sub_spec(self, rhs: Reader) -> Reader {
        Reader::binary_of(BinaryOp::Minus, Order::LeftFirst, self, rhs)
    }
}

/// The difference of what a reader yields and a 32-bit integer.
impl core::ops::Sub<i32> for Reader {
    type Output = Reader;

    fn sub(self, rhs: i32) -> (reader: Reader)
        ensures
            reader@ == (ReaderModel::Binary {
                op: BinaryOp::Minus,
                order: Order::LeftFirst,
                left: Box::new(self@),
                right: Box::new(ReaderModel::Int32 { value: rhs }),
            }),
    {
        Reader::binary(BinaryOp::Minus, Order::LeftFirst, self, Reader::int32(rhs))
    }
}

impl vstd::std_specs::ops::SubSpecImpl<i32> for Reader {
    open spec fn obeys_sub_spec() -> bool {
        true
    }

    open spec fn sub_req(self, rhs: i32) -> bool {
        true
    }

    open spec fn sub_spec(self, rhs: i32) -> Reader {
        Reader::binary_of(BinaryOp::Minus, Order::LeftFirst, self, Reader::int32_of(rhs))
    }
}

/// The difference of a 32-bit integer and what a reader yields.
impl core::ops::Sub<Reader> for i32 {
    type Output = Reader;

    fn sub(self, rhs: Reader) -> (reader: Reader)
        ensures
            reader@ == (ReaderModel::Binary {
                op: BinaryOp::Minus,
                order: Order::LeftFirst,
                left: Box::new(ReaderModel::Int32 { value: self }),
                right: Box::new(rhs@),
            }),
    {
        Reader::binary(BinaryOp::Minus, Order::LeftFirst, Reader::int32(self), rhs)
    }
}

impl vstd::std_specs::ops::SubSpecImpl<Reader> for i32 {
    open spec fn obeys_sub_spec() -> bool {
        true
    }

    open spec fn sub_req(self, rhs: Reader) -> bool {
        true
    }

    open spec fn sub_spec(self, rhs: Reader) -> Reader {
        Reader::binary_of(BinaryOp::Minus, Order::LeftFirst, Reader::int32_of(self), rhs)
    }
}

/// The product of what two readers yield.
impl core::ops::Mul<Reader> for Reader {
    type Output = Reader;

    fn mul(self, rhs: Reader) -> (reader: Reader)
        ensures
            reader@ == (ReaderModel::Binary {
                op: BinaryOp::Times,
                order: Order::LeftFirst,
                left: Box::new(self@),
                right: Box::new(rhs@),
            }),
    {
        Reader::binary(BinaryOp::Times, Order::LeftFirst, self, rhs)
    }
}

impl vstd::std_specs::ops::MulSpecImpl<Reader> for Reader {
    open spec fn obeys_mul_spec() -> bool {
        true
    }

    open spec fn mul_req(self, rhs: Reader) -> bool {
        true
    }

    open spec fn mul_spec(self, rhs: Reader) -> Reader {
        Reader::binary_of(BinaryOp::Times, Order::LeftFirst, self, rhs)
    }
}

/// The product of what a reader yields and a 32-bit integer.
impl core::ops::Mul<i32> for Reader {
    type Output = Reader;

    fn mul(self, rhs: i32) -> (reader: Reader)
        ensures
            reader@ == (ReaderModel::Binary {
                op: BinaryOp::Times,
                order: Order::LeftFirst,
                left: Box::new(self@),
                right: Box::new(ReaderModel::Int32 { value: rhs }),
            }),
    {
        Reader::binary(BinaryOp::Times, Order::LeftFirst, self, Reader::int32(rhs))
    }
}

impl vstd::std_specs::ops::MulSpecImpl<i32> for Reader {
    open spec fn obeys_mul_spec() -> bool {
        true
    }

    open spec fn mul_req(self, rhs: i32) -> bool {
        true
    }

    open spec fn mul_spec(self, rhs: i32) -> Reader {
        Reader::binary_of(BinaryOp::Times, Order::LeftFirst, self, Reader::int32_of(rhs))
    }
}

/// The product of a 32-bit integer and what a reader yields.
impl core::ops::Mul<Reader> for i32 {
    type Output = Reader;

    fn mul(self, rhs: Reader) -> (reader: Reader)
        ensures
            reader@ == (ReaderModel::Binary {
                op: BinaryOp::Times,
                order: Order::LeftFirst,
                left: Box::new(ReaderModel::Int32 { value: self }),
                right: Box::new(rhs@),
            }),
    {
        Reader::binary(BinaryOp::Times, Order::LeftFirst, Reader::int32(self), rhs)
    }
}

impl vstd::std_specs::ops::MulSpecImpl<Reader> for i32 {
    open spec fn obeys_mul_spec() -> bool {
        true
    }

    open spec fn mul_req(self, rhs: Reader) -> bool {
        true
    }

    open spec fn mul_spec(self, rhs: Reader) -> Reader {
        Reader::binary_of(BinaryOp::Times, Order::LeftFirst, Reader::int32_of(self), rhs)
    }
}

/// The quotient of what two readers yield.
impl core::ops::Div<Reader> for Reader {
    type Output = Reader;

    fn div(self, rhs: Reader) -> (reader: Reader)
        ensures
            reader@ == (ReaderModel::Binary {
                op: BinaryOp::Divide,
                order: Order::LeftFirst,
                left: Box::new(self@),
                right: Box::new(rhs@),
            }),
    {
        Reader::binary(BinaryOp::Divide, Order::LeftFirst, self, rhs)
    }
}

impl vstd::std_specs::ops::DivSpecImpl<Reader> for Reader {
    open spec fn obeys_div_spec() -> bool {
        true
    }

    open spec fn div_req(self, rhs: Reader) -> bool {
        true
    }

    open spec fn div_spec(self, rhs: Reader) -> Reader {
        Reader::binary_of(BinaryOp::Divide, Order::LeftFirst, self, rhs)
    }
}

/// The quotient of what a reader yields and a 32-bit integer.
impl core::ops::Div<i32> for Reader {
    type Output = Reader;

    fn div(self, rhs: i32) -> (reader: Reader)
        ensures
            reader@ == (ReaderModel::Binary {
                op: BinaryOp::Divide,
                order: Order::LeftFirst,
                left: Box::new(self@),
                right: Box::new(ReaderModel::Int32 { value: rhs }),
            }),
    {
        Reader::binary(BinaryOp::Divide, Order::LeftFirst, self, Reader::int32(rhs))
    }
}

impl vstd::std_specs::ops::DivSpecImpl<i32> for Reader {
    open spec fn obeys_div_spec() -> bool {
        true
    }

    open spec fn div_req(self, rhs: i32) -> bool {
        true
    }

    open spec fn div_spec(self, rhs: i32) -> Reader {
        Reader::binary_of(BinaryOp::Divide, Order::LeftFirst, self, Reader::int32_of(rhs))
    }
}

/// The quotient of a 32-bit integer and what a reader yields.
impl core::ops::Div<Reader> for i32 {
    type Output = Reader;

    fn div(self, rhs: Reader) -> (reader: Reader)
        ensures
            reader@ == (ReaderModel::Binary {
                op: BinaryOp::Divide,
                order: Order::LeftFirst,
                left: Box::new(ReaderModel::Int32 { value: self }),
                right: Box::new(rhs@),
            }),
    {
        Reader::binary(BinaryOp::Divide, Order::LeftFirst, Reader::int32(self), rhs)
    }
}

impl vstd::std_specs::ops::DivSpecImpl<Reader> for i32 {
    open spec fn obeys_div_spec() -> bool {
        true
    }

    open spec fn div_req(self, rhs: Reader) -> bool {
        true
    }

    open spec fn div_spec(self, rhs: Reader) -> Reader {
        Reader::binary_of(BinaryOp::Divide, Order::LeftFirst, Reader::int32_of(self), rhs)
    }
}

/// The remainder of what two readers yield.
impl core::ops::Rem<Reader> for Reader {
    type Output = Reader;

    fn rem(self, rhs: Reader) -> (reader: Reader)
        ensures
            reader@ == (ReaderModel::Binary {
                op: BinaryOp::Modulo,
                order: Order::LeftFirst,
                left: Box::new(self@),
                right: Box::new(rhs@),
            }),
    {
        Reader::binary(BinaryOp::Modulo, Order::LeftFirst, self, rhs)
    }
}

impl vstd::std_specs::ops::RemSpecImpl<Reader> for Reader {
    open spec fn obeys_rem_spec() -> bool {
        true
    }

    open spec fn rem_req(self, rhs: Reader) -> bool {
        true
    }

    open spec fn rem_spec(self, rhs: Reader) -> Reader {
        Reader::binary_of(BinaryOp::Modulo, Order::LeftFirst, self, rhs)
    }
}

/// The remainder of what a reader yields and a 32-bit integer.
impl core::ops::Rem<i32> for Reader {
    type Output = Reader;

    fn rem(self, rhs: i32) -> (reader: Reader)
        ensures
            reader@ == (ReaderModel::Binary {
                op: BinaryOp::Modulo,
                order: Order::LeftFirst,
                left: Box::new(self@),
                right: Box::new(ReaderModel::Int32 { value: rhs }),
            }),
    {
        Reader::binary(BinaryOp::Modulo, Order::LeftFirst, self, Reader::int32(rhs))
    }
}

impl vstd::std_specs::ops::RemSpecImpl<i32> for Reader {
    open spec fn obeys_rem_spec() -> bool {
        true
    }

    open spec fn rem_req(self, rhs: i32) -> bool {
        true
    }

    open spec fn rem_spec(self, rhs: i32) -> Reader {
        Reader::binary_of(BinaryOp::Modulo, Order::LeftFirst, self, Reader::int32_of(rhs))
    }
}

/// The remainder of a 32-bit integer and what a reader yields.
impl core::ops::Rem<Reader> for i32 {
    type Output = Reader;

    fn rem(self, rhs: Reader) -> (reader: Reader)
        ensures
            reader@ == (ReaderModel::Binary {
                op: BinaryOp::Modulo,
                order: Order::LeftFirst,
                left: Box::new(ReaderModel::Int32 { value: self }),
                right: Box::new(rhs@),
            }),
    {
        Reader::binary(BinaryOp::Modulo, Order::LeftFirst, Reader::int32(self), rhs)
    }
}

impl vstd::std_specs::ops::RemSpecImpl<Reader> for i32 {
    open spec fn obeys_rem_spec() -> bool {
        true
    }

    open spec fn rem_req(self, rhs: Reader) -> bool {
        true
    }

    open spec fn rem_spec(self, rhs: Reader) -> Reader {
        Reader::binary_of(BinaryOp::Modulo, Order::LeftFirst, Reader::int32_of(self), rhs)
    }
}

/// The conjunction of what two readers yield.
impl core::ops::BitAnd<Reader> for Reader {
    type Output = Reader;

    fn bitand(self, rhs: Reader) -> (reader: Reader)
        ensures
            reader@ == (ReaderModel::Binary {
                op: BinaryOp::And,
                order: Order::LeftFirst,
                left: Box::new(self@),
                right: Box::new(rhs@),
            }),
    {
        Reader::binary(BinaryOp::And, Order::LeftFirst, self, rhs)
    }
}

impl vstd::std_specs::ops::BitAndSpecImpl<Reader> for Reader {
    open spec fn obeys_bitand_spec() -> bool {
        true
    }

    open spec fn bitand_req(self, rhs: Reader) -> bool {
        true
    }

    open spec fn bitand_spec(self, rhs: Reader) -> Reader {
        Reader::binary_of(BinaryOp::And, Order::LeftFirst, self, rhs)
    }
}

/// The conjunction of what a reader yields and a 32-bit integer.
impl core::ops::BitAnd<i32> for Reader {
    type Output = Reader;

    fn bitand(self, rhs: i32) -> (reader: Reader)
        ensures
            reader@ == (ReaderModel::Binary {
                op: BinaryOp::And,
                order: Order::LeftFirst,
                left: Box::new(self@),
                right: Box::new(ReaderModel::Int32 { value: rhs }),
            }),
    {
        Reader::binary(BinaryOp::And, Order::LeftFirst, self, Reader::int32(rhs))
    }
}

impl vstd::std_specs::ops::BitAndSpecImpl<i32> for Reader {
    open spec fn obeys_bitand_spec() -> bool {
        true
    }

    open spec fn bitand_req(self, rhs: i32) -> bool {
        true
    }

    open spec fn bitand_spec(self, rhs: i32) -> Reader {
        Reader::binary_of(BinaryOp::And, Order::LeftFirst, self, Reader::int32_of(rhs))
    }
}

/// The conjunction of a 32-bit integer and what a reader yields.
impl core::ops::BitAnd<Reader> for i32 {
    type Output = Reader;

    fn bitand(self, rhs: Reader) -> (reader: Reader)
        ensures
            reader@ == (ReaderModel::Binary {
                op: BinaryOp::And,
                order: Order::LeftFirst,
                left: Box::new(ReaderModel::Int32 { value: self }),
                right: Box::new(rhs@),
            }),
    {
        Reader::binary(BinaryOp::And, Order::LeftFirst, Reader::int32(self), rhs)
    }
}

impl vstd::std_specs::ops::BitAndSpecImpl<Reader> for i32 {
    open spec fn obeys_bitand_spec() -> bool {
        true
    }

    open spec fn bitand_req(self, rhs: Reader) -> bool {
        true
    }

    open spec fn bitand_spec(self, rhs: Reader) -> Reader {
        Reader::binary_of(BinaryOp::And, Order::LeftFirst, Reader::int32_of(self), rhs)
    }
}

/// The disjunction of what two readers yield.
impl core::ops::BitOr<Reader> for Reader {
    type Output = Reader;

    fn bitor(self, rhs: Reader) -> (reader: Reader)
        ensures
            reader@ == (ReaderModel::Binary {
                op: BinaryOp::Or,
                order: Order::LeftFirst,
                left: Box::new(self@),
                right: Box::new(rhs@),
            }),
    {
        Reader::binary(BinaryOp::Or, Order::LeftFirst, self, rhs)
    }
}

impl vstd::std_specs::ops::BitOrSpecImpl<Reader> for Reader {
    open spec fn obeys_bitor_spec() -> bool {
        true
    }

    open spec fn bitor_req(self, rhs: Reader) -> bool {
        true
    }

    open spec fn bitor_spec(self, rhs: Reader) -> Reader {
        Reader::binary_of(BinaryOp::Or, Order::LeftFirst, self, rhs)
    }
}

/// The disjunction of what a reader yields and a 32-bit integer.
impl core::ops::BitOr<i32> for Reader {
    type Output = Reader;

    fn bitor(self, rhs: i32) -> (reader: Reader)
        ensures
            reader@ == (ReaderModel::Binary {
                op: BinaryOp::Or,
                order: Order::LeftFirst,
                left: Box::new(self@),
                right: Box::new(ReaderModel::Int32 { value: rhs }),
            }),
    {
        Reader::binary(BinaryOp::Or, Order::LeftFirst, self, Reader::int32(rhs))
    }
}

impl vstd::std_specs::ops::BitOrSpecImpl<i32> for Reader {
    open spec fn obeys_bitor_spec() -> bool {
        true
    }

    open spec fn bitor_req(self, rhs: i32) -> bool {
        true
    }

    open spec fn bitor_spec(self, rhs: i32) -> Reader {
        Reader::binary_of(BinaryOp::Or, Order::LeftFirst, self, Reader::int32_of(rhs))
    }
}

/// The disjunction of a 32-bit integer and what a reader yields.
impl core::ops::BitOr<Reader> for i32 {
    type Output = Reader;

    fn bitor(self, rhs: Reader) -> (reader: Reader)
        ensures
            reader@ == (ReaderModel::Binary {
                op: BinaryOp::Or,
                order: Order::LeftFirst,
                left: Box::new(ReaderModel::Int32 { value: self }),
                right: Box::new(rhs@),
            }),
    {
        Reader::binary(BinaryOp::Or, Order::LeftFirst, Reader::int32(self), rhs)
    }
}

impl vstd::std_specs::ops::BitOrSpecImpl<Reader> for i32 {
    open spec fn obeys_bitor_spec() -> bool {
        true
    }

    open spec fn bitor_req(self, rhs: Reader) -> bool {
        true
    }

    open spec fn bitor_spec(self, rhs: Reader) -> Reader {
        Reader::binary_of(BinaryOp::Or, Order::LeftFirst, Reader::int32_of(self), rhs)
    }
}

/// The exclusive disjunction of what two readers yield.
impl core::ops::BitXor<Reader> for Reader {
    type Output = Reader;

    fn bitxor(self, rhs: Reader) -> (reader: Reader)
        ensures
            reader@ == (ReaderModel::Binary {
                op: BinaryOp::Xor,
                order: Order::LeftFirst,
                left: Box::new(self@),
                right: Box::new(rhs@),
            }),
    {
        Reader::binary(BinaryOp::Xor, Order::LeftFirst, self, rhs)
    }
}

impl vstd::std_specs::ops::BitXorSpecImpl<Reader> for Reader {
    open spec fn obeys_bitxor_spec() -> bool {
        true
    }

    open spec fn bitxor_req(self, rhs: Reader) -> bool {
        true
    }

    open spec fn bitxor_spec(self, rhs: Reader) -> Reader {
        Reader::binary_of(BinaryOp::Xor, Order::LeftFirst, self, rhs)
    }
}

/// The exclusive disjunction of what a reader yields and a 32-bit integer.
impl core::ops::BitXor<i32> for Reader {
    type Output = Reader;

    fn bitxor(self, rhs: i32) -> (reader: Reader)
        ensures
            reader@ == (ReaderModel::Binary {
                op: BinaryOp::Xor,
                order: Order::LeftFirst,
                left: Box::new(self@),
                right: Box::new(ReaderModel::Int32 { value: rhs }),
            }),
    {
        Reader::binary(BinaryOp::Xor, Order::LeftFirst, self, Reader::int32(rhs))
    }
}

impl vstd::std_specs::ops::BitXorSpecImpl<i32> for Reader {
    open spec fn obeys_bitxor_spec() -> bool {
        true
    }

    open spec fn bitxor_req(self, rhs: i32) -> bool {
        true
    }

    open spec fn bitxor_spec(self, rhs: i32) -> Reader {
        Reader::binary_of(BinaryOp::Xor, Order::LeftFirst, self, Reader::int32_of(rhs))
    }
}

/// The exclusive disjunction of a 32-bit integer and what a reader yields.
impl core::ops::BitXor<Reader> for i32 {
    type Output = Reader;

    fn bitxor(self, rhs: Reader) -> (reader: Reader)
        ensures
            reader@ == (ReaderModel::Binary {
                op: BinaryOp::Xor,
                order: Order::LeftFirst,
                left: Box::new(ReaderModel::Int32 { value: self }),
                right: Box::new(rhs@),
            }),
    {
        Reader::binary(BinaryOp::Xor, Order::LeftFirst, Reader::int32(self), rhs)
    }
}

impl vstd::std_specs::ops::BitXorSpecImpl<Reader> for i32 {
    open spec fn obeys_bitxor_spec() -> bool {
        true
    }

    open spec fn bitxor_req(self, rhs: Reader) -> bool {
        true
    }

    open spec fn bitxor_spec(self, rhs: Reader) -> Reader {
        Reader::binary_of(BinaryOp::Xor, Order::LeftFirst, Reader::int32_of(self), rhs)
    }
}

/// The negation of what a reader yields.
impl core::ops::Neg for Reader {
    type Output = Reader;

    fn neg(self) -> (reader: Reader)
        ensures
            reader@ == (ReaderModel::Unary { op: UnaryOp::Negate, inner: Box::new(self@) }),
    {
        Reader::unary(UnaryOp::Negate, self)
    }
}

impl vstd::std_specs::ops::NegSpecImpl for Reader {
    open spec fn obeys_neg_spec() -> bool {
        true
    }

    open spec fn neg_req(self) -> bool {
        true
    }

    open spec fn neg_spec(self) -> Reader {
        Reader::unary_of(UnaryOp::Negate, self)
    }
}

/// The logical negation of what a reader yields.
impl core::ops::Not for Reader {
    type Output = Reader;

    fn not(self) -> (reader: Reader)
        ensures
            reader@ == (ReaderModel::Unary { op: UnaryOp::Not, inner: Box::new(self@) }),
    {
        Reader::unary(UnaryOp::Not, self)
    }
}

impl vstd::std_specs::ops::NotSpecImpl for Reader {
    open spec fn obeys_not_spec() -> bool {
        true
    }

    open spec fn not_req(self) -> bool {
        true
    }

    open spec fn not_spec(self) -> Reader {
        Reader::unary_of(UnaryOp::Not, self)
    }
}

} // verus!
