//! The classification policy: which operations are instrumented, under
//! which kind, and with which properties.
//!
//! Operations dominated by floating-point arithmetic, float conversions or
//! pure bit reinterpretation are excluded as uniform cost: a fixed table
//! keyed by the tag alone. Every other tag maps to a stable kind string,
//! independent of operand values; only the control transfers that carry a
//! keep count (branch, conditional branch, return) contribute a property,
//! the keep count in decimal.

use vstd::prelude::*;

use crate::isa::Instruction;
use crate::numfmt::spec_decimal;
use crate::numfmt::decimal_string;

verus! {

/// The fixed exclusion table: operations whose cost is taken as uniform and
/// uninteresting, never instrumented.
pub open spec fn is_denied(i: Instruction) -> bool {
    match i {
        Instruction::F32Load |
        Instruction::F64Load |
        Instruction::F32Store |
        Instruction::F64Store |
        Instruction::F32Const |
        Instruction::F64Const |
        Instruction::F32Eq |
        Instruction::F32Ne |
        Instruction::F32Lt |
        Instruction::F32Gt |
        Instruction::F32Le |
        Instruction::F32Ge |
        Instruction::F64Eq |
        Instruction::F64Ne |
        Instruction::F64Lt |
        Instruction::F64Gt |
        Instruction::F64Le |
        Instruction::F64Ge |
        Instruction::F32Abs |
        Instruction::F32Neg |
        Instruction::F32Ceil |
        Instruction::F32Floor |
        Instruction::F32Trunc |
        Instruction::F32Nearest |
        Instruction::F32Sqrt |
        Instruction::F32Add |
        Instruction::F32Sub |
        Instruction::F32Mul |
        Instruction::F32Div |
        Instruction::F32Min |
        Instruction::F32Max |
        Instruction::F32Copysign |
        Instruction::F64Abs |
        Instruction::F64Neg |
        Instruction::F64Ceil |
        Instruction::F64Floor |
        Instruction::F64Trunc |
        Instruction::F64Nearest |
        Instruction::F64Sqrt |
        Instruction::F64Add |
        Instruction::F64Sub |
        Instruction::F64Mul |
        Instruction::F64Div |
        Instruction::F64Min |
        Instruction::F64Max |
        Instruction::F64Copysign |
        Instruction::I32TruncSF32 |
        Instruction::I32TruncUF32 |
        Instruction::I32TruncSF64 |
        Instruction::I32TruncUF64 |
        Instruction::I64TruncSF32 |
        Instruction::I64TruncUF32 |
        Instruction::I64TruncSF64 |
        Instruction::I64TruncUF64 |
        Instruction::F32ConvertSI32 |
        Instruction::F32ConvertUI32 |
        Instruction::F32ConvertSI64 |
        Instruction::F32ConvertUI64 |
        Instruction::F32DemoteF64 |
        Instruction::F64ConvertSI32 |
        Instruction::F64ConvertUI32 |
        Instruction::F64ConvertSI64 |
        Instruction::F64ConvertUI64 |
        Instruction::F64PromoteF32 |
        Instruction::I32ReinterpretF32 |
        Instruction::I64ReinterpretF64 |
        Instruction::F32ReinterpretI32 |
        Instruction::F64ReinterpretI64 => true,
        _ => false,
    }
}

/// The stable kind string of a tag: a total mapping, the same for every
/// operand value of the tag.
pub open spec fn kind_name(i: Instruction) -> Seq<char> {
    match i {
        Instruction::Unreachable => "Unreachable"@,
        Instruction::GetLocal => "GetLocal"@,
        Instruction::SetLocal => "SetLocal"@,
        Instruction::TeeLocal => "TeeLocal"@,
        Instruction::Br(..) => "Br"@,
        Instruction::BrIfEqz(..) => "BrIfEqz"@,
        Instruction::BrIfNez(..) => "BrIfNez"@,
        Instruction::BrTable => "BrTable"@,
        Instruction::Return(..) => "Return"@,
        Instruction::Call => "Call"@,
        Instruction::CallIndirect => "CallIndirect"@,
        Instruction::Drop => "Drop"@,
        Instruction::Select => "Select"@,
        Instruction::GetGlobal => "GetGlobal"@,
        Instruction::SetGlobal => "SetGlobal"@,
        Instruction::I32Load => "I32Load"@,
        Instruction::I64Load => "I64Load"@,
        Instruction::F32Load => "F32Load"@,
        Instruction::F64Load => "F64Load"@,
        Instruction::I32Load8S => "I32Load8S"@,
        Instruction::I32Load8U => "I32Load8U"@,
        Instruction::I32Load16S => "I32Load16S"@,
        Instruction::I32Load16U => "I32Load16U"@,
        Instruction::I64Load8S => "I64Load8S"@,
        Instruction::I64Load8U => "I64Load8U"@,
        Instruction::I64Load16S => "I64Load16S"@,
        Instruction::I64Load16U => "I64Load16U"@,
        Instruction::I64Load32S => "I64Load32S"@,
        Instruction::I64Load32U => "I64Load32U"@,
        Instruction::I32Store => "I32Store"@,
        Instruction::I64Store => "I64Store"@,
        Instruction::F32Store => "F32Store"@,
        Instruction::F64Store => "F64Store"@,
        Instruction::I32Store8 => "I32Store8"@,
        Instruction::I32Store16 => "I32Store16"@,
        Instruction::I64Store8 => "I64Store8"@,
        Instruction::I64Store16 => "I64Store16"@,
        Instruction::I64Store32 => "I64Store32"@,
        Instruction::CurrentMemory => "CurrentMemory"@,
        Instruction::GrowMemory => "GrowMemory"@,
        Instruction::I32Const => "I32Const"@,
        Instruction::I64Const => "I64Const"@,
        Instruction::F32Const => "F32Const"@,
        Instruction::F64Const => "F64Const"@,
        Instruction::I32Eqz => "I32Eqz"@,
        Instruction::I32Eq => "I32Eq"@,
        Instruction::I32Ne => "I32Ne"@,
        Instruction::I32LtS => "I32LtS"@,
        Instruction::I32LtU => "I32LtU"@,
        Instruction::I32GtS => "I32GtS"@,
        Instruction::I32GtU => "I32GtU"@,
        Instruction::I32LeS => "I32LeS"@,
        Instruction::I32LeU => "I32LeU"@,
        Instruction::I32GeS => "I32GeS"@,
        Instruction::I32GeU => "I32GeU"@,
        Instruction::I64Eqz => "I64Eqz"@,
        Instruction::I64Eq => "I64Eq"@,
        Instruction::I64Ne => "I64Ne"@,
        Instruction::I64LtS => "I64LtS"@,
        Instruction::I64LtU => "I64LtU"@,
        Instruction::I64GtS => "I64GtS"@,
        Instruction::I64GtU => "I64GtU"@,
        Instruction::I64LeS => "I64LeS"@,
        Instruction::I64LeU => "I64LeU"@,
        Instruction::I64GeS => "I64GeS"@,
        Instruction::I64GeU => "I64GeU"@,
        Instruction::F32Eq => "F32Eq"@,
        Instruction::F32Ne => "F32Ne"@,
        Instruction::F32Lt => "F32Lt"@,
        Instruction::F32Gt => "F32Gt"@,
        Instruction::F32Le => "F32Le"@,
        Instruction::F32Ge => "F32Ge"@,
        Instruction::F64Eq => "F64Eq"@,
        Instruction::F64Ne => "F64Ne"@,
        Instruction::F64Lt => "F64Lt"@,
        Instruction::F64Gt => "F64Gt"@,
        Instruction::F64Le => "F64Le"@,
        Instruction::F64Ge => "F64Ge"@,
        Instruction::I32Clz => "I32Clz"@,
        Instruction::I32Ctz => "I32Ctz"@,
        Instruction::I32Popcnt => "I32Popcnt"@,
        Instruction::I32Add => "I32Add"@,
        Instruction::I32Sub => "I32Sub"@,
        Instruction::I32Mul => "I32Mul"@,
        Instruction::I32DivS => "I32DivS"@,
        Instruction::I32DivU => "I32DivU"@,
        Instruction::I32RemS => "I32RemS"@,
        Instruction::I32RemU => "I32RemU"@,
        Instruction::I32And => "I32And"@,
        Instruction::I32Or => "I32Or"@,
        Instruction::I32Xor => "I32Xor"@,
        Instruction::I32Shl => "I32Shl"@,
        Instruction::I32ShrS => "I32ShrS"@,
        Instruction::I32ShrU => "I32ShrU"@,
        Instruction::I32Rotl => "I32Rotl"@,
        Instruction::I32Rotr => "I32Rotr"@,
        Instruction::I64Clz => "I64Clz"@,
        Instruction::I64Ctz => "I64Ctz"@,
        Instruction::I64Popcnt => "I64Popcnt"@,
        Instruction::I64Add => "I64Add"@,
        Instruction::I64Sub => "I64Sub"@,
        Instruction::I64Mul => "I64Mul"@,
        Instruction::I64DivS => "I64DivS"@,
        Instruction::I64DivU => "I64DivU"@,
        Instruction::I64RemS => "I64RemS"@,
        Instruction::I64RemU => "I64RemU"@,
        Instruction::I64And => "I64And"@,
        Instruction::I64Or => "I64Or"@,
        Instruction::I64Xor => "I64Xor"@,
        Instruction::I64Shl => "I64Shl"@,
        Instruction::I64ShrS => "I64ShrS"@,
        Instruction::I64ShrU => "I64ShrU"@,
        Instruction::I64Rotl => "I64Rotl"@,
        Instruction::I64Rotr => "I64Rotr"@,
        Instruction::F32Abs => "F32Abs"@,
        Instruction::F32Neg => "F32Neg"@,
        Instruction::F32Ceil => "F32Ceil"@,
        Instruction::F32Floor => "F32Floor"@,
        Instruction::F32Trunc => "F32Trunc"@,
        Instruction::F32Nearest => "F32Nearest"@,
        Instruction::F32Sqrt => "F32Sqrt"@,
        Instruction::F32Add => "F32Add"@,
        Instruction::F32Sub => "F32Sub"@,
        Instruction::F32Mul => "F32Mul"@,
        Instruction::F32Div => "F32Div"@,
        Instruction::F32Min => "F32Min"@,
        Instruction::F32Max => "F32Max"@,
        Instruction::F32Copysign => "F32Copysign"@,
        Instruction::F64Abs => "F64Abs"@,
        Instruction::F64Neg => "F64Neg"@,
        Instruction::F64Ceil => "F64Ceil"@,
        Instruction::F64Floor => "F64Floor"@,
        Instruction::F64Trunc => "F64Trunc"@,
        Instruction::F64Nearest => "F64Nearest"@,
        Instruction::F64Sqrt => "F64Sqrt"@,
        Instruction::F64Add => "F64Add"@,
        Instruction::F64Sub => "F64Sub"@,
        Instruction::F64Mul => "F64Mul"@,
        Instruction::F64Div => "F64Div"@,
        Instruction::F64Min => "F64Min"@,
        Instruction::F64Max => "F64Max"@,
        Instruction::F64Copysign => "F64Copysign"@,
        Instruction::I32WrapI64 => "I32WrapI64"@,
        Instruction::I32TruncSF32 => "I32TruncSF32"@,
        Instruction::I32TruncUF32 => "I32TruncUF32"@,
        Instruction::I32TruncSF64 => "I32TruncSF64"@,
        Instruction::I32TruncUF64 => "I32TruncUF64"@,
        Instruction::I64ExtendSI32 => "I64ExtendSI32"@,
        Instruction::I64ExtendUI32 => "I64ExtendUI32"@,
        Instruction::I64TruncSF32 => "I64TruncSF32"@,
        Instruction::I64TruncUF32 => "I64TruncUF32"@,
        Instruction::I64TruncSF64 => "I64TruncSF64"@,
        Instruction::I64TruncUF64 => "I64TruncUF64"@,
        Instruction::F32ConvertSI32 => "F32ConvertSI32"@,
        Instruction::F32ConvertUI32 => "F32ConvertUI32"@,
        Instruction::F32ConvertSI64 => "F32ConvertSI64"@,
        Instruction::F32ConvertUI64 => "F32ConvertUI64"@,
        Instruction::F32DemoteF64 => "F32DemoteF64"@,
        Instruction::F64ConvertSI32 => "F64ConvertSI32"@,
        Instruction::F64ConvertUI32 => "F64ConvertUI32"@,
        Instruction::F64ConvertSI64 => "F64ConvertSI64"@,
        Instruction::F64ConvertUI64 => "F64ConvertUI64"@,
        Instruction::F64PromoteF32 => "F64PromoteF32"@,
        Instruction::I32ReinterpretF32 => "I32ReinterpretF32"@,
        Instruction::I64ReinterpretF64 => "I64ReinterpretF64"@,
        Instruction::F32ReinterpretI32 => "F32ReinterpretI32"@,
        Instruction::F64ReinterpretI64 => "F64ReinterpretI64"@,
    }
}

/// The properties recorded with a sample: the keep count for the control
/// transfers that carry one, nothing for every other kind.
pub open spec fn keep_props(i: Instruction) -> Seq<Seq<char>> {
    match i {
        Instruction::Br(t) => seq![spec_decimal(t.drop_keep.keep as nat)],
        Instruction::BrIfEqz(t) => seq![spec_decimal(t.drop_keep.keep as nat)],
        Instruction::BrIfNez(t) => seq![spec_decimal(t.drop_keep.keep as nat)],
        Instruction::Return(dk) => seq![spec_decimal(dk.keep as nat)],
        _ => seq![],
    }
}

/// Whether the exclusion table denies `i`.
pub fn denied(i: &Instruction) -> (r: bool)
    ensures
        r == is_denied(*i),
{
    match i {
        | Instruction::F32Load
        | Instruction::F64Load
        | Instruction::F32Store
        | Instruction::F64Store
        | Instruction::F32Const
        | Instruction::F64Const
        | Instruction::F32Eq
        | Instruction::F32Ne
        | Instruction::F32Lt
        | Instruction::F32Gt
        | Instruction::F32Le
        | Instruction::F32Ge
        | Instruction::F64Eq
        | Instruction::F64Ne
        | Instruction::F64Lt
        | Instruction::F64Gt
        | Instruction::F64Le
        | Instruction::F64Ge
        | Instruction::F32Abs
        | Instruction::F32Neg
        | Instruction::F32Ceil
        | Instruction::F32Floor
        | Instruction::F32Trunc
        | Instruction::F32Nearest
        | Instruction::F32Sqrt
        | Instruction::F32Add
        | Instruction::F32Sub
        | Instruction::F32Mul
        | Instruction::F32Div
        | Instruction::F32Min
        | Instruction::F32Max
        | Instruction::F32Copysign
        | Instruction::F64Abs
        | Instruction::F64Neg
        | Instruction::F64Ceil
        | Instruction::F64Floor
        | Instruction::F64Trunc
        | Instruction::F64Nearest
        | Instruction::F64Sqrt
        | Instruction::F64Add
        | Instruction::F64Sub
        | Instruction::F64Mul
        | Instruction::F64Div
        | Instruction::F64Min
        | Instruction::F64Max
        | Instruction::F64Copysign
        | Instruction::I32TruncSF32
        | Instruction::I32TruncUF32
        | Instruction::I32TruncSF64
        | Instruction::I32TruncUF64
        | Instruction::I64TruncSF32
        | Instruction::I64TruncUF32
        | Instruction::I64TruncSF64
        | Instruction::I64TruncUF64
        | Instruction::F32ConvertSI32
        | Instruction::F32ConvertUI32
        | Instruction::F32ConvertSI64
        | Instruction::F32ConvertUI64
        | Instruction::F32DemoteF64
        | Instruction::F64ConvertSI32
        | Instruction::F64ConvertUI32
        | Instruction::F64ConvertSI64
        | Instruction::F64ConvertUI64
        | Instruction::F64PromoteF32
        | Instruction::I32ReinterpretF32
        | Instruction::I64ReinterpretF64
        | Instruction::F32ReinterpretI32
        | Instruction::F64ReinterpretI64 => true,
        _ => false,
    }
}

/// The kind string of a tag.
#[verifier::rlimit(60)]
pub fn kind_str(i: &Instruction) -> (r: &'static str)
    ensures
        r@ == kind_name(*i),
{
    match i {
        Instruction::Unreachable => "Unreachable",
        Instruction::GetLocal => "GetLocal",
        Instruction::SetLocal => "SetLocal",
        Instruction::TeeLocal => "TeeLocal",
        Instruction::Br(..) => "Br",
        Instruction::BrIfEqz(..) => "BrIfEqz",
        Instruction::BrIfNez(..) => "BrIfNez",
        Instruction::BrTable => "BrTable",
        Instruction::Return(..) => "Return",
        Instruction::Call => "Call",
        Instruction::CallIndirect => "CallIndirect",
        Instruction::Drop => "Drop",
        Instruction::Select => "Select",
        Instruction::GetGlobal => "GetGlobal",
        Instruction::SetGlobal => "SetGlobal",
        Instruction::I32Load => "I32Load",
        Instruction::I64Load => "I64Load",
        Instruction::F32Load => "F32Load",
        Instruction::F64Load => "F64Load",
        Instruction::I32Load8S => "I32Load8S",
        Instruction::I32Load8U => "I32Load8U",
        Instruction::I32Load16S => "I32Load16S",
        Instruction::I32Load16U => "I32Load16U",
        Instruction::I64Load8S => "I64Load8S",
        Instruction::I64Load8U => "I64Load8U",
        Instruction::I64Load16S => "I64Load16S",
        Instruction::I64Load16U => "I64Load16U",
        Instruction::I64Load32S => "I64Load32S",
        Instruction::I64Load32U => "I64Load32U",
        Instruction::I32Store => "I32Store",
        Instruction::I64Store => "I64Store",
        Instruction::F32Store => "F32Store",
        Instruction::F64Store => "F64Store",
        Instruction::I32Store8 => "I32Store8",
        Instruction::I32Store16 => "I32Store16",
        Instruction::I64Store8 => "I64Store8",
        Instruction::I64Store16 => "I64Store16",
        Instruction::I64Store32 => "I64Store32",
        Instruction::CurrentMemory => "CurrentMemory",
        Instruction::GrowMemory => "GrowMemory",
        Instruction::I32Const => "I32Const",
        Instruction::I64Const => "I64Const",
        Instruction::F32Const => "F32Const",
        Instruction::F64Const => "F64Const",
        Instruction::I32Eqz => "I32Eqz",
        Instruction::I32Eq => "I32Eq",
        Instruction::I32Ne => "I32Ne",
        Instruction::I32LtS => "I32LtS",
        Instruction::I32LtU => "I32LtU",
        Instruction::I32GtS => "I32GtS",
        Instruction::I32GtU => "I32GtU",
        Instruction::I32LeS => "I32LeS",
        Instruction::I32LeU => "I32LeU",
        Instruction::I32GeS => "I32GeS",
        Instruction::I32GeU => "I32GeU",
        Instruction::I64Eqz => "I64Eqz",
        Instruction::I64Eq => "I64Eq",
        Instruction::I64Ne => "I64Ne",
        Instruction::I64LtS => "I64LtS",
        Instruction::I64LtU => "I64LtU",
        Instruction::I64GtS => "I64GtS",
        Instruction::I64GtU => "I64GtU",
        Instruction::I64LeS => "I64LeS",
        Instruction::I64LeU => "I64LeU",
        Instruction::I64GeS => "I64GeS",
        Instruction::I64GeU => "I64GeU",
        Instruction::F32Eq => "F32Eq",
        Instruction::F32Ne => "F32Ne",
        Instruction::F32Lt => "F32Lt",
        Instruction::F32Gt => "F32Gt",
        Instruction::F32Le => "F32Le",
        Instruction::F32Ge => "F32Ge",
        Instruction::F64Eq => "F64Eq",
        Instruction::F64Ne => "F64Ne",
        Instruction::F64Lt => "F64Lt",
        Instruction::F64Gt => "F64Gt",
        Instruction::F64Le => "F64Le",
        Instruction::F64Ge => "F64Ge",
        Instruction::I32Clz => "I32Clz",
        Instruction::I32Ctz => "I32Ctz",
        Instruction::I32Popcnt => "I32Popcnt",
        Instruction::I32Add => "I32Add",
        Instruction::I32Sub => "I32Sub",
        Instruction::I32Mul => "I32Mul",
        Instruction::I32DivS => "I32DivS",
        Instruction::I32DivU => "I32DivU",
        Instruction::I32RemS => "I32RemS",
        Instruction::I32RemU => "I32RemU",
        Instruction::I32And => "I32And",
        Instruction::I32Or => "I32Or",
        Instruction::I32Xor => "I32Xor",
        Instruction::I32Shl => "I32Shl",
        Instruction::I32ShrS => "I32ShrS",
        Instruction::I32ShrU => "I32ShrU",
        Instruction::I32Rotl => "I32Rotl",
        Instruction::I32Rotr => "I32Rotr",
        Instruction::I64Clz => "I64Clz",
        Instruction::I64Ctz => "I64Ctz",
        Instruction::I64Popcnt => "I64Popcnt",
        Instruction::I64Add => "I64Add",
        Instruction::I64Sub => "I64Sub",
        Instruction::I64Mul => "I64Mul",
        Instruction::I64DivS => "I64DivS",
        Instruction::I64DivU => "I64DivU",
        Instruction::I64RemS => "I64RemS",
        Instruction::I64RemU => "I64RemU",
        Instruction::I64And => "I64And",
        Instruction::I64Or => "I64Or",
        Instruction::I64Xor => "I64Xor",
        Instruction::I64Shl => "I64Shl",
        Instruction::I64ShrS => "I64ShrS",
        Instruction::I64ShrU => "I64ShrU",
        Instruction::I64Rotl => "I64Rotl",
        Instruction::I64Rotr => "I64Rotr",
        Instruction::F32Abs => "F32Abs",
        Instruction::F32Neg => "F32Neg",
        Instruction::F32Ceil => "F32Ceil",
        Instruction::F32Floor => "F32Floor",
        Instruction::F32Trunc => "F32Trunc",
        Instruction::F32Nearest => "F32Nearest",
        Instruction::F32Sqrt => "F32Sqrt",
        Instruction::F32Add => "F32Add",
        Instruction::F32Sub => "F32Sub",
        Instruction::F32Mul => "F32Mul",
        Instruction::F32Div => "F32Div",
        Instruction::F32Min => "F32Min",
        Instruction::F32Max => "F32Max",
        Instruction::F32Copysign => "F32Copysign",
        Instruction::F64Abs => "F64Abs",
        Instruction::F64Neg => "F64Neg",
        Instruction::F64Ceil => "F64Ceil",
        Instruction::F64Floor => "F64Floor",
        Instruction::F64Trunc => "F64Trunc",
        Instruction::F64Nearest => "F64Nearest",
        Instruction::F64Sqrt => "F64Sqrt",
        Instruction::F64Add => "F64Add",
        Instruction::F64Sub => "F64Sub",
        Instruction::F64Mul => "F64Mul",
        Instruction::F64Div => "F64Div",
        Instruction::F64Min => "F64Min",
        Instruction::F64Max => "F64Max",
        Instruction::F64Copysign => "F64Copysign",
        Instruction::I32WrapI64 => "I32WrapI64",
        Instruction::I32TruncSF32 => "I32TruncSF32",
        Instruction::I32TruncUF32 => "I32TruncUF32",
        Instruction::I32TruncSF64 => "I32TruncSF64",
        Instruction::I32TruncUF64 => "I32TruncUF64",
        Instruction::I64ExtendSI32 => "I64ExtendSI32",
        Instruction::I64ExtendUI32 => "I64ExtendUI32",
        Instruction::I64TruncSF32 => "I64TruncSF32",
        Instruction::I64TruncUF32 => "I64TruncUF32",
        Instruction::I64TruncSF64 => "I64TruncSF64",
        Instruction::I64TruncUF64 => "I64TruncUF64",
        Instruction::F32ConvertSI32 => "F32ConvertSI32",
        Instruction::F32ConvertUI32 => "F32ConvertUI32",
        Instruction::F32ConvertSI64 => "F32ConvertSI64",
        Instruction::F32ConvertUI64 => "F32ConvertUI64",
        Instruction::F32DemoteF64 => "F32DemoteF64",
        Instruction::F64ConvertSI32 => "F64ConvertSI32",
        Instruction::F64ConvertUI32 => "F64ConvertUI32",
        Instruction::F64ConvertSI64 => "F64ConvertSI64",
        Instruction::F64ConvertUI64 => "F64ConvertUI64",
        Instruction::F64PromoteF32 => "F64PromoteF32",
        Instruction::I32ReinterpretF32 => "I32ReinterpretF32",
        Instruction::I64ReinterpretF64 => "I64ReinterpretF64",
        Instruction::F32ReinterpretI32 => "F32ReinterpretI32",
        Instruction::F64ReinterpretI64 => "F64ReinterpretI64",
    }
}

/// Builds the property list of `i`: its keep count in decimal, where the
/// tag carries one.
pub fn properties_of(i: &Instruction) -> (r: Vec<String>)
    ensures
        r@.map_values(|p: String| p@) == keep_props(*i),
{
    let mut properties: Vec<String> = Vec::new();
    match i {
        Instruction::Br(t) => {
            properties.push(decimal_string(t.drop_keep.keep as u64));
        },
        Instruction::BrIfEqz(t) => {
            properties.push(decimal_string(t.drop_keep.keep as u64));
        },
        Instruction::BrIfNez(t) => {
            properties.push(decimal_string(t.drop_keep.keep as u64));
        },
        Instruction::Return(dk) => {
            properties.push(decimal_string(dk.keep as u64));
        },
        _ => {},
    }
    proof {
        assert(properties@.map_values(|p: String| p@) =~= keep_props(*i));
    }
    properties
}

/// Two operations of the same tag, whatever their operand values.
pub open spec fn same_tag(a: Instruction, b: Instruction) -> bool {
    ||| a == b
    ||| (a is Br && b is Br)
    ||| (a is BrIfEqz && b is BrIfEqz)
    ||| (a is BrIfNez && b is BrIfNez)
    ||| (a is Return && b is Return)
}

/// The kind string is a function of the tag alone: two operations of the
/// same tag always classify under the same kind.
pub proof fn lemma_kind_depends_on_tag_only(a: Instruction, b: Instruction)
    requires
        same_tag(a, b),
    ensures
        kind_name(a) == kind_name(b),
        is_denied(a) == is_denied(b),
{
}

/// Only the control transfers with a keep count carry a property, exactly
/// one, the keep count in decimal; every other kind has an empty property
/// list.
pub proof fn lemma_properties_shape(i: Instruction)
    ensures
        i matches Instruction::Br(t) ==> keep_props(i) == seq![
            spec_decimal(t.drop_keep.keep as nat),
        ],
        i matches Instruction::BrIfEqz(t) ==> keep_props(i) == seq![
            spec_decimal(t.drop_keep.keep as nat),
        ],
        i matches Instruction::BrIfNez(t) ==> keep_props(i) == seq![
            spec_decimal(t.drop_keep.keep as nat),
        ],
        i matches Instruction::Return(dk) ==> keep_props(i) == seq![
            spec_decimal(dk.keep as nat),
        ],
        !(i is Br || i is BrIfEqz || i is BrIfNez || i is Return) ==> keep_props(i)
            == Seq::<Seq<char>>::empty(),
{
    if !(i is Br || i is BrIfEqz || i is BrIfNez || i is Return) {
        assert(keep_props(i) =~= Seq::<Seq<char>>::empty());
    }
}

} // verus!
