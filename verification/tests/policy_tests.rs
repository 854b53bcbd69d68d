use scoped_instrumenter::isa::DropKeep;
use scoped_instrumenter::isa::Instruction;
use scoped_instrumenter::isa::Target;
use scoped_instrumenter::timer::ScopedInstrumenter;

fn target(keep: u32) -> Target {
    Target {
        dst_pc: 7,
        drop_keep: DropKeep { drop: 1, keep },
    }
}

#[test]
fn denied_tags_are_not_instrumented() {
    let denied = vec![
        Instruction::F32Load,
        Instruction::F64Load,
        Instruction::F32Store,
        Instruction::F64Store,
        Instruction::F32Const,
        Instruction::F64Const,
        Instruction::F32Eq,
        Instruction::F32Ne,
        Instruction::F32Lt,
        Instruction::F32Gt,
        Instruction::F32Le,
        Instruction::F32Ge,
        Instruction::F64Eq,
        Instruction::F64Ne,
        Instruction::F64Lt,
        Instruction::F64Gt,
        Instruction::F64Le,
        Instruction::F64Ge,
        Instruction::F32Abs,
        Instruction::F32Neg,
        Instruction::F32Ceil,
        Instruction::F32Floor,
        Instruction::F32Trunc,
        Instruction::F32Nearest,
        Instruction::F32Sqrt,
        Instruction::F32Add,
        Instruction::F32Sub,
        Instruction::F32Mul,
        Instruction::F32Div,
        Instruction::F32Min,
        Instruction::F32Max,
        Instruction::F32Copysign,
        Instruction::F64Abs,
        Instruction::F64Neg,
        Instruction::F64Ceil,
        Instruction::F64Floor,
        Instruction::F64Trunc,
        Instruction::F64Nearest,
        Instruction::F64Sqrt,
        Instruction::F64Add,
        Instruction::F64Sub,
        Instruction::F64Mul,
        Instruction::F64Div,
        Instruction::F64Min,
        Instruction::F64Max,
        Instruction::F64Copysign,
        Instruction::I32TruncSF32,
        Instruction::I32TruncUF32,
        Instruction::I32TruncSF64,
        Instruction::I32TruncUF64,
        Instruction::I64TruncSF32,
        Instruction::I64TruncUF32,
        Instruction::I64TruncSF64,
        Instruction::I64TruncUF64,
        Instruction::F32ConvertSI32,
        Instruction::F32ConvertUI32,
        Instruction::F32ConvertSI64,
        Instruction::F32ConvertUI64,
        Instruction::F32DemoteF64,
        Instruction::F64ConvertSI32,
        Instruction::F64ConvertUI32,
        Instruction::F64ConvertSI64,
        Instruction::F64ConvertUI64,
        Instruction::F64PromoteF32,
        Instruction::I32ReinterpretF32,
        Instruction::I64ReinterpretF64,
        Instruction::F32ReinterpretI32,
        Instruction::F64ReinterpretI64,
    ];
    assert_eq!(denied.len(), 68);
    for instruction in &denied {
        assert!(ScopedInstrumenter::new(instruction).is_none());
    }
}

#[test]
fn kind_strings_are_stable_per_tag() {
    let cases = vec![
        (Instruction::Unreachable, "Unreachable"),
        (Instruction::GetLocal, "GetLocal"),
        (Instruction::SetLocal, "SetLocal"),
        (Instruction::Br(target(0)), "Br"),
        (Instruction::BrIfEqz(target(1)), "BrIfEqz"),
        (Instruction::BrIfNez(target(2)), "BrIfNez"),
        (Instruction::BrTable, "BrTable"),
        (Instruction::Return(DropKeep { drop: 0, keep: 1 }), "Return"),
        (Instruction::Call, "Call"),
        (Instruction::CallIndirect, "CallIndirect"),
        (Instruction::Drop, "Drop"),
        (Instruction::Select, "Select"),
        (Instruction::I32Load, "I32Load"),
        (Instruction::I64Load32U, "I64Load32U"),
        (Instruction::I32Store16, "I32Store16"),
        (Instruction::CurrentMemory, "CurrentMemory"),
        (Instruction::GrowMemory, "GrowMemory"),
        (Instruction::I32Const, "I32Const"),
        (Instruction::I64Const, "I64Const"),
        (Instruction::I32Eqz, "I32Eqz"),
        (Instruction::I32Add, "I32Add"),
        (Instruction::I64Rotr, "I64Rotr"),
        (Instruction::I32WrapI64, "I32WrapI64"),
        (Instruction::I64ExtendSI32, "I64ExtendSI32"),
        (Instruction::I64ExtendUI32, "I64ExtendUI32"),
    ];
    for (instruction, expected) in &cases {
        let handle = ScopedInstrumenter::new(instruction).unwrap();
        assert_eq!(&handle.kind, expected);
    }
}

#[test]
fn same_tag_same_kind_whatever_the_operands() {
    for keep in [0u32, 1, 2, 17, u32::MAX] {
        let handle = ScopedInstrumenter::new(&Instruction::Br(target(keep))).unwrap();
        assert_eq!(handle.kind, "Br");
    }
    for keep in [0u32, 3, 9999] {
        let handle =
            ScopedInstrumenter::new(&Instruction::Return(DropKeep { drop: 2, keep }))
                .unwrap();
        assert_eq!(handle.kind, "Return");
    }
}

#[test]
fn only_control_transfers_carry_the_keep_count() {
    let br = ScopedInstrumenter::new(&Instruction::Br(target(2))).unwrap();
    assert_eq!(br.properties, vec!["2".to_string()]);
    let br_if_eqz = ScopedInstrumenter::new(&Instruction::BrIfEqz(target(0))).unwrap();
    assert_eq!(br_if_eqz.properties, vec!["0".to_string()]);
    let br_if_nez = ScopedInstrumenter::new(&Instruction::BrIfNez(target(4294967295))).unwrap();
    assert_eq!(br_if_nez.properties, vec!["4294967295".to_string()]);
    let ret =
        ScopedInstrumenter::new(&Instruction::Return(DropKeep { drop: 9, keep: 12 })).unwrap();
    assert_eq!(ret.properties, vec!["12".to_string()]);

    let others = vec![
        Instruction::Unreachable,
        Instruction::GetLocal,
        Instruction::BrTable,
        Instruction::Call,
        Instruction::I32Add,
        Instruction::I64Store32,
        Instruction::GrowMemory,
    ];
    for instruction in &others {
        let handle = ScopedInstrumenter::new(instruction).unwrap();
        assert!(handle.properties.is_empty());
    }
}
