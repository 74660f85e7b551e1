use chip8::instruction::{decode, Instruction};

#[test]
fn decodes_every_form() {
    let cases: Vec<(u16, Instruction)> = vec![
        (0x00E0, Instruction::ClearScreen),
        (0x00EE, Instruction::Return),
        (0x1ABC, Instruction::Jump { addr: 0xABC }),
        (0x2345, Instruction::Call { addr: 0x345 }),
        (0x3A7F, Instruction::SkipIfEqual { x: 0xA, nn: 0x7F }),
        (0x4B01, Instruction::SkipIfNotEqual { x: 0xB, nn: 0x01 }),
        (0x5120, Instruction::SkipIfRegistersEqual { x: 1, y: 2 }),
        (0x6C42, Instruction::SetImmediate { x: 0xC, nn: 0x42 }),
        (0x7DFF, Instruction::AddImmediate { x: 0xD, nn: 0xFF }),
        (0x8120, Instruction::Move { x: 1, y: 2 }),
        (0x8121, Instruction::Or { x: 1, y: 2 }),
        (0x8122, Instruction::And { x: 1, y: 2 }),
        (0x8123, Instruction::Xor { x: 1, y: 2 }),
        (0x8124, Instruction::AddRegisters { x: 1, y: 2 }),
        (0x8125, Instruction::Subtract { x: 1, y: 2 }),
        (0x8126, Instruction::ShiftRight { x: 1, y: 2 }),
        (0x8127, Instruction::SubtractReversed { x: 1, y: 2 }),
        (0x812E, Instruction::ShiftLeft { x: 1, y: 2 }),
        (0x9EF0, Instruction::SkipIfRegistersNotEqual { x: 0xE, y: 0xF }),
        (0xA22A, Instruction::SetIndex { addr: 0x22A }),
        (0xB300, Instruction::JumpOffset { addr: 0x300 }),
        (0xC50F, Instruction::Random { x: 5, nn: 0x0F }),
        (0xD125, Instruction::Draw { x: 1, y: 2, n: 5 }),
        (0xE39E, Instruction::SkipIfKeyPressed { x: 3 }),
        (0xE3A1, Instruction::SkipIfKeyNotPressed { x: 3 }),
        (0xF407, Instruction::ReadDelayTimer { x: 4 }),
        (0xF40A, Instruction::WaitForKey { x: 4 }),
        (0xF415, Instruction::SetDelayTimer { x: 4 }),
        (0xF418, Instruction::SetSoundTimer { x: 4 }),
        (0xF41E, Instruction::AddToIndex { x: 4 }),
        (0xF429, Instruction::FontGlyph { x: 4 }),
        (0xF433, Instruction::StoreBcd { x: 4 }),
        (0xF455, Instruction::StoreRegisters { x: 4 }),
        (0xF465, Instruction::LoadRegisters { x: 4 }),
    ];
    for (opcode, ins) in cases {
        assert_eq!(decode(opcode), Some(ins), "opcode {:04X}", opcode);
    }
}

#[test]
fn unknown_opcodes_decode_to_none() {
    for opcode in [0x0000u16, 0x00E1, 0x0123, 0x5121, 0x8128, 0x812F, 0x9121, 0xE09F, 0xF000, 0xF066, 0xFFFF] {
        assert_eq!(decode(opcode), None, "opcode {:04X}", opcode);
    }
}

#[test]
fn well_formedness_check() {
    assert!(Instruction::SetImmediate { x: 15, nn: 1 }.is_well_formed());
    assert!(!Instruction::SetImmediate { x: 16, nn: 1 }.is_well_formed());
    assert!(!Instruction::Jump { addr: 0x1000 }.is_well_formed());
    assert!(!Instruction::Draw { x: 0, y: 0, n: 16 }.is_well_formed());
}
