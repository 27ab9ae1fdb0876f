use picsim::{Instruction, InstructionDecoder};

#[test]
fn test_decode_movlw() {
    // MOVLW 0x55 = 0x3055
    let inst = InstructionDecoder::decode(0x3055).unwrap();
    assert_eq!(inst, Instruction::MOVLW { k: 0x55 });
}

#[test]
fn test_decode_movwf() {
    // MOVWF 0x20 = 0x0020 | 0x0080 = 0x00A0
    let inst = InstructionDecoder::decode(0x00A0).unwrap();
    assert_eq!(inst, Instruction::MOVWF { f: 0x20 });
}

#[test]
fn test_decode_addwf() {
    // ADDWF 0x20, W (d=0) = 0x0720
    let inst = InstructionDecoder::decode(0x0720).unwrap();
    assert_eq!(inst, Instruction::ADDWF { f: 0x20, d: 0 });

    // ADDWF 0x20, F (d=1) = 0x07A0
    let inst = InstructionDecoder::decode(0x07A0).unwrap();
    assert_eq!(inst, Instruction::ADDWF { f: 0x20, d: 1 });
}

#[test]
fn test_decode_bcf() {
    // BCF 0x05, 0 = 0x1005
    let inst = InstructionDecoder::decode(0x1005).unwrap();
    assert_eq!(inst, Instruction::BCF { f: 0x05, b: 0 });

    // BCF 0x05, 7 = 0x1385
    let inst = InstructionDecoder::decode(0x1385).unwrap();
    assert_eq!(inst, Instruction::BCF { f: 0x05, b: 7 });
}

#[test]
fn test_decode_goto() {
    // GOTO 0x100 = 0x2900
    let inst = InstructionDecoder::decode(0x2900).unwrap();
    assert_eq!(inst, Instruction::GOTO { k: 0x100 });
}

#[test]
fn test_decode_call() {
    // CALL 0x100 = 0x2100
    let inst = InstructionDecoder::decode(0x2100).unwrap();
    assert_eq!(inst, Instruction::CALL { k: 0x100 });
}

#[test]
fn test_decode_nop() {
    // NOP = 0x0000
    let inst = InstructionDecoder::decode(0x0000).unwrap();
    assert_eq!(inst, Instruction::NOP);
}

#[test]
fn test_decode_clrw() {
    // CLRW = 0x0100
    let inst = InstructionDecoder::decode(0x0100).unwrap();
    assert_eq!(inst, Instruction::CLRW);
}

#[test]
fn test_decode_return() {
    // RETURN = 0x0008
    let inst = InstructionDecoder::decode(0x0008).unwrap();
    assert_eq!(inst, Instruction::RETURN);
}

#[test]
fn test_get_cycles() {
    assert_eq!(InstructionDecoder::get_cycles(&Instruction::NOP), 1);
    assert_eq!(InstructionDecoder::get_cycles(&Instruction::GOTO { k: 0 }), 2);
    assert_eq!(InstructionDecoder::get_cycles(&Instruction::CALL { k: 0 }), 2);
    assert_eq!(InstructionDecoder::get_cycles(&Instruction::RETURN), 2);
}

#[test]
fn test_decode_encode_decode_identity() {
    // For every valid 14-bit encoding, decode then encode (canonical)
    // then decode is the identity on the decoded instruction.
    let mut decoded = 0u32;
    for word in 0u16..0x4000 {
        if let Ok(inst) = InstructionDecoder::decode(word) {
            let reencoded = InstructionDecoder::encode(&inst);
            assert_eq!(InstructionDecoder::decode(reencoded), Ok(inst));
            decoded += 1;
        }
    }
    // The instruction map covers almost the whole word space
    assert!(decoded > 0x3000);
}

#[test]
fn test_decode_rejects_unknown_words() {
    // Byte-oriented opcode 0x00 with d = 0 and f != 0 is no encoding
    assert!(InstructionDecoder::decode(0x0001).is_err());
    // Opcode 0x01 (CLRF row) with d = 0 and f != 0 is no encoding
    assert!(InstructionDecoder::decode(0x0107).is_err());
    // Literal opcode 0x3B is unused
    assert!(InstructionDecoder::decode(0x3B00).is_err());
    // The error carries the offending word
    assert_eq!(InstructionDecoder::decode(0x3B42).unwrap_err().word, 0x3B42);
}

#[test]
fn test_decode_control_opcodes() {
    assert_eq!(InstructionDecoder::decode(0x0064).unwrap(), Instruction::CLRWDT);
    assert_eq!(InstructionDecoder::decode(0x0009).unwrap(), Instruction::RETFIE);
    assert_eq!(InstructionDecoder::decode(0x0063).unwrap(), Instruction::SLEEP);
}

#[test]
fn test_decode_movlw_retlw_dont_care_bits() {
    // MOVLW owns opcodes 0x30-0x33, RETLW owns 0x34-0x37
    for op in [0x30u16, 0x31, 0x32, 0x33] {
        assert_eq!(
            InstructionDecoder::decode((op << 8) | 0x7F).unwrap(),
            Instruction::MOVLW { k: 0x7F }
        );
    }
    for op in [0x34u16, 0x35, 0x36, 0x37] {
        assert_eq!(
            InstructionDecoder::decode((op << 8) | 0x7F).unwrap(),
            Instruction::RETLW { k: 0x7F }
        );
    }
}

#[test]
fn test_is_skip_instruction() {
    assert!(InstructionDecoder::is_skip_instruction(&Instruction::BTFSC { f: 3, b: 2 }));
    assert!(InstructionDecoder::is_skip_instruction(&Instruction::DECFSZ { f: 0x20, d: 1 }));
    assert!(InstructionDecoder::is_skip_instruction(&Instruction::INCFSZ { f: 0x20, d: 0 }));
    assert!(InstructionDecoder::is_skip_instruction(&Instruction::BTFSS { f: 3, b: 0 }));
    assert!(!InstructionDecoder::is_skip_instruction(&Instruction::NOP));
}
