use c8d::decode::{
    decode, decode_unknown, decode_x0000, decode_x00e0, decode_x00ee, decode_x1nnn, decode_x2nnn,
    decode_x3xnn, decode_x4xnn, decode_x5xy0, decode_x6xnn, decode_x7xnn, decode_x8000,
    decode_x8xy0, decode_x8xy1, decode_x8xy2, decode_x8xy3, decode_x8xy4, decode_x8xy5,
    decode_x8xy6, decode_x8xy7, decode_x8xye, decode_x9xy0, decode_xannn, decode_xbnnn,
    decode_xcxnn, decode_xdxyn, decode_xe000, decode_xex9e, decode_xexa1, decode_xf000,
    decode_xfx07, decode_xfx0a, decode_xfx15, decode_xfx18, decode_xfx1e, decode_xfx29,
    decode_xfx33, decode_xfx55, decode_xfx65,
};
use c8d::instruction::Instruction;
use c8d::mnemonic::{mnemonic, Mnemonic};

fn parts(instruction: &Instruction) -> (u16, &str, &str, &str) {
    (
        instruction.opcode,
        instruction.name.as_str(),
        instruction.description.as_str(),
        instruction.decoded.as_str(),
    )
}

fn expected(opcode: u16) -> (Mnemonic, &'static str, &'static str, String) {
    let nnn = opcode & 0x0FFF;
    let x = (opcode >> 8) & 0xF;
    let y = (opcode >> 4) & 0xF;
    let n = opcode & 0xF;
    let nn = opcode & 0xFF;
    let unknown = (
        Mnemonic::Unknown,
        "????",
        "UNKNOWN OP",
        format!("DW #{:04X}", opcode),
    );
    match opcode >> 12 {
        0x0 => match nn {
            0xE0 => (Mnemonic::ClearScreen, "00E0", "CLEAR SCREEN", format!("CLS")),
            0xEE => (Mnemonic::Return, "00EE", "RETURN FROM SUBROUTINE", format!("RETURN")),
            _ => (Mnemonic::Sys, "0NNN", "EXECUTE NNN", format!("#{:X}", nnn)),
        },
        0x1 => (Mnemonic::Jump, "1NNN", "JUMP TO NNN", format!("JMP #{:X}", nnn)),
        0x2 => (Mnemonic::Call, "2NNN", "CALL NNN", format!("CALL {:X}", nnn)),
        0x3 => (
            Mnemonic::SkipEqualImmediate,
            "3XNN",
            "SKIPIF VX==NN",
            format!("V{:X}=={:X}", x, nn),
        ),
        0x4 => (
            Mnemonic::SkipNotEqualImmediate,
            "4XNN",
            "SKIPIF VX!=NN",
            format!("V{:X}!={:X}", x, nn),
        ),
        0x5 => (
            Mnemonic::SkipEqualRegister,
            "5XY0",
            "SKIPIF VX=VY",
            format!("V{:X}=V{:X}", x, y),
        ),
        0x6 => (Mnemonic::SetImmediate, "6XNN", "SET VX=NN", format!("V{:X}={:X}", x, nn)),
        0x7 => (Mnemonic::AddImmediate, "7XNN", "ADD VX=VX+NN", format!("V{:X}+={:X}", x, nn)),
        0x8 => match n {
            0x0 => (Mnemonic::Copy, "8XY0", "STORE VX IN VY", format!("V{:X}=V{:X}", x, y)),
            0x1 => (Mnemonic::Or, "8XY1", "SET VX TO VX|VY", format!("VX=V{:X}|V{:X}", x, y)),
            0x2 => (Mnemonic::And, "8XY2", "SET VX TO VX&VY", format!("VX=V{:X}&V{:X}", x, y)),
            0x3 => (Mnemonic::Xor, "8XY3", "SET VX TO VX^VY", format!("VX=V{:X}^V{:X}", x, y)),
            0x4 => (
                Mnemonic::AddRegister,
                "8XY4",
                "SET VX TO VX+VY",
                format!("VX=V{:X}+V{:X}", x, y),
            ),
            0x5 => (
                Mnemonic::Subtract,
                "8XY5",
                "SET VX TO VX-VY",
                format!("VX=V{:X}-V{:X}", x, y),
            ),
            0x6 => (Mnemonic::ShiftRight, "8XY6", "SET VX TO VY>>1", format!("VX=V{:X}>>1", y)),
            0x7 => (
                Mnemonic::SubtractReversed,
                "8XY7",
                "SET VX TO VY-VX",
                format!("VX=V{:X}-V{:X}", y, x),
            ),
            0xE => (Mnemonic::ShiftLeft, "8XYE", "SET VX TO VY<<1", format!("VX=V{:X}<<1", y)),
            _ => unknown,
        },
        0x9 => (
            Mnemonic::SkipNotEqualRegister,
            "9XY0",
            "SKIPIF VX!=VY",
            format!("V{:X}!=V{:X}", x, y),
        ),
        0xA => (Mnemonic::SetIndex, "ANNN", "SET I=NNN", format!("I={:X}", nnn)),
        0xB => (Mnemonic::JumpOffset, "BNNN", "JUMP TO NNN+V0", format!("{}+V0", nnn)),
        0xC => (
            Mnemonic::Random,
            "CXNN",
            "VX=RAND() & NN",
            format!("V{:X}=RAND & {:X}", x, nn),
        ),
        0xD => (
            Mnemonic::Draw,
            "DXYN",
            "DRAW VX, VY, N",
            format!("V{:X}, V{:X}, N{:X}", x, y, n),
        ),
        0xE => match nn {
            0x9E => (
                Mnemonic::SkipKeyPressed,
                "EX9E",
                "SKIPIF VX==KEY",
                format!("SKIPIF KEY==V{}", x),
            ),
            0xA1 => (
                Mnemonic::SkipKeyNotPressed,
                "EXA1",
                "SKIPIF VX=!KEY",
                format!("SKIPIF KEY=!V{}", x),
            ),
            _ => unknown,
        },
        0xF => match nn {
            0x07 => (
                Mnemonic::ReadDelay,
                "FX07",
                "STORE VX IN DELAY TIMER",
                format!("V{}=DELAY", x),
            ),
            0x0A => (Mnemonic::WaitKey, "FX0A", "STORE VX TO KEY PRESS", format!("V{}=KEY", x)),
            0x15 => (Mnemonic::SetDelay, "FX15", "SET DELAY TO VX", format!("DELAY TIMER=V{}", x)),
            0x18 => (Mnemonic::SetSound, "FX18", "SET SOUND TO VX", format!("SOUND TIMER=V{}", x)),
            0x1E => (Mnemonic::AddIndex, "FX1E", "ADD VX TO I", format!("V{}+I", x)),
            0x29 => (
                Mnemonic::FontAddress,
                "FX29",
                "SET I TO HEX AT VX",
                format!("SET I, V{}", x),
            ),
            0x33 => (
                Mnemonic::StoreDecimal,
                "FX33",
                "STORE BCD OF VX AT I",
                format!("BCD V{}", x),
            ),
            0x55 => (
                Mnemonic::StoreRegisters,
                "FX55",
                "STORE V0..VX AT I",
                format!("STORE V0..V{}", x),
            ),
            0x65 => (
                Mnemonic::LoadRegisters,
                "FX65",
                "LOAD V0..VX FROM I",
                format!("LOAD V0..V{}", x),
            ),
            _ => unknown,
        },
        _ => unreachable!(),
    }
}

#[test]
fn every_word_decodes_to_a_record_with_code_and_summary() {
    for opcode in 0u16..=0xFFFF {
        let instruction = decode(opcode);
        assert_eq!(instruction.opcode, opcode);
        assert_eq!(instruction.name.len(), 4);
        assert!(!instruction.description.is_empty());
        assert!(!instruction.decoded.is_empty());
    }
}

#[test]
fn decoding_a_word_twice_gives_the_same_record() {
    for opcode in 0u16..=0xFFFF {
        let first = decode(opcode);
        let second = decode(opcode);
        assert_eq!(parts(&first), parts(&second));
        assert_eq!(first.mnemonic(), second.mnemonic());
    }
}

#[test]
fn every_word_decodes_as_the_instruction_table_says() {
    for opcode in 0u16..=0xFFFF {
        let instruction = decode(opcode);
        let (class, name, description, operands) = expected(opcode);
        assert_eq!(parts(&instruction), (opcode, name, description, operands.as_str()));
        assert_eq!(instruction.mnemonic(), class);
        assert_eq!(mnemonic(opcode), class);
        assert_eq!(class.name(), name);
        assert_eq!(class.description(), description);
    }
}

#[test]
fn clear_screen_return_and_jump_are_told_apart() {
    let cls = decode(0x00E0);
    assert_eq!(cls.mnemonic(), Mnemonic::ClearScreen);
    assert_eq!(parts(&cls), (0x00E0, "00E0", "CLEAR SCREEN", "CLS"));
    let ret = decode(0x00EE);
    assert_eq!(ret.mnemonic(), Mnemonic::Return);
    assert_eq!(parts(&ret), (0x00EE, "00EE", "RETURN FROM SUBROUTINE", "RETURN"));
    let jump = decode(0x1ABC);
    assert_eq!(jump.mnemonic(), Mnemonic::Jump);
    assert_eq!(parts(&jump), (0x1ABC, "1NNN", "JUMP TO NNN", "JMP #ABC"));
    assert!(jump.decoded.contains("ABC"));
}

#[test]
fn low_nibble_tells_the_register_operations_apart() {
    let copy = decode(0x8120);
    assert_eq!(copy.mnemonic(), Mnemonic::Copy);
    assert_eq!(parts(&copy), (0x8120, "8XY0", "STORE VX IN VY", "V1=V2"));
    let or = decode(0x8121);
    assert_eq!(or.mnemonic(), Mnemonic::Or);
    assert_eq!(parts(&or), (0x8121, "8XY1", "SET VX TO VX|VY", "VX=V1|V2"));
    let and = decode(0x8122);
    assert_eq!(and.mnemonic(), Mnemonic::And);
    assert_eq!(parts(&and), (0x8122, "8XY2", "SET VX TO VX&VY", "VX=V1&V2"));
    let xor = decode(0x8123);
    assert_eq!(xor.mnemonic(), Mnemonic::Xor);
    assert_eq!(parts(&xor), (0x8123, "8XY3", "SET VX TO VX^VY", "VX=V1^V2"));
}

#[test]
fn remaining_register_operations_are_covered() {
    assert_eq!(parts(&decode(0x8AB4)), (0x8AB4, "8XY4", "SET VX TO VX+VY", "VX=VA+VB"));
    assert_eq!(parts(&decode(0x8AB5)), (0x8AB5, "8XY5", "SET VX TO VX-VY", "VX=VA-VB"));
    assert_eq!(parts(&decode(0x8AB6)), (0x8AB6, "8XY6", "SET VX TO VY>>1", "VX=VB>>1"));
    assert_eq!(parts(&decode(0x8AB7)), (0x8AB7, "8XY7", "SET VX TO VY-VX", "VX=VB-VA"));
    assert_eq!(parts(&decode(0x8ABE)), (0x8ABE, "8XYE", "SET VX TO VY<<1", "VX=VB<<1"));
}

#[test]
fn family_zero_checks_the_specific_words_first() {
    assert_eq!(decode(0x00E0).mnemonic(), Mnemonic::ClearScreen);
    assert_eq!(decode(0x00EE).mnemonic(), Mnemonic::Return);
    assert_eq!(parts(&decode(0x0000)), (0x0000, "0NNN", "EXECUTE NNN", "#0"));
    assert_eq!(parts(&decode(0x0123)), (0x0123, "0NNN", "EXECUTE NNN", "#123"));
    assert_eq!(parts(&decode(0x00FF)), (0x00FF, "0NNN", "EXECUTE NNN", "#FF"));
    assert_eq!(parts(&decode(0x00EF)), (0x00EF, "0NNN", "EXECUTE NNN", "#EF"));
    assert_eq!(parts(&decode(0x00F0)), (0x00F0, "0NNN", "EXECUTE NNN", "#F0"));
    assert_eq!(parts(&decode(0x00E1)), (0x00E1, "0NNN", "EXECUTE NNN", "#E1"));
}

#[test]
fn each_family_renders_its_operands() {
    assert_eq!(parts(&decode(0x2DEF)), (0x2DEF, "2NNN", "CALL NNN", "CALL DEF"));
    assert_eq!(parts(&decode(0x3A12)), (0x3A12, "3XNN", "SKIPIF VX==NN", "VA==12"));
    assert_eq!(parts(&decode(0x4B07)), (0x4B07, "4XNN", "SKIPIF VX!=NN", "VB!=7"));
    assert_eq!(parts(&decode(0x5CD0)), (0x5CD0, "5XY0", "SKIPIF VX=VY", "VC=VD"));
    assert_eq!(parts(&decode(0x61AB)), (0x61AB, "6XNN", "SET VX=NN", "V1=AB"));
    assert_eq!(parts(&decode(0x7F01)), (0x7F01, "7XNN", "ADD VX=VX+NN", "VF+=1"));
    assert_eq!(parts(&decode(0x9EF0)), (0x9EF0, "9XY0", "SKIPIF VX!=VY", "VE!=VF"));
    assert_eq!(parts(&decode(0xA2F0)), (0xA2F0, "ANNN", "SET I=NNN", "I=2F0"));
    assert_eq!(parts(&decode(0xB2F0)), (0xB2F0, "BNNN", "JUMP TO NNN+V0", "752+V0"));
    assert_eq!(parts(&decode(0xC0FF)), (0xC0FF, "CXNN", "VX=RAND() & NN", "V0=RAND & FF"));
    assert_eq!(parts(&decode(0xD123)), (0xD123, "DXYN", "DRAW VX, VY, N", "V1, V2, N3"));
}

#[test]
fn key_and_timer_families_write_the_register_in_decimal() {
    assert_eq!(parts(&decode(0xEA9E)), (0xEA9E, "EX9E", "SKIPIF VX==KEY", "SKIPIF KEY==V10"));
    assert_eq!(parts(&decode(0xE3A1)), (0xE3A1, "EXA1", "SKIPIF VX=!KEY", "SKIPIF KEY=!V3"));
    assert_eq!(parts(&decode(0xFF07)), (0xFF07, "FX07", "STORE VX IN DELAY TIMER", "V15=DELAY"));
    assert_eq!(parts(&decode(0xF00A)), (0xF00A, "FX0A", "STORE VX TO KEY PRESS", "V0=KEY"));
    assert_eq!(parts(&decode(0xF915)), (0xF915, "FX15", "SET DELAY TO VX", "DELAY TIMER=V9"));
    assert_eq!(parts(&decode(0xFB18)), (0xFB18, "FX18", "SET SOUND TO VX", "SOUND TIMER=V11"));
    assert_eq!(parts(&decode(0xF21E)), (0xF21E, "FX1E", "ADD VX TO I", "V2+I"));
    assert_eq!(parts(&decode(0xFC29)), (0xFC29, "FX29", "SET I TO HEX AT VX", "SET I, V12"));
    assert_eq!(parts(&decode(0xF433)), (0xF433, "FX33", "STORE BCD OF VX AT I", "BCD V4"));
    assert_eq!(parts(&decode(0xFE55)), (0xFE55, "FX55", "STORE V0..VX AT I", "STORE V0..V14"));
    assert_eq!(parts(&decode(0xF765)), (0xF765, "FX65", "LOAD V0..VX FROM I", "LOAD V0..V7"));
}

#[test]
fn unmatched_second_field_gives_the_unknown_record_with_the_word() {
    let words: [u16; 12] = [
        0x8128, 0x812F, 0x8009, 0x8FFD, 0xE000, 0xE19F, 0xE1A5, 0xE162, 0xF000, 0xF1A5, 0xF1FF,
        0xF066,
    ];
    for opcode in words {
        let instruction = decode(opcode);
        assert_eq!(instruction.mnemonic(), Mnemonic::Unknown);
        assert_eq!(instruction.opcode, opcode);
        assert_eq!(instruction.name, "????");
        assert_eq!(instruction.description, "UNKNOWN OP");
        assert_eq!(instruction.decoded, format!("DW #{:04X}", opcode));
    }
    assert_eq!(parts(&decode(0x8128)), (0x8128, "????", "UNKNOWN OP", "DW #8128"));
}

#[test]
fn unknown_words_are_exactly_those_with_an_unmatched_second_field() {
    let mut unknown: u32 = 0;
    for opcode in 0u16..=0xFFFF {
        let family = opcode >> 12;
        let n = opcode & 0xF;
        let nn = opcode & 0xFF;
        let unmatched = match family {
            0x8 => !(n <= 7 || n == 0xE),
            0xE => !(nn == 0x9E || nn == 0xA1),
            0xF => ![0x07, 0x0A, 0x15, 0x18, 0x1E, 0x29, 0x33, 0x55, 0x65].contains(&nn),
            _ => false,
        };
        assert_eq!(decode(opcode).mnemonic() == Mnemonic::Unknown, unmatched);
        if unmatched {
            unknown += 1;
        }
    }
    assert_eq!(unknown, 7 * 256 + (4096 - 2 * 16) + (4096 - 9 * 16));
}

#[test]
fn unknown_record_pads_the_word_to_four_digits() {
    assert_eq!(parts(&decode_unknown(0x0007)), (0x0007, "????", "UNKNOWN OP", "DW #0007"));
    assert_eq!(parts(&decode_unknown(0xFFFF)), (0xFFFF, "????", "UNKNOWN OP", "DW #FFFF"));
}

#[test]
fn class_does_not_depend_on_the_register_index() {
    for opcode in 0u16..=0xFFFF {
        let other = opcode ^ 0x0F00;
        assert_eq!(mnemonic(opcode), mnemonic(other));
    }
}

#[test]
fn short_codes_are_distinct() {
    let mut seen: Vec<(String, Mnemonic)> = Vec::new();
    for opcode in 0u16..=0xFFFF {
        let class = mnemonic(opcode);
        match seen.iter().find(|(name, _)| name == class.name()) {
            Some((_, known)) => assert_eq!(*known, class),
            None => seen.push((class.name().to_string(), class)),
        }
    }
    assert_eq!(seen.len(), 36);
}

#[test]
fn family_functions_agree_with_the_whole_decoder() {
    for opcode in 0u16..=0xFFFF {
        let whole = decode(opcode);
        let family = match opcode >> 12 {
            0x0 => decode_x0000(opcode),
            0x8 => decode_x8000(opcode),
            0xE => decode_xe000(opcode),
            0xF => decode_xf000(opcode),
            _ => decode(opcode),
        };
        assert_eq!(parts(&whole), parts(&family));
    }
}

#[test]
fn leaf_functions_read_any_word_as_their_instruction() {
    assert_eq!(parts(&decode_x00e0(0x00E0)), (0x00E0, "00E0", "CLEAR SCREEN", "CLS"));
    assert_eq!(parts(&decode_x00ee(0x00EE)), (0x00EE, "00EE", "RETURN FROM SUBROUTINE", "RETURN"));
    assert_eq!(parts(&decode_x1nnn(0x1234)), (0x1234, "1NNN", "JUMP TO NNN", "JMP #234"));
    assert_eq!(parts(&decode_x1nnn(0xF00F)), (0xF00F, "1NNN", "JUMP TO NNN", "JMP #F"));
    assert_eq!(parts(&decode_x2nnn(0x2000)), (0x2000, "2NNN", "CALL NNN", "CALL 0"));
    assert_eq!(parts(&decode_x3xnn(0x3100)), (0x3100, "3XNN", "SKIPIF VX==NN", "V1==0"));
    assert_eq!(parts(&decode_x4xnn(0x42FF)), (0x42FF, "4XNN", "SKIPIF VX!=NN", "V2!=FF"));
    assert_eq!(parts(&decode_x5xy0(0x5120)), (0x5120, "5XY0", "SKIPIF VX=VY", "V1=V2"));
    assert_eq!(parts(&decode_x6xnn(0x6A0B)), (0x6A0B, "6XNN", "SET VX=NN", "VA=B"));
    assert_eq!(parts(&decode_x7xnn(0x7110)), (0x7110, "7XNN", "ADD VX=VX+NN", "V1+=10"));
    assert_eq!(parts(&decode_x8xy0(0x8340)), (0x8340, "8XY0", "STORE VX IN VY", "V3=V4"));
    assert_eq!(parts(&decode_x8xy1(0x8341)), (0x8341, "8XY1", "SET VX TO VX|VY", "VX=V3|V4"));
    assert_eq!(parts(&decode_x8xy2(0x8342)), (0x8342, "8XY2", "SET VX TO VX&VY", "VX=V3&V4"));
    assert_eq!(parts(&decode_x8xy3(0x8343)), (0x8343, "8XY3", "SET VX TO VX^VY", "VX=V3^V4"));
    assert_eq!(parts(&decode_x8xy4(0x8344)), (0x8344, "8XY4", "SET VX TO VX+VY", "VX=V3+V4"));
    assert_eq!(parts(&decode_x8xy5(0x8345)), (0x8345, "8XY5", "SET VX TO VX-VY", "VX=V3-V4"));
    assert_eq!(parts(&decode_x8xy6(0x8346)), (0x8346, "8XY6", "SET VX TO VY>>1", "VX=V4>>1"));
    assert_eq!(parts(&decode_x8xy7(0x8347)), (0x8347, "8XY7", "SET VX TO VY-VX", "VX=V4-V3"));
    assert_eq!(parts(&decode_x8xye(0x834E)), (0x834E, "8XYE", "SET VX TO VY<<1", "VX=V4<<1"));
    assert_eq!(parts(&decode_x9xy0(0x9560)), (0x9560, "9XY0", "SKIPIF VX!=VY", "V5!=V6"));
    assert_eq!(parts(&decode_xannn(0xAFFF)), (0xAFFF, "ANNN", "SET I=NNN", "I=FFF"));
    assert_eq!(parts(&decode_xbnnn(0xBFFF)), (0xBFFF, "BNNN", "JUMP TO NNN+V0", "4095+V0"));
    assert_eq!(parts(&decode_xbnnn(0xB000)), (0xB000, "BNNN", "JUMP TO NNN+V0", "0+V0"));
    assert_eq!(parts(&decode_xcxnn(0xC70F)), (0xC70F, "CXNN", "VX=RAND() & NN", "V7=RAND & F"));
    assert_eq!(parts(&decode_xdxyn(0xDABC)), (0xDABC, "DXYN", "DRAW VX, VY, N", "VA, VB, NC"));
    assert_eq!(parts(&decode_xex9e(0xE09E)), (0xE09E, "EX9E", "SKIPIF VX==KEY", "SKIPIF KEY==V0"));
    assert_eq!(parts(&decode_xexa1(0xEFA1)), (0xEFA1, "EXA1", "SKIPIF VX=!KEY", "SKIPIF KEY=!V15"));
    assert_eq!(parts(&decode_xfx07(0xF107)), (0xF107, "FX07", "STORE VX IN DELAY TIMER", "V1=DELAY"));
    assert_eq!(parts(&decode_xfx0a(0xFA0A)), (0xFA0A, "FX0A", "STORE VX TO KEY PRESS", "V10=KEY"));
    assert_eq!(parts(&decode_xfx15(0xF115)), (0xF115, "FX15", "SET DELAY TO VX", "DELAY TIMER=V1"));
    assert_eq!(parts(&decode_xfx18(0xF118)), (0xF118, "FX18", "SET SOUND TO VX", "SOUND TIMER=V1"));
    assert_eq!(parts(&decode_xfx1e(0xFD1E)), (0xFD1E, "FX1E", "ADD VX TO I", "V13+I"));
    assert_eq!(parts(&decode_xfx29(0xF129)), (0xF129, "FX29", "SET I TO HEX AT VX", "SET I, V1"));
    assert_eq!(parts(&decode_xfx33(0xF133)), (0xF133, "FX33", "STORE BCD OF VX AT I", "BCD V1"));
    assert_eq!(parts(&decode_xfx55(0xF155)), (0xF155, "FX55", "STORE V0..VX AT I", "STORE V0..V1"));
    assert_eq!(parts(&decode_xfx65(0xF165)), (0xF165, "FX65", "LOAD V0..VX FROM I", "LOAD V0..V1"));
}

#[test]
fn record_is_put_together_from_its_parts() {
    let instruction = Instruction::new(0x00E0, "00E0", "CLEAR SCREEN", String::from("CLS"));
    assert_eq!(parts(&instruction), (0x00E0, "00E0", "CLEAR SCREEN", "CLS"));
}

#[test]
fn record_renders_word_code_summary_and_operands() {
    assert_eq!(decode(0x00E0).to_string(), "00E0 - 00E0\tCLEAR SCREEN\tCLS");
    assert_eq!(decode(0x61AB).to_string(), "61AB - 6XNN\tSET VX=NN\tV1=AB");
    assert_eq!(decode(0x0123).to_string(), "0123 - 0NNN\tEXECUTE NNN\t#123");
    for opcode in 0u16..=0xFFFF {
        let instruction = decode(opcode);
        let line = format!(
            "{:04X} - {}\t{}\t{}",
            instruction.opcode, instruction.name, instruction.description, instruction.decoded
        );
        assert_eq!(instruction.to_string(), line);
    }
}
