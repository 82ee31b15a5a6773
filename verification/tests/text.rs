//! The textual renderings: register dumps, disassembly, error messages and screens.
use owo_colors::OwoColorize;
use std::str::FromStr;

use chirp::cpu::disassemble::{self, Disassemble};
use chirp::cpu::instruction::Insn;
use chirp::cpu::bus::Region;
use chirp::cpu::CPU;
use chirp::dump::{as_bindump, as_hexdump};
use chirp::error::any_range::AnyRange;
use chirp::error::Error;
use chirp::{Dis, Disassembler, Mode, Screen};

#[test]
fn dump_default_cpu() {
    let cpu = CPU::default();
    assert_eq!(
        cpu.dump(),
        "PC: 0200, SP: 0efe, I: 0000\n\
         v0: 00 v1: 00 v2: 00 v3: 00 \n\
         v4: 00 v5: 00 v6: 00 v7: 00 \n\
         v8: 00 v9: 00 vA: 00 vB: 00 \n\
         vC: 00 vD: 00 vE: 00 vF: 00 \n\
         DLY: 0, SND: 0, CYC:      0"
    );
}

#[test]
fn dump_after_setting_registers() {
    let mut cpu = CPU::default();
    cpu.set_v(0x4, 0x41).unwrap();
    cpu.set_v(0xb, 0x0c).unwrap();
    cpu.call(0x345);
    let text = cpu.dump();
    assert!(text.starts_with("PC: 0345, SP: 0efc, I: 0000\n"));
    assert!(text.contains("v4: 41 "));
    assert!(text.contains("vB: 0c "));
}

#[test]
fn dis_once_shows_the_instruction() {
    let dis = Dis::default();
    let text = dis.once(0x6a42);
    assert!(text.contains(&Insn::decode(&[0x6a, 0x42]).unwrap().1.to_string()));
    assert!(dis.once(0xffff).contains("inval  ffff"));
    assert!(dis.once(0xf000).contains("inval  f000"));
}

#[test]
fn disassemble_instruction_text() {
    let dis = Disassemble::default();
    for (opcode, text) in [
        (0x00e0, "cls    "),
        (0x00ee, "ret    "),
        (0x0123, "sysc   123"),
        (0x1abc, "jmp    abc"),
        (0x2abc, "call   abc"),
        (0x3a42, "se     #42, vA"),
        (0x4a42, "sne    #42, vA"),
        (0x5ab0, "se     vA, vB"),
        (0x5ab1, "inval  5ab1"),
        (0x6a42, "mov    #42, vA"),
        (0x7a42, "add    #42, vA"),
        (0x8ab0, "mov    vB, vA"),
        (0x8ab1, "or     vB, vA"),
        (0x8ab2, "and    vB, vA"),
        (0x8ab3, "xor    vB, vA"),
        (0x8ab4, "add    vB, vA"),
        (0x8ab5, "sub    vB, vA"),
        (0x8ab6, "shr    vA"),
        (0x8ab7, "bsub   vB, vA"),
        (0x8abe, "shl    vA"),
        (0x8ab9, "inval  8ab9"),
        (0x9ab0, "sne    vA, vB"),
        (0xa123, "mov    $123, I"),
        (0xb123, "jmp    $123+v0"),
        (0xca0f, "rand   #F, vA"),
        (0xdab5, "draw   #5, vA, vB"),
        (0xea9e, "sek    vA"),
        (0xeaa1, "snek   vA"),
        (0xfa07, "mov    DT, vA"),
        (0xfa0a, "waitk  vA"),
        (0xfa15, "mov    vA, DT"),
        (0xfa18, "mov    vA, ST"),
        (0xfa1e, "add    vA, I"),
        (0xfa29, "font   vA, I"),
        (0xfa33, "bcd    vA, &I"),
        (0xfa55, "dmao   vA"),
        (0xfa65, "dmai   vA"),
        (0xfaff, "inval  faff"),
    ] {
        assert!(dis.instruction(opcode).contains(text), "{opcode:04x}: {text}");
    }
    assert!(dis.jump(0x123).contains("jmp    123"));
}

#[test]
fn nibbles() {
    let ins = 0xabcdu16;
    assert_eq!(disassemble::i(ins), 0xa);
    assert_eq!(disassemble::x(ins), 0xb);
    assert_eq!(disassemble::y(ins), 0xc);
    assert_eq!(disassemble::n(ins), 0xd);
    assert_eq!(disassemble::b(ins), 0xcd);
    assert_eq!(disassemble::a(ins), 0xbcd);
}

#[test]
fn error_messages() {
    assert_eq!(
        Error::BreakpointHit { addr: 0x202, next: 0x1204 }.text(),
        "breakpoint hit: 202 (1204)"
    );
    assert_eq!(
        Error::UnimplementedInstruction { word: 0x5ab1 }.text(),
        "opcode 5ab1 not recognized"
    );
    assert_eq!(
        Error::MissingRegion { region: Region::Charset }.text(),
        "region Charset is not present on bus"
    );
    assert_eq!(
        Error::InvalidAddressRange { range: AnyRange::Range(0xfff..0x1001) }.text(),
        "range Range(0fff..1001) is not present on bus"
    );
    assert_eq!(
        Error::InvalidAddressRange { range: AnyRange::RangeFrom(0x10..) }.text(),
        "range RangeFrom(0010..) is not present on bus"
    );
    assert_eq!(
        Error::InvalidAddressRange { range: AnyRange::RangeFull(..) }.text(),
        "range RangeFull(..) is not present on bus"
    );
    assert_eq!(
        Error::InvalidAddressRange { range: AnyRange::RangeInclusive(0x10..=0x20) }.text(),
        "range RangeInclusive(0010..=0020) is not present on bus"
    );
    assert_eq!(
        Error::InvalidAddressRange { range: AnyRange::RangeTo(..0x20) }.text(),
        "range RangeTo(..0020) is not present on bus"
    );
    assert_eq!(
        Error::InvalidAddressRange { range: AnyRange::RangeToInclusive(..=0x20) }.text(),
        "range RangeToInclusive(..=0020) is not present on bus"
    );
    let error = Error::InvalidAddressRange { range: AnyRange::RangeTo(..0x1234) };
    assert_eq!(error.text(), format!("range {:04x?} is not present on bus", AnyRange::RangeTo(..0x1234usize)));
    assert_eq!(
        Error::InvalidKey { key: 0x1a }.text(),
        "tried to press key 1A which does not exist"
    );
    assert_eq!(
        Error::InvalidRegister { reg: 0x10 }.text(),
        "tried to access register v10 which does not exist"
    );
    assert_eq!(
        Error::InvalidMode { mode: "gameboy".to_string() }.text(),
        "no suitable conversion of \"gameboy\" into Mode"
    );
}

#[test]
fn mode_text() {
    assert_eq!(Mode::Chip8.to_string(), "Chip-8");
    assert_eq!(Mode::SChip.to_string(), "Super Chip");
    assert_eq!(Mode::XOChip.to_string(), "XO-Chip");
    assert_eq!(Mode::from(2), Mode::XOChip);
    assert_eq!(Mode::from(7), Mode::Chip8);
}

#[test]
fn screen_render() {
    let mut bytes = [0u8; 256];
    bytes[0] = 0x81;
    bytes[15] = 0xff;
    let text = Screen::from_bytes(&bytes).print_screen();
    let lines: Vec<&str> = text.lines().collect();
    assert_eq!(lines.len(), 32);
    let first = format!("000|█{}█{}|", " ".repeat(6), " ".repeat(56));
    assert_eq!(lines[0], first);
    let second = format!("008|{}{}|", " ".repeat(56), "█".repeat(8));
    assert_eq!(lines[1], second);
}

#[test]
fn dump_cells() {
    let term = owo_colors::Style::new().bold().green().on_black();
    let label = |text: &str| format!("{}", text.style(term));
    assert_eq!(as_hexdump(0, 0xab), format!("  {}{} ab", label("000"), label(":")));
    assert_eq!(as_hexdump(0x10, 0xab), format!("  {}{} ab", label("010"), label(":")));
    assert_eq!(as_hexdump(1, 0xab), "ab");
    assert_eq!(as_hexdump(15, 0x01), "01\n");
    assert_eq!(as_bindump(0, 0xa5), format!("{}{} 10100101 ", label("000"), label(":")));
    assert_eq!(as_bindump(7, 0x01), "00000001 \n");
}

#[test]
fn mode_from_str_and_as_ref() {
    assert_eq!(chirp::Mode::from_str("CHIP-8").unwrap(), chirp::Mode::Chip8);
    assert_eq!("schip".parse::<chirp::Mode>().unwrap(), chirp::Mode::SChip);
    assert_eq!(chirp::Mode::from_str("Xo-Chip").unwrap(), chirp::Mode::XOChip);
    assert!(matches!(
        chirp::Mode::from_str("gameboy"),
        Err(chirp::Error::InvalidMode { mode }) if mode == "gameboy"
    ));
    let name: &str = chirp::Mode::SChip.as_ref();
    assert_eq!(name, "Super Chip");
}

#[test]
fn plain_style_adds_nothing() {
    let plain = Disassemble::new(owo_colors::Style::new(), owo_colors::Style::new());
    assert_eq!(plain.instruction(0x00e0), "cls    ");
    assert_eq!(plain.instruction(0x5ab1), "inval  5ab1");
}
