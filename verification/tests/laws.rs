//! Concrete instances of the properties that relate the CPU's operations to one another.

use chirp::cpu::instruction::Insn;
use chirp::cpu::CPU;
use chirp::{Dis, Flags, Grab, Mode, Screen};

fn fresh() -> CPU {
    let mut cpu = CPU::default();
    cpu.flags = Flags { monotonic: Some(8), ..Default::default() };
    cpu
}

#[test]
fn draw_twice_restores_screen() {
    for wrap in [false, true] {
        let mut cpu = fresh();
        cpu.flags.quirks.screen_wrap = wrap;
        let mut screen = Screen::from_bytes(&[0x5a; 0x100]);
        let before = screen.clone();
        // a sprite of 0..15 at 0x300, drawn near the corner so that it crosses both edges
        let sprite: Vec<u8> = (0..15u8).map(|k| k.wrapping_mul(37) ^ 0xa5).collect();
        cpu.memory_mut().write_bytes(0x300, &sprite).unwrap();
        cpu.load_i_immediate(0x300);
        cpu.set_v(1, 60).unwrap();
        cpu.set_v(2, 25).unwrap();
        cpu.draw(1, 2, 15, &mut screen);
        assert_ne!(screen, before);
        cpu.draw(1, 2, 15, &mut screen);
        assert_eq!(screen, before);
        // the second draw turned pixels off
        assert_eq!(cpu.v()[0xf], 1);
    }
}

#[test]
fn draw_sets_pixels_and_reports_collisions() {
    let mut cpu = fresh();
    let mut screen = Screen::default();
    // the sprite for `0` at (8, 1)
    cpu.set_v(0, 0).unwrap();
    cpu.load_sprite(0);
    cpu.set_v(3, 8).unwrap();
    cpu.set_v(4, 1).unwrap();
    cpu.draw(3, 4, 5, &mut screen);
    assert_eq!(cpu.v()[0xf], 0);
    assert_eq!(screen.as_slice()[1 * 8 + 1], 0xf0);
    assert_eq!(screen.as_slice()[2 * 8 + 1], 0x90);
    assert_eq!(screen.as_slice()[5 * 8 + 1], 0xf0);
    // without the draw_wait quirk, the CPU then waits for the frame
    assert!(cpu.flags.draw_wait);
}

#[test]
fn draw_clips_without_wrap() {
    let mut cpu = fresh();
    let mut screen = Screen::default();
    cpu.memory_mut().write_bytes(0x300, &[0xff, 0xff]).unwrap();
    cpu.load_i_immediate(0x300);
    cpu.set_v(0, 60).unwrap();
    cpu.set_v(1, 31).unwrap();
    cpu.draw(0, 1, 2, &mut screen);
    // only the four pixels left of the right edge, on the last row
    assert_eq!(screen.as_slice()[31 * 8 + 7], 0x0f);
    assert_eq!(screen.as_slice().iter().filter(|b| **b != 0).count(), 1);
}

#[test]
fn draw_wraps_with_quirk() {
    let mut cpu = fresh();
    cpu.flags.quirks.screen_wrap = true;
    let mut screen = Screen::default();
    cpu.memory_mut().write_bytes(0x300, &[0xff, 0xff]).unwrap();
    cpu.load_i_immediate(0x300);
    cpu.set_v(0, 60).unwrap();
    cpu.set_v(1, 31).unwrap();
    cpu.draw(0, 1, 2, &mut screen);
    assert_eq!(screen.as_slice()[31 * 8 + 7], 0x0f);
    assert_eq!(screen.as_slice()[31 * 8], 0xf0);
    assert_eq!(screen.as_slice()[7], 0x0f);
    assert_eq!(screen.as_slice()[0], 0xf0);
}

#[test]
fn call_then_ret_restores() {
    let mut cpu = fresh();
    cpu.jump(0x345);
    cpu.call(0x600);
    assert_eq!(cpu.pc(), 0x600);
    cpu.ret();
    assert_eq!(cpu.pc(), 0x345);
    // with nothing to return to, ret changes nothing
    cpu.ret();
    assert_eq!(cpu.pc(), 0x345);
}

#[test]
fn store_then_load_dma_restores() {
    let mut cpu = fresh();
    for reg in 0..16 {
        cpu.set_v(reg, 0x10 + reg as u8).unwrap();
    }
    cpu.load_i_immediate(0x700);
    cpu.store_dma(7);
    assert_eq!(cpu.i(), 0x708);
    for reg in 0..16 {
        cpu.set_v(reg, 0xee).unwrap();
    }
    cpu.load_i_immediate(0x700);
    cpu.load_dma(7);
    assert_eq!(&cpu.v()[..8], &[0x10, 0x11, 0x12, 0x13, 0x14, 0x15, 0x16, 0x17]);
    assert_eq!(&cpu.v()[8..], &[0xee; 8]);
    // with the dma_inc quirk, I stays put
    assert_eq!(cpu.i(), 0x708);
    cpu.flags.quirks.dma_inc = true;
    cpu.load_dma(3);
    assert_eq!(cpu.i(), 0x708);
}

#[test]
fn dma_past_memory_moves_nothing() {
    let mut cpu = fresh();
    cpu.set_v(0, 0x42).unwrap();
    cpu.load_i_immediate(0xffe);
    let before = cpu.memory().grab(0..0x1000).unwrap().to_vec();
    cpu.store_dma(3);
    assert_eq!(cpu.memory().grab(0..0x1000).unwrap(), &before[..]);
    assert_eq!(cpu.i(), 0x1002);
}

#[test]
fn bcd_digits_make_the_value() {
    let mut cpu = fresh();
    for value in 0..=255u8 {
        cpu.set_v(9, value).unwrap();
        cpu.load_i_immediate(0x400);
        cpu.bcd_convert(9);
        let d = cpu.memory().grab(0x400..0x403).unwrap();
        assert!(d.iter().all(|digit| *digit < 10));
        assert_eq!(100 * d[0] as u32 + 10 * d[1] as u32 + d[2] as u32, value as u32);
    }
}

#[test]
fn xor_self_clears() {
    let mut cpu = fresh();
    for x in 0..16 {
        cpu.set_v(x, 0x5c).unwrap();
        cpu.xor(x, x);
        assert_eq!(cpu.v()[x], 0);
    }
}

#[test]
fn timer_roundtrip() {
    let mut cpu = fresh();
    cpu.set_v(2, 200).unwrap();
    cpu.store_delay_timer(2);
    cpu.load_delay_timer(5);
    assert_eq!(cpu.v()[5], 200);
    cpu.store_sound_timer(2);
    assert_eq!(cpu.sound(), 200);
}

#[test]
fn press_and_release() {
    let mut cpu = CPU::default();
    // press key `7`
    assert!(cpu.press(0x7).unwrap());
    // it was already pressed, so nothing's changed.
    assert!(!cpu.press(0x7).unwrap());
    // release key `7`
    assert!(cpu.release(0x7).unwrap());
    // key was not held
    assert!(!cpu.release(0x7).unwrap());
    assert!(cpu.press(16).is_err());
    assert!(cpu.release(16).is_err());
}

#[test]
fn breakpoints_stay_unique() {
    let mut cpu = CPU::default();
    cpu.set_break(0x300).set_break(0x200).set_break(0x300).set_break(0x400);
    assert_eq!(cpu.breakpoints(), &[0x300, 0x200, 0x400]);
    cpu.unset_break(0x300);
    assert_eq!(cpu.breakpoints(), &[0x400, 0x200]);
    cpu.unset_break(0x999);
    assert_eq!(cpu.breakpoints(), &[0x400, 0x200]);
    cpu.set_break(0x500).unset_break(0x500);
    assert_eq!(cpu.breakpoints(), &[0x400, 0x200]);
}

#[test]
fn held_tick_runs_nothing() {
    let mut cpu = fresh();
    let mut screen = Screen::default();
    cpu.flags.pause = true;
    let before = cpu.clone();
    cpu.tick(&mut screen).unwrap();
    assert_eq!(cpu.pc(), before.pc());
    // monotonic timing still counts the cycle
    assert_eq!(cpu.cycle(), 1);
    cpu.flags.monotonic = None;
    cpu.tick(&mut screen).unwrap();
    assert_eq!(cpu.cycle(), 1);
}

#[test]
fn tick_runs_the_encoded_instruction() {
    let insn = Insn::movb { B: 0x3c, x: 4 };
    let mut buf = [0u8; 2];
    assert_eq!(insn.encode(&mut buf), Ok(2));
    let mut cpu = fresh();
    let mut screen = Screen::default();
    cpu.load_program_bytes(&buf).unwrap();
    cpu.tick(&mut screen).unwrap();
    assert_eq!(cpu.v()[4], 0x3c);
    assert_eq!(cpu.pc(), 0x202);
    assert_eq!(cpu.cycle(), 1);
}

#[test]
fn decode_then_encode_roundtrip() {
    for word in 0..=0xffffu32 {
        let bytes = (word as u16).to_be_bytes();
        if let Ok((len, insn)) = Insn::decode(&bytes) {
            assert_eq!(len, 2);
            let mut buf = [0u8; 4];
            assert_eq!(insn.encode(&mut buf), Ok(2));
            assert_eq!(&buf[..2], &bytes);
        }
    }
    let long = [0xf0, 0x00, 0x12, 0x34];
    let (len, insn) = Insn::decode(&long).unwrap();
    assert_eq!(len, 4);
    let mut buf = [0u8; 4];
    assert_eq!(insn.encode(&mut buf), Ok(4));
    assert_eq!(buf, long);
}

#[test]
fn mode_names_parse_back() {
    for mode in [Mode::Chip8, Mode::SChip, Mode::XOChip] {
        assert_eq!(Mode::parse(mode.as_str()).unwrap(), mode);
    }
    assert_eq!(Mode::parse("SCHIP").unwrap(), Mode::SChip);
    assert!(Mode::parse("gameboy").is_err());
}

#[test]
fn soft_reset_restarts() {
    let mut cpu = CPU::new(0xf00, 0x50, 0x340, 0xefe, Dis::default(), vec![], Flags::default());
    cpu.flags.keypause = true;
    cpu.flags.draw_wait = true;
    assert_eq!(0x340, cpu.pc());
    cpu.soft_reset();
    assert_eq!(0x200, cpu.pc());
    assert!(!cpu.flags.keypause);
    assert!(!cpu.flags.draw_wait);
}

#[test]
fn monotonic_blank_counts_down() {
    let mut cpu = fresh();
    cpu.set_v(0, 10).unwrap();
    cpu.store_delay_timer(0);
    for _ in 0..8 {
        cpu.vertical_blank();
    }
    assert_eq!(cpu.delay(), 9);
    cpu.flags.pause = true;
    for _ in 0..8 {
        cpu.vertical_blank();
    }
    assert_eq!(cpu.delay(), 9);
}

#[test]
fn multistep_counts_cycles() {
    let mut cpu = CPU::default();
    let mut screen = Screen::default();
    cpu.load_program_bytes(&[
        0x00, 0xe0, // cls
        0x12, 0x02, // jump 0x202 (pc)
    ])
    .unwrap();
    cpu.multistep(&mut screen, 0x20)
        .expect("The program should only have valid opcodes.");
    assert_eq!(0x202, cpu.pc());
    assert_eq!(0x20, cpu.cycle());
}

#[test]
fn singlestep_pauses_again() {
    let mut cpu = CPU::default();
    let mut screen = Screen::default();
    cpu.load_program_bytes(&[0x00, 0xe0, 0x12, 0x02]).unwrap();
    cpu.singlestep(&mut screen).unwrap();
    assert_eq!(0x202, cpu.pc());
    assert_eq!(1, cpu.cycle());
    assert!(cpu.flags.pause);
}

#[test]
fn monotonic_blank_ends_frame_wait() {
    // drew at cycle 1, monotonic speed 8: the next blank ends the wait for the frame
    let mut cpu = fresh();
    let mut screen = Screen::default();
    cpu.load_program_bytes(&[0xd0, 0x05, 0x12, 0x02]).unwrap();
    cpu.tick(&mut screen).unwrap();
    assert_eq!(cpu.cycle(), 1);
    assert!(cpu.flags.draw_wait);
    cpu.vertical_blank();
    assert!(!cpu.flags.draw_wait);
}
