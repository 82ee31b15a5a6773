use chirp::cpu::emu::Emulator;
use chirp::cpu::hotkeys::{
    command_for, identify_key, key_down, key_up, keys_not_held, Command, HostKey, Reply,
};
use chirp::cpu::CPU;
use chirp::{Quirks, Screen};

/// cls; v0 = 5; I = sprite of v0; draw 5 rows at (v0, v0); jump to itself
const PROGRAM: [u8; 10] = [0x00, 0xe0, 0x60, 0x05, 0xf0, 0x29, 0xd0, 0x05, 0x12, 0x08];

const FG: [u8; 4] = [0xff, 0xff, 0x00, 0xff];
const BG: [u8; 4] = [0x62, 0x37, 0x01, 0xff];

fn note(reply: &Reply) -> &str {
    match reply {
        Reply::Note(text) => text,
        other => panic!("expected a note, got {other:?}"),
    }
}

fn loaded_cpu() -> CPU {
    let mut cpu = CPU::default();
    cpu.load_program_bytes(&PROGRAM).unwrap();
    cpu
}

#[test]
fn hotkey_bindings() {
    assert_eq!(command_for(HostKey::F(1)), Some(Command::DumpRegisters));
    assert_eq!(command_for(HostKey::Char(',')), Some(Command::DumpRegisters));
    assert_eq!(command_for(HostKey::F(2)), Some(Command::PrintScreen));
    assert_eq!(command_for(HostKey::Char('.')), Some(Command::PrintScreen));
    assert_eq!(command_for(HostKey::F(3)), Some(Command::SaveScreen));
    assert_eq!(command_for(HostKey::F(4)), Some(Command::ToggleDebug));
    assert_eq!(command_for(HostKey::Char('/')), Some(Command::ToggleDebug));
    assert_eq!(command_for(HostKey::F(5)), Some(Command::TogglePause));
    assert_eq!(command_for(HostKey::Char('\\')), Some(Command::TogglePause));
    assert_eq!(command_for(HostKey::F(6)), Some(Command::Step));
    assert_eq!(command_for(HostKey::Enter), Some(Command::Step));
    assert_eq!(command_for(HostKey::F(7)), Some(Command::SetBreak));
    assert_eq!(command_for(HostKey::F(8)), Some(Command::UnsetBreak));
    assert_eq!(command_for(HostKey::F(9)), Some(Command::SoftReset));
    assert_eq!(command_for(HostKey::Delete), Some(Command::SoftReset));
    assert_eq!(command_for(HostKey::Escape), Some(Command::Quit));
    assert_eq!(command_for(HostKey::F(10)), Some(Command::HardReset));
    assert_eq!(command_for(HostKey::Backspace), Some(Command::HardReset));
    assert_eq!(command_for(HostKey::F(11)), None);
    assert_eq!(command_for(HostKey::Char('Q')), None);
    assert_eq!(command_for(HostKey::Other), None);
}

#[test]
fn hotkey_dump_and_print() {
    let mut cpu = loaded_cpu();
    let mut screen = Screen::default();
    let (reply, outcome) = key_down(&mut cpu, &mut screen, HostKey::F(1));
    assert!(outcome.is_ok());
    match reply {
        Reply::Print(text) => assert_eq!(text, cpu.dump()),
        other => panic!("expected the registers, got {other:?}"),
    }
    let (reply, outcome) = key_down(&mut cpu, &mut screen, HostKey::Char('.'));
    assert!(outcome.is_ok());
    match reply {
        Reply::Print(text) => assert_eq!(text, screen.print_screen()),
        other => panic!("expected the screen, got {other:?}"),
    }
    let (reply, _) = key_down(&mut cpu, &mut screen, HostKey::F(3));
    match reply {
        Reply::SaveScreen { cycle, bytes } => {
            assert_eq!(cycle, 0);
            assert_eq!(bytes, vec![0u8; 256]);
        }
        other => panic!("expected a screen dump, got {other:?}"),
    }
}

#[test]
fn hotkey_toggles() {
    let mut cpu = loaded_cpu();
    let mut screen = Screen::default();
    assert!(cpu.flags.debug);
    let (reply, _) = key_down(&mut cpu, &mut screen, HostKey::F(4));
    assert_eq!(note(&reply), "Debug disabled.");
    assert!(!cpu.flags.debug);
    let (reply, _) = key_down(&mut cpu, &mut screen, HostKey::Char('/'));
    assert_eq!(note(&reply), "Debug enabled.");
    assert!(cpu.flags.debug);
    let (reply, _) = key_down(&mut cpu, &mut screen, HostKey::F(5));
    assert_eq!(note(&reply), "Paused.");
    assert!(cpu.flags.pause);
    let (reply, _) = key_down(&mut cpu, &mut screen, HostKey::Char('\\'));
    assert_eq!(note(&reply), "Unpaused.");
    assert!(!cpu.flags.pause);
}

#[test]
fn hotkey_step_and_breakpoints() {
    let mut cpu = loaded_cpu();
    let mut screen = Screen::default();
    let (reply, outcome) = key_down(&mut cpu, &mut screen, HostKey::Enter);
    assert_eq!(note(&reply), "Step");
    assert!(outcome.is_ok());
    assert_eq!(cpu.pc(), 0x202);
    assert_eq!(cpu.cycle(), 1);
    assert!(cpu.flags.pause);
    let (reply, _) = key_down(&mut cpu, &mut screen, HostKey::F(7));
    assert_eq!(note(&reply), "Set breakpoint 202.");
    assert_eq!(cpu.breakpoints(), &[0x202]);
    let (reply, _) = key_down(&mut cpu, &mut screen, HostKey::F(8));
    assert_eq!(note(&reply), "Unset breakpoint 202.");
    assert!(cpu.breakpoints().is_empty());
}

#[test]
fn hotkey_soft_reset_and_quit() {
    let mut cpu = loaded_cpu();
    let mut screen = Screen::default();
    for _ in 0..4 {
        let (_, outcome) = key_down(&mut cpu, &mut screen, HostKey::F(6));
        assert!(outcome.is_ok());
    }
    assert_eq!(cpu.pc(), 0x208);
    assert!(screen.as_slice().iter().any(|&b| b != 0));
    let (reply, _) = key_down(&mut cpu, &mut screen, HostKey::Delete);
    assert_eq!(note(&reply), "Soft reset state.cpu 208");
    assert_eq!(cpu.pc(), 0x200);
    assert_eq!(screen.as_slice(), &[0u8; 256][..]);
    let (reply, _) = key_down(&mut cpu, &mut screen, HostKey::Escape);
    assert!(matches!(reply, Reply::Quit));
}

#[test]
fn hotkey_keypad() {
    let mut cpu = loaded_cpu();
    let mut screen = Screen::default();
    let (reply, outcome) = key_down(&mut cpu, &mut screen, HostKey::Char('Q'));
    assert!(matches!(reply, Reply::Nothing));
    assert!(outcome.is_ok());
    key_up(&mut cpu, HostKey::Char('Q')).unwrap();
    // the key was held, and is now let go
    assert_eq!(cpu.release(0x4).unwrap(), false);
    key_down(&mut cpu, &mut screen, HostKey::Char('V'));
    assert_eq!(cpu.release(0xf).unwrap(), true);
    // keys off the keypad press nothing
    key_down(&mut cpu, &mut screen, HostKey::Char('G'));
    for key in 0..16 {
        assert_eq!(cpu.release(key).unwrap(), false);
    }
}

#[test]
fn emulator_new() {
    let mut emu = Emulator::new(8, "games/test.ch8".to_string(), &PROGRAM);
    assert_eq!(emu.ipf, 8);
    assert_eq!(emu.rom, "games/test.ch8");
    assert_eq!(emu.colors, [FG, BG]);
    assert_eq!(emu.print_registers(), loaded_cpu().dump());
    assert_eq!(emu.quirks(), Quirks::from(false));
    assert_eq!(emu.is_disasm(), "Live Disassembly Enabled");
    emu.set_disasm(false);
    assert_eq!(emu.is_disasm(), "Live Disassembly Disabled");
}

#[test]
fn emulator_update() {
    let mut emu = Emulator::new(2, "test.ch8".to_string(), &PROGRAM);
    emu.update().unwrap();
    let mut cpu = loaded_cpu();
    let mut screen = Screen::default();
    cpu.multistep(&mut screen, 2).unwrap();
    assert_eq!(emu.print_registers(), cpu.dump());
    assert_eq!(cpu.pc(), 0x204);
}

#[test]
fn emulator_draw() {
    let mut emu = Emulator::new(8, "test.ch8".to_string(), &PROGRAM);
    let (width, height, frame) = emu.draw();
    assert_eq!((width, height), (64, 32));
    assert_eq!(frame.len(), 64 * 32 * 4);
    assert!(frame.chunks(4).all(|pixel| pixel == BG));
    for _ in 0..4 {
        emu.singlestep().unwrap();
    }
    let (_, _, frame) = emu.draw();
    let pixel = |x: usize, y: usize| &frame[(y * 64 + x) * 4..(y * 64 + x) * 4 + 4];
    // The top row of the sprite for 5 is 0xf0: four lit pixels from (5, 5)
    assert_eq!(pixel(4, 5), BG);
    for x in 5..9 {
        assert_eq!(pixel(x, 5), FG);
    }
    assert_eq!(pixel(9, 5), BG);
    // The second row is 0x80: one lit pixel
    assert_eq!(pixel(5, 6), FG);
    assert_eq!(pixel(6, 6), BG);
    emu.colors = [BG, FG];
    let (_, _, swapped) = emu.draw();
    assert_eq!(&swapped[(5 * 64 + 5) * 4..(5 * 64 + 5) * 4 + 4], BG);
}

#[test]
fn emulator_messages() {
    let mut emu = Emulator::new(8, "test.ch8".to_string(), &PROGRAM);
    assert_eq!(emu.pause(), "Paused");
    assert_eq!(emu.pause(), "Unpaused");
    assert_eq!(emu.set_break(), "Set breakpoint at 512");
    assert_eq!(emu.unset_break(), "Unset breakpoint at 512");
    emu.singlestep().unwrap();
    let (path, bytes) = emu.dump_screen("test");
    assert_eq!(path, "test_1.bin");
    assert_eq!(bytes, vec![0u8; 256]);
    assert_eq!(emu.print_screen(), Screen::default().print_screen());
}

#[test]
fn emulator_resets() {
    let mut emu = Emulator::new(8, "test.ch8".to_string(), &PROGRAM);
    for _ in 0..4 {
        emu.singlestep().unwrap();
    }
    let quirks = Quirks::from(true);
    emu.set_quirks(quirks);
    assert_eq!(emu.soft_reset(), "Soft Reset");
    let (_, _, frame) = emu.draw();
    assert!(frame.chunks(4).all(|pixel| pixel == BG));
    let mut expected = loaded_cpu();
    for _ in 0..4 {
        expected.singlestep(&mut Screen::default()).unwrap();
    }
    expected.soft_reset();
    assert_eq!(emu.print_registers(), expected.dump());
    // A hard reset starts over with a fresh CPU, and keeps the flags
    assert_eq!(emu.hard_reset(&[0x12, 0x00]), "Hard Reset");
    assert_eq!(emu.quirks(), quirks);
    let mut fresh = CPU::default();
    fresh.load_program_bytes(&[0x12, 0x00]).unwrap();
    assert_eq!(emu.print_registers(), fresh.dump());
}

#[test]
fn emulator_input() {
    // v[A] = 0xa; skip the next instruction if key v[A] is held; (skipped jump); jump to itself
    let program = [0x6a, 0x0a, 0xea, 0x9e, 0x12, 0x00, 0x12, 0x06];
    let mut pressed = [false; 16];
    pressed[3] = true;
    pressed[0xa] = true;
    let mut released = [false; 16];
    released[0xa] = true;

    let mut held = Emulator::new(1, "skip.ch8".to_string(), &program);
    held.input([false; 16], pressed).unwrap();
    for _ in 0..2 {
        held.singlestep().unwrap();
    }
    let mut cpu = CPU::default();
    cpu.load_program_bytes(&program).unwrap();
    cpu.press(0xa).unwrap();
    cpu.press(3).unwrap();
    let mut screen = Screen::default();
    for _ in 0..2 {
        cpu.singlestep(&mut screen).unwrap();
    }
    assert_eq!(cpu.pc(), 0x206);
    assert_eq!(held.print_registers(), cpu.dump());

    let mut let_go = Emulator::new(1, "skip.ch8".to_string(), &program);
    let_go.input([false; 16], pressed).unwrap();
    let_go.input(released, [false; 16]).unwrap();
    for _ in 0..2 {
        let_go.singlestep().unwrap();
    }
    let mut cpu = CPU::default();
    cpu.load_program_bytes(&program).unwrap();
    cpu.press(3).unwrap();
    let mut screen = Screen::default();
    for _ in 0..2 {
        cpu.singlestep(&mut screen).unwrap();
    }
    assert_eq!(cpu.pc(), 0x204);
    assert_eq!(let_go.print_registers(), cpu.dump());
}

#[test]
fn identify_keypad_keys() {
    let layout = [
        ('1', 0x1), ('2', 0x2), ('3', 0x3), ('4', 0xc),
        ('Q', 0x4), ('W', 0x5), ('E', 0x6), ('R', 0xd),
        ('A', 0x7), ('S', 0x8), ('D', 0x9), ('F', 0xe),
        ('Z', 0xa), ('X', 0x0), ('C', 0xb), ('V', 0xf),
    ];
    for (c, key) in layout {
        assert_eq!(identify_key(HostKey::Char(c)), Some(key));
    }
    assert_eq!(identify_key(HostKey::Char('G')), None);
    assert_eq!(identify_key(HostKey::Char('5')), None);
    assert_eq!(identify_key(HostKey::F(1)), None);
    assert_eq!(identify_key(HostKey::Escape), None);
}

#[test]
fn hotkey_hard_reset() {
    let mut cpu = loaded_cpu();
    let mut screen = Screen::default();
    for _ in 0..4 {
        key_down(&mut cpu, &mut screen, HostKey::F(6)).1.unwrap();
    }
    cpu.set_break(0x208);
    cpu.flags.debug = false;
    let (reply, outcome) = key_down(&mut cpu, &mut screen, HostKey::Backspace);
    assert!(outcome.is_ok());
    assert_eq!(note(&reply), "Hard reset state.cpu");
    // a fresh CPU, which still holds the program
    assert_eq!(cpu.dump(), loaded_cpu().dump());
    assert!(cpu.breakpoints().is_empty());
    assert!(cpu.flags.debug);
    assert_eq!(screen.as_slice(), &[0u8; 256][..]);
    for _ in 0..2 {
        key_down(&mut cpu, &mut screen, HostKey::F(6)).1.unwrap();
    }
    assert_eq!(cpu.pc(), 0x204);
}

#[test]
fn held_key_changes() {
    let before = [HostKey::Char('Q'), HostKey::F(1), HostKey::Char('W')];
    let now = [HostKey::Char('W'), HostKey::Char('E'), HostKey::Escape];
    assert_eq!(keys_not_held(&before, &now), vec![HostKey::Char('Q'), HostKey::F(1)]);
    assert_eq!(keys_not_held(&now, &before), vec![HostKey::Char('E'), HostKey::Escape]);
    assert!(keys_not_held(&now, &now).is_empty());
    assert_eq!(keys_not_held(&now, &[]), now.to_vec());
}
