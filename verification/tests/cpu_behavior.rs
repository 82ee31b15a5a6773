//! Tests of the remaining instructions, of ticking, and of the CPU's public API.

use chirp::cpu::CPU;
use chirp::error::Error;
use chirp::{AutoCast, Flags, Grab, Screen};
use rand::random;

/// A program of jumps, each to the next instruction: `1202`, `1204`, `1206`, ...
fn jump_chain() -> Vec<u8> {
    let mut rom = Vec::new();
    let mut addr: u16 = 0x202;
    while addr < 0x280 {
        rom.push(0x10 | (addr >> 8) as u8);
        rom.push(addr as u8);
        addr += 2;
    }
    rom
}

fn setup_environment() -> (CPU, Screen) {
    let mut cpu = CPU::default();
    cpu.flags = Flags {
        debug: true,
        pause: false,
        monotonic: Some(8),
        ..Default::default()
    };
    cpu.load_program_bytes(&jump_chain()).unwrap();
    (cpu, Screen::default())
}

#[test]
fn ins_5xyn() {
    let (mut cpu, mut screen) = setup_environment();
    cpu.memory_mut().write(0x200, 0x500fu16);
    cpu.tick(&mut screen).expect_err("0x500f is not an instruction");
}

#[test]
fn ins_8xyn() {
    let (mut cpu, mut screen) = setup_environment();
    cpu.memory_mut().write(0x200, 0x800fu16);
    cpu.tick(&mut screen).expect_err("0x800f is not an instruction");
}

#[test]
fn ins_9xyn() {
    let (mut cpu, mut screen) = setup_environment();
    cpu.memory_mut().write(0x200, 0x900fu16);
    cpu.tick(&mut screen).expect_err("0x900f is not an instruction");
}

#[test]
fn ins_exbb() {
    let (mut cpu, mut screen) = setup_environment();
    cpu.memory_mut().write(0x200, 0xe00fu16);
    cpu.tick(&mut screen).expect_err("0xe00f is not an instruction");
}

#[test]
fn ins_fxbb() {
    let (mut cpu, mut screen) = setup_environment();
    cpu.memory_mut().write(0x200, 0xf00fu16);
    cpu.tick(&mut screen).expect_err("0xf00f is not an instruction");
}

/// 00e0: Clears the screen memory to 0
#[test]
fn clear_screen() {
    let (cpu, _) = setup_environment();
    let mut screen = Screen::from_bytes(&[0xa5; 0x100]);
    cpu.clear_screen(&mut screen);
    screen.as_slice().iter().for_each(|byte| assert_eq!(*byte, 0));
}

/// 00ee: Returns from subroutine
#[test]
fn tests_ret() {
    let test_addr = random::<u16>() & 0x7ff;
    let (mut cpu, _) = setup_environment();
    // Place the address on the stack
    cpu.jump(test_addr);
    cpu.call(0x300);

    cpu.ret();

    // Verify the current address is the address from the stack
    assert_eq!(test_addr, cpu.pc());
}

/// 1aaa: Sets the program counter to an absolute address
#[test]
fn jump() {
    let (mut cpu, _) = setup_environment();
    // Test all valid addresses
    for addr in 0x000..0xffe {
        // Jump to an address
        cpu.jump(addr);
        // Verify the current address is the jump target address
        assert_eq!(addr, cpu.pc());
    }
}

/// 2aaa: Pushes pc onto the stack, then jumps to a
#[test]
fn call() {
    let test_addr = random::<u16>();
    let (mut cpu, _) = setup_environment();
    // Save the current address
    let curr_addr = cpu.pc();
    // Call an address
    cpu.call(test_addr);
    // Verify the current address is the called address
    assert_eq!(test_addr, cpu.pc());
    // Verify the previous address was stored on the stack
    cpu.ret();
    assert_eq!(cpu.pc(), curr_addr);
}

/// 3xbb: Skips the next instruction if register X == b
#[test]
fn skip_equals_immediate() {
    let (mut cpu, _) = setup_environment();
    for word in 0..=0xffffu32 {
        let (a, b, addr) = (word as u8, (word >> 4) as u8, random::<u16>() & 0x7fe);
        for x in 0..=0xf {
            // set the PC to a random address
            cpu.jump(addr);

            cpu.set_v(x, a).unwrap();

            cpu.skip_equals_immediate(x, b);

            assert_eq!(cpu.pc(), addr.wrapping_add(if a == b { 2 } else { 0 }));
        }
    }
}

/// 4xbb: Skips the next instruction if register X != b
#[test]
fn skip_not_equals_immediate() {
    let (mut cpu, _) = setup_environment();
    for word in 0..=0xffffu32 {
        let (a, b, addr) = (word as u8, (word >> 4) as u8, random::<u16>() & 0x7fe);
        for x in 0..=0xf {
            // set the PC to a random address
            cpu.jump(addr);

            cpu.set_v(x, a).unwrap();

            cpu.skip_not_equals_immediate(x, b);

            assert_eq!(cpu.pc(), addr.wrapping_add(if a != b { 2 } else { 0 }));
        }
    }
}

/// 5xy0: Skips the next instruction if register X == register Y
#[test]
fn skip_equals() {
    let (mut cpu, _) = setup_environment();
    for word in 0..=0xffffu32 {
        let (a, b, addr) = (word as u8, (word >> 4) as u8, random::<u16>() & 0x7fe);
        for reg in 0..=0xff {
            let (x, y) = (reg & 0xf, reg >> 4);
            if x == y {
                continue;
            }
            // set the PC to a random address
            cpu.jump(addr);

            cpu.set_v(x, a).unwrap();
            cpu.set_v(y, b).unwrap();

            cpu.skip_equals(x, y);

            assert_eq!(cpu.pc(), addr.wrapping_add(if a == b { 2 } else { 0 }));
        }
    }
}

/// 9xy0: Skip next instruction if X != y
#[test]
fn skip_not_equals() {
    let (mut cpu, _) = setup_environment();
    for word in 0..=0xffffu32 {
        let (a, b, addr) = (word as u8, (word >> 4) as u8, random::<u16>() & 0x7fe);
        for reg in 0..=0xff {
            let (x, y) = (reg & 0xf, reg >> 4);
            if x == y {
                continue;
            }
            // set the PC to a random address
            cpu.jump(addr);

            cpu.set_v(x, a).unwrap();
            cpu.set_v(y, b).unwrap();

            cpu.skip_not_equals(x, y);

            assert_eq!(cpu.pc(), addr.wrapping_add(if a != b { 2 } else { 0 }));
        }
    }
}

/// Badr: Jump to &adr + v0
#[test]
fn jump_indexed() {
    let (mut cpu, _) = setup_environment();
    // For every valid address
    for addr in 0..0x1000u16 {
        // For every valid offset
        for v0 in 0..=0xffu8 {
            // set v[0] = v0
            cpu.set_v(0, v0).unwrap();

            cpu.jump_indexed(addr);

            assert_eq!(cpu.pc(), addr.wrapping_add(v0.into()));
        }
    }
}

/// Tests `stupid_jumps` Quirk behavior
#[test]
fn jump_stupid() {
    let (mut cpu, _) = setup_environment();
    cpu.flags.quirks.stupid_jumps = true;

    //set v[0..F] to 0123456789abcdef
    for i in 0..0x10 {
        cpu.set_v(i, i as u8).unwrap();
    }
    for reg in 0..0x10u16 {
        // attempts to jump to 0x`reg`00 + 0
        cpu.jump_indexed(reg * 0x100);
        // jumps to 0x`reg`00 + v`reg` instead
        assert_eq!(cpu.pc(), reg * 0x101);
    }
}

/// 6xbb: Loads immediate byte b into register vX
#[test]
fn load_immediate() {
    let (mut cpu, _) = setup_environment();
    for test_register in 0x0..=0xf {
        for test_byte in 0x0..=0xffu8 {
            cpu.load_immediate(test_register, test_byte);
            assert_eq!(cpu.v()[test_register], test_byte)
        }
    }
}

/// 7xbb: Adds immediate byte b to register vX
#[test]
fn add_immediate() {
    let (mut cpu, _) = setup_environment();
    for test_register in 0x0..=0xf {
        let mut sum = 0u8;
        for test_byte in 0x0..=0xffu8 {
            // Note: Chip-8 allows unsigned overflow
            sum = sum.wrapping_add(test_byte);

            cpu.add_immediate(test_register, test_byte);

            assert_eq!(cpu.v()[test_register], sum);
        }
    }
}

/// Cxbb: Stores a random number & the provided byte into vX
#[test]
fn tests_rand() {
    let (mut cpu, _) = setup_environment();
    for xb in 0..0x100fffusize {
        let (x, b) = ((xb >> 8) % 16, xb as u8);
        cpu.set_v(x, 0).unwrap();
        cpu.rand(x, b);
        // We don't know what the number will be,
        // but we do know it'll be <= b
        assert!(cpu.v()[x] <= b);
    }
}

/// Fx0A: Wait for key, then vX = K
///
/// The write happens on key *release*
#[test]
fn tests_wait_for_key() {
    let (mut cpu, _) = setup_environment();
    for key in 0..0xf {
        for x in 0..0xf {
            cpu.set_v(x, 0xff).unwrap();
            cpu.wait_for_key(x);
            assert!(cpu.flags.keypause);
            assert_eq!(0xff, cpu.v()[x]);
            // There are three parts to a button press
            // When the button is pressed
            assert!(cpu.press(key).expect("Key should be pressed"));
            assert!(!cpu.press(key).expect("Key shouldn't be pressed again"));
            assert!(cpu.flags.keypause);
            assert_eq!(0xff, cpu.v()[x]);
            // When the button is held
            cpu.wait_for_key(x);
            assert!(cpu.flags.keypause);
            assert_eq!(0xff, cpu.v()[x]);
            // And when the button is released!
            assert!(cpu.release(key).expect("Key should be released"));
            assert!(!cpu.release(key).expect("Key shouldn't be released again"));
            assert!(!cpu.flags.keypause);
            assert_eq!(Some(key), cpu.flags.lastkey);
            cpu.wait_for_key(x);
            assert_eq!(key as u8, cpu.v()[x]);
        }
    }
}

/// Fx07: Get the current DT, and put it in vX
#[test]
fn get_delay_timer() {
    let (mut cpu, _) = setup_environment();
    for word in 0..=0xffu8 {
        for x in 0..=0xf {
            // set the delay timer to `word`
            cpu.set_v(0xf, word).unwrap();
            cpu.store_delay_timer(0xf);

            cpu.load_delay_timer(x);

            assert_eq!(cpu.v()[x], word);
        }
    }
}

/// Fx29: Load sprite for character vX into I
#[test]
fn tests_load_sprite() {
    let tests: [(u8, [u8; 5]); 16] = [
        (0x0, [0xf0, 0x90, 0x90, 0x90, 0xf0]),
        (0x1, [0x20, 0x60, 0x20, 0x20, 0x70]),
        (0x2, [0xf0, 0x10, 0xf0, 0x80, 0xf0]),
        (0x3, [0xf0, 0x10, 0xf0, 0x10, 0xf0]),
        (0x4, [0x90, 0x90, 0xf0, 0x10, 0x10]),
        (0x5, [0xf0, 0x80, 0xf0, 0x10, 0xf0]),
        (0x6, [0xf0, 0x80, 0xf0, 0x90, 0xf0]),
        (0x7, [0xf0, 0x10, 0x20, 0x40, 0x40]),
        (0x8, [0xf0, 0x90, 0xf0, 0x90, 0xf0]),
        (0x9, [0xf0, 0x90, 0xf0, 0x10, 0xf0]),
        (0xa, [0xf0, 0x90, 0xf0, 0x90, 0x90]),
        (0xb, [0xe0, 0x90, 0xe0, 0x90, 0xe0]),
        (0xc, [0xf0, 0x80, 0x80, 0x80, 0xf0]),
        (0xd, [0xe0, 0x90, 0x90, 0x90, 0xe0]),
        (0xe, [0xf0, 0x80, 0xf0, 0x80, 0xf0]),
        (0xf, [0xf0, 0x80, 0xf0, 0x80, 0x80]),
    ];
    let (mut cpu, _) = setup_environment();
    for (input, output) in tests {
        let reg = 0xf & random::<usize>();
        // load number into CPU register
        cpu.set_v(reg, input).unwrap();

        cpu.load_sprite(reg);

        let addr = cpu.i() as usize;
        assert_eq!(
            cpu.memory()
                .grab(addr..addr.wrapping_add(5))
                .expect("Region at addr should exist!"),
            output,
        );
    }
}

/// Fx33: BCD convert X into I`[0..3]`
#[test]
fn tests_bcd_convert() {
    let tests: [(u8, [u8; 3]); 3] = [(0, [0, 0, 0]), (255, [2, 5, 5]), (127, [1, 2, 7])];
    for (input, output) in tests {
        let (mut cpu, _) = setup_environment();
        let addr = 0xff0 & random::<u16>() as usize;
        // load CPU registers
        cpu.load_i_immediate(addr as u16);
        cpu.set_v(5, input).unwrap();

        cpu.bcd_convert(5);

        assert_eq!(cpu.memory().grab(addr..addr.saturating_add(3)), Some(&output[..]))
    }
}

/// Busy-waits for a sixtieth of a second.
fn wait_a_frame() {
    let start = std::time::Instant::now();
    while start.elapsed() < std::time::Duration::from_micros(16_667) {}
}

#[test]
fn delay() {
    let (mut cpu, mut screen) = setup_environment();
    cpu.flags.monotonic = None;
    cpu.set_v(0, 10).unwrap();
    cpu.store_delay_timer(0);
    for _ in 0..2 {
        cpu.multistep(&mut screen, 8)
            .expect("Running valid instructions should always succeed");
        wait_a_frame();
    }
    // time is within 1 frame deviance over a theoretical 2 frame pause
    assert!(7 <= cpu.delay() && cpu.delay() <= 9);
}

#[test]
fn sound() {
    let (mut cpu, mut screen) = setup_environment();
    cpu.flags.monotonic = None; // disable monotonic timing
    cpu.set_v(0, 10).unwrap();
    cpu.store_sound_timer(0);
    for _ in 0..2 {
        cpu.multistep(&mut screen, 8)
            .expect("Running valid instructions should always succeed");
        wait_a_frame();
    }
    // time is within 1 frame deviance over a theoretical 2 frame pause
    assert!(7 <= cpu.sound() && cpu.sound() <= 9);
}

#[test]
fn vbi_wait() {
    let (mut cpu, mut screen) = setup_environment();
    cpu.flags.monotonic = None; // disable monotonic timing
    cpu.flags.draw_wait = true;
    for _ in 0..2 {
        cpu.multistep(&mut screen, 8)
            .expect("Running valid instructions should always succeed");
        wait_a_frame();
    }
    // Display wait is disabled after a 1 frame pause
    assert!(!cpu.flags.draw_wait);
}

#[test]
fn hit_break() {
    let (mut cpu, mut screen) = setup_environment();
    cpu.set_break(0x202);
    match cpu.multistep(&mut screen, 10) {
        Err(Error::BreakpointHit { addr, next }) => {
            assert_eq!(0x202, addr); // current address is 202
            assert_eq!(0x1204, next); // next insn is `jmp 204`
        }
        other => unreachable!("{:?}", other.map(|_| ())),
    }
    assert!(cpu.flags.pause);
    assert_eq!(0x202, cpu.pc());
}

#[test]
fn hit_break_singlestep() {
    let (mut cpu, mut screen) = setup_environment();
    cpu.set_break(0x202);
    match cpu.singlestep(&mut screen) {
        Err(Error::BreakpointHit { addr, next }) => {
            assert_eq!(0x202, addr); // current address is 202
            assert_eq!(0x1204, next); // next insn is `jmp 204`
        }
        other => unreachable!("{:?}", other.map(|_| ())),
    }
    assert!(cpu.flags.pause);
    assert_eq!(0x202, cpu.pc());
}

#[test]
fn invalid_pc() {
    let (mut cpu, mut screen) = setup_environment();
    // The memory extends from 0x0..0x1000
    cpu.jump(0xfff);
    match cpu.tick(&mut screen) {
        Err(Error::InvalidAddressRange { range }) => {
            assert_eq!(range.range(), Some(0xfff..0x1001));
        }
        other => unreachable!("{:?}", other.map(|_| ())),
    }
}

#[test]
fn set_break() {
    let mut cpu = CPU::default();
    let point = 0x234;
    assert_eq!(cpu.breakpoints(), &[]);
    // Attempt to set the same breakpoint 100 times
    for _ in 0..100 {
        cpu.set_break(point);
    }
    assert_eq!(cpu.breakpoints(), &[point]);
}

#[test]
fn unset_break() {
    let mut cpu = CPU::default();
    let point = 0x234;
    // set TWO breakpoints
    cpu.set_break(point + 1);
    cpu.set_break(point);
    assert_eq!(cpu.breakpoints(), &[point + 1, point]);
    // Attempt to unset the same breakpoint 100 times
    for _ in 0..100 {
        cpu.unset_break(point);
    }
    // Only unset the matching point
    assert_eq!(cpu.breakpoints(), &[point + 1]);
}

#[test]
fn press_invalid_key() {
    let mut cpu = CPU::default();
    let cpu2 = cpu.clone();
    cpu.press(0x21345134)
        .expect_err("This should produce an Error::InvalidKey");
    // no change has been made, everything is safe.
    assert_eq!(cpu, cpu2);
}

#[test]
fn release_invalid_key() {
    let mut cpu = CPU::default();
    let cpu2 = cpu.clone();
    cpu.release(0x21345134)
        .expect_err("This should produce an Error::InvalidKey");
    // no change has been made, everything is safe.
    assert_eq!(cpu, cpu2);
}

#[test]
fn set_invalid_reg() {
    let mut cpu = CPU::default();
    let cpu2 = cpu.clone();
    cpu.set_v(0x21345134, 0xff)
        .expect_err("This should produce an Error::InvalidRegister");
    // no change has been made
    assert_eq!(cpu, cpu2);
}
