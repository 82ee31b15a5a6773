//! Unit tests for the instructions of the CPU: they run instructions, and check the
//! registers, memory and program counter against the expected results.

use chirp::cpu::CPU;
use chirp::{Flags, Grab};

/// A program of jumps, each to the next instruction: `1202`, `1204`, `1206`, ...
fn jump_chain() -> Vec<u8> {
    let mut rom = Vec::new();
    let mut addr: u16 = 0x202;
    while addr < 0x280 {
        rom.push(0x10 | (addr >> 8) as u8);
        rom.push(addr as u8);
        addr += 2;
    }
    rom
}

fn setup_environment() -> CPU {
    let mut cpu = CPU::default();
    cpu.flags = Flags {
        debug: true,
        pause: false,
        monotonic: Some(8),
        ..Default::default()
    };
    cpu.load_program_bytes(&jump_chain()).unwrap();
    cpu
}

fn set_keys(cpu: &mut CPU, keys: [bool; 16]) {
    for (key, held) in keys.iter().enumerate() {
        if *held {
            cpu.press(key).unwrap();
        } else {
            cpu.release(key).unwrap();
        }
    }
}

/// 8xy0: Loads the value of y into x
#[test]
fn load() {
    let mut cpu = setup_environment();
    // We use zero as a sentinel value for this test, so loop from 1 to 255
    for test_value in 1..=0xff {
        for reg in 0..=0xff {
            let (x, y) = (reg & 0xf, reg >> 4);
            if x == y {
                continue;
            }
            // Set vY to the test value
            cpu.set_v(y, test_value).unwrap();
            // zero X
            cpu.set_v(x, 0).unwrap();

            cpu.load(x, y);

            // verify results
            assert_eq!(cpu.v()[x], test_value);
            assert_eq!(cpu.v()[y], test_value);
        }
    }
}

/// 8xy1: Performs bitwise or of vX and vY, and stores the result in vX
#[test]
fn tests_or() {
    let mut cpu = setup_environment();
    for word in 0..=0xffffu32 {
        let (a, b) = (word as u8, (word >> 4) as u8);
        let expected_result = a | b;
        for reg in 0..=0xff {
            let (x, y) = (reg & 0xf, reg >> 4);

            cpu.set_v(0xf, 0xc5).unwrap(); // sentinel
            cpu.set_v(x, a).unwrap();
            cpu.set_v(y, b).unwrap();

            cpu.or(x, y);

            if x != 0xf {
                assert_eq!(cpu.v()[x], if x == y { b } else { expected_result });
            }
            assert_eq!(cpu.v()[0xf], 0);
        }
    }
}

/// Same test, with [Quirks::bin_ops] flag set
#[test]
fn or_quirk() {
    let mut cpu = setup_environment();
    cpu.flags.quirks.bin_ops = true;
    for word in 0..=0xffffu32 {
        let (a, b) = (word as u8, (word >> 4) as u8);
        let expected_result = a | b;
        for reg in 0..=0xff {
            let (x, y) = (reg & 0xf, reg >> 4);

            cpu.set_v(x, a).unwrap();
            cpu.set_v(y, b).unwrap();

            cpu.or(x, y);

            assert_eq!(cpu.v()[x], if x == y { b } else { expected_result });
        }
    }
}

/// 8xy2: Performs bitwise and of vX and vY, and stores the result in vX
#[test]
fn tests_and() {
    let mut cpu = setup_environment();
    for word in 0..=0xffffu32 {
        let (a, b) = (word as u8, (word >> 4) as u8);
        let expected_result = a & b;
        for reg in 0..=0xff {
            let (x, y) = (reg & 0xf, reg >> 4);

            cpu.set_v(0xf, 0xc5).unwrap(); // Sentinel
            cpu.set_v(x, a).unwrap();
            cpu.set_v(y, b).unwrap();

            cpu.and(x, y);
            if x != 0xf {
                assert_eq!(cpu.v()[x], if x == y { b } else { expected_result });
            }
            assert_eq!(cpu.v()[0xf], 0)
        }
    }
}

/// The same test with [Quirks::bin_ops] flag set
#[test]
fn and_quirk() {
    let mut cpu = setup_environment();
    cpu.flags.quirks.bin_ops = true;
    for word in 0..=0xffffu32 {
        let (a, b) = (word as u8, (word >> 4) as u8);
        let expected_result = a & b;
        for reg in 0..=0xff {
            let (x, y) = (reg & 0xf, reg >> 4);

            cpu.set_v(x, a).unwrap();
            cpu.set_v(y, b).unwrap();

            cpu.and(x, y);

            assert_eq!(cpu.v()[x], if x == y { b } else { expected_result });
        }
    }
}

/// 8xy3: Performs bitwise xor of vX and vY, and stores the result in vX
#[test]
fn tests_xor() {
    let mut cpu = setup_environment();
    for word in 0..=0xffffu32 {
        let (a, b) = (word as u8, (word >> 4) as u8);
        let expected_result = a ^ b;
        for reg in 0..=0xff {
            let (x, y) = (reg & 0xf, reg >> 4);

            cpu.set_v(0xf, 0xc5).unwrap(); // Sentinel
            cpu.set_v(x, a).unwrap();
            cpu.set_v(y, b).unwrap();

            cpu.xor(x, y);
            if x != 0xf {
                assert_eq!(cpu.v()[x], if x == y { 0 } else { expected_result });
            }
            assert_eq!(cpu.v()[0xf], 0);
        }
    }
}

/// The same test with [Quirks::bin_ops] flag set
#[test]
fn xor_quirk() {
    let mut cpu = setup_environment();
    cpu.flags.quirks.bin_ops = true;
    for word in 0..=0xffffu32 {
        let (a, b) = (word as u8, (word >> 4) as u8);
        let expected_result = a ^ b;
        for reg in 0..=0xff {
            let (x, y) = (reg & 0xf, reg >> 4);

            cpu.set_v(x, a).unwrap();
            cpu.set_v(y, b).unwrap();

            cpu.xor(x, y);

            assert_eq!(cpu.v()[x], if x == y { 0 } else { expected_result });
        }
    }
}

/// 8xy4: Performs addition of vX and vY, and stores the result in vX, carry in vF
///       If X is F, *only* stores borrow
#[test]
fn tests_add() {
    let mut cpu = setup_environment();
    for word in 0..=0xffffu32 {
        let (a, b) = (word as u8, (word >> 4) as u8);
        for reg in 0..=0xff {
            let (x, y) = (reg & 0xf, reg >> 4);
            // calculate the expected result
            // If x == y, a is discarded
            let (expected, carry) = if x == y { b } else { a }.overflowing_add(b);

            cpu.set_v(x, a).unwrap();
            cpu.set_v(y, b).unwrap();

            cpu.add(x, y);

            // if the destination is vF, the result was discarded, and only the carry was kept
            if x != 0xf {
                assert_eq!(cpu.v()[x], expected);
            }
            assert_eq!(cpu.v()[0xf], carry.into());
        }
    }
}

/// 8xy5: Performs subtraction of vX and vY, and stores the result in vX, borrow in vF
#[test]
fn tests_sub() {
    let mut cpu = setup_environment();
    for word in 0..=0xffffu32 {
        let (a, b) = (word as u8, (word >> 4) as u8);
        for reg in 0..=0xff {
            let (x, y) = (reg & 0xf, reg >> 4);
            // calculate the expected result
            let (expected, carry) = if x == y { b } else { a }.overflowing_sub(b);

            cpu.set_v(x, a).unwrap();
            cpu.set_v(y, b).unwrap();

            cpu.sub(x, y);

            // if the destination is vF, the result was discarded, and only the carry was kept
            if x != 0xf {
                assert_eq!(cpu.v()[x], expected);
            }
            // The borrow flag for subtraction is inverted
            assert_eq!(cpu.v()[0xf], (!carry).into());
        }
    }
}

/// 8xy6: Performs bitwise right shift of vX, stores carry-out in vF
#[test]
fn shift_right() {
    let mut cpu = setup_environment();
    for word in 0..=0xffu8 {
        for reg in 0..=0xff {
            let (x, y) = (reg & 0xf, reg >> 4);
            // set the register under test to `word`
            cpu.set_v(x, 0).unwrap();
            cpu.set_v(y, word).unwrap();

            cpu.shift_right(x, y);

            // if the destination is vF, the result was discarded, and only the carry was kept
            if x != 0xf {
                assert_eq!(cpu.v()[x], word >> 1);
            }
            assert_eq!(cpu.v()[0xf], word & 1);
        }
    }
}

/// The same test, with [Quirks::shift] quirk flag set
#[test]
fn shift_right_quirk() {
    let mut cpu = setup_environment();
    cpu.flags.quirks.shift = true;
    for word in 0..=0xffu8 {
        for reg in 0..=0xff {
            let (x, y) = (reg & 0xf, reg >> 4);
            // set the register under test to `word`
            cpu.set_v(x, word).unwrap();

            cpu.shift_right(x, y);

            // if the destination is vF, the result was discarded, and only the carry was kept
            if x != 0xf {
                assert_eq!(cpu.v()[x], word >> 1);
            }
            assert_eq!(cpu.v()[0xf], word & 1);
        }
    }
}

/// 8xy7: Performs subtraction of vY and vX, and stores the result in vX and ~carry in vF
#[test]
fn backwards_sub() {
    let mut cpu = setup_environment();
    for word in 0..=0xffffu32 {
        let (a, b) = (word as u8, (word >> 4) as u8);
        for reg in 0..=0xff {
            let (x, y) = (reg & 0xf, reg >> 4);
            // calculate the expected result
            let (expected, carry) = if x == y { a } else { b }.overflowing_sub(a);
            cpu.set_v(x, a).unwrap();
            cpu.set_v(y, b).unwrap();

            cpu.backwards_sub(x, y);

            // if the destination is vF, the result was discarded, and only the carry was kept
            if x != 0xf {
                assert_eq!(cpu.v()[x], expected);
            }
            // The borrow flag for subtraction is inverted
            assert_eq!(cpu.v()[0xf], (!carry).into());
        }
    }
}

/// 8xyE: Performs bitwise left shift of vY, stores carry-out in vF
#[test]
fn shift_left() {
    let mut cpu = setup_environment();
    for word in 1..=0xffu8 {
        for reg in 0..=0xff {
            let (x, y) = (reg & 0xf, reg >> 4);
            // set the register under test to `word`
            cpu.set_v(x, 0).unwrap();
            cpu.set_v(y, word).unwrap();

            cpu.shift_left(x, y);

            // if the destination is vF, the result was discarded, and only the carry was kept
            if x != 0xf {
                assert_eq!(cpu.v()[x], word << 1);
            }
            assert_eq!(cpu.v()[0xf], word >> 7);
        }
    }
}

/// 8X_E: Performs bitwise left shift of vX
#[test]
fn shift_left_quirk() {
    let mut cpu = setup_environment();
    cpu.flags.quirks.shift = true;
    for word in 0..=0xffu8 {
        for x in 0..=0xf {
            // set the register under test to `word`
            cpu.set_v(x, word).unwrap();

            cpu.shift_left(x, x);

            // if the destination is vF, the result was discarded, and only the carry was kept
            if x != 0xf {
                assert_eq!(cpu.v()[x], word << 1);
            }
            assert_eq!(cpu.v()[0xf], word >> 7);
        }
    }
}

/// Aadr: Load address #adr into register I
#[test]
fn load_i_immediate() {
    let mut cpu = setup_environment();
    for addr in 0..0x1000 {
        // Load indirect register
        cpu.load_i_immediate(addr);
        // Validate register set to addr
        assert_eq!(cpu.i(), addr);
    }
}

/// Fx1e: Add vX to I
#[test]
fn tests_add_i() {
    let mut cpu = setup_environment();
    // For every valid address
    for addr in 0..0x1000usize {
        // For every valid offset
        for x in 0..=0xfffusize {
            let (x, byte) = (x >> 8, x as u8);
            // set v[x] = byte
            cpu.load_i_immediate(addr as u16);
            cpu.set_v(x, byte).unwrap();
            // add vX to indirect register
            cpu.add_i(x);
            // Validate register set
            assert_eq!(cpu.i(), (addr + byte as usize) as u16)
        }
    }
}

/// Ex9E: Skip next instruction if key == #X
#[test]
fn tests_skip_key_equals() {
    let mut cpu = setup_environment();
    for ka in 0..=0x7fefu16 {
        let (key, addr) = ((ka & 0xf) as u8, ka >> 8);
        // positive test (no keys except key pressed)
        let mut keys = [false; 16]; // unset all keys
        keys[key as usize] = true; // except the one we care about
        set_keys(&mut cpu, keys);
        for x in 0..=0xf {
            cpu.jump(addr);
            cpu.set_v(x, key).unwrap();
            cpu.skip_key_equals(x);
            assert_eq!(cpu.pc(), addr.wrapping_add(2));
            cpu.set_v(x, 0xff).unwrap();
        }
        // negative test (all keys except key pressed)
        let mut keys = [true; 16]; // set all keys
        keys[key as usize] = false; // except the one we care about
        set_keys(&mut cpu, keys);
        for x in 0..=0xf {
            cpu.jump(addr);
            cpu.set_v(x, key).unwrap();
            cpu.skip_key_equals(x);
            assert_eq!(cpu.pc(), addr);
            cpu.set_v(x, 0xff).unwrap();
        }
    }
}

/// ExaE: Skip next instruction if key != #X
#[test]
fn tests_skip_key_not_equals() {
    let mut cpu = setup_environment();
    for ka in 0..=0x7fcfu16 {
        let (key, addr) = ((ka & 0xf) as u8, ka >> 8);
        // positive test (no keys except key pressed)
        let mut keys = [false; 16]; // unset all keys
        keys[key as usize] = true; // except the one we care about
        set_keys(&mut cpu, keys);
        for x in 0..=0xf {
            cpu.jump(addr);
            cpu.set_v(x, key).unwrap();
            cpu.skip_key_not_equals(x);
            assert_eq!(cpu.pc(), addr);
            cpu.set_v(x, 0xff).unwrap();
        }
        // negative test (all keys except key pressed)
        let mut keys = [true; 16]; // set all keys
        keys[key as usize] = false; // except the one we care about
        set_keys(&mut cpu, keys);
        for x in 0..=0xf {
            cpu.jump(addr);
            cpu.set_v(x, key).unwrap();
            cpu.skip_key_not_equals(x);
            assert_eq!(cpu.pc(), addr.wrapping_add(2));
            cpu.set_v(x, 0xff).unwrap();
        }
    }
}

/// Fx15: Load vX into DT
#[test]
fn tests_load_delay_timer() {
    let mut cpu = setup_environment();
    for word in 0..=0xffu8 {
        for x in 0..=0xf {
            // set the register under test to `word`
            cpu.set_v(x, word).unwrap();

            cpu.store_delay_timer(x);

            assert_eq!(cpu.delay(), word);
        }
    }
}

/// Fx18: Load vX into ST
#[test]
fn tests_store_sound_timer() {
    let mut cpu = setup_environment();
    for word in 0..=0xffu8 {
        for x in 0..=0xf {
            // set the register under test to `word`
            cpu.set_v(x, word).unwrap();

            cpu.store_sound_timer(x);

            assert_eq!(cpu.sound(), word);
        }
    }
}

/// Fx55: DMA Stor from I to registers 0..X
#[test]
fn dma_store() {
    let mut cpu = setup_environment();
    const DATA: &[u8] = b"ABCDEFGHIJKLMNOP";
    // Load some test data into memory
    let addr = 0x456;
    for (reg, byte) in DATA.iter().enumerate() {
        cpu.set_v(reg, *byte).expect("Loading test data should succeed");
    }
    for len in 0..16 {
        // Perform DMA store
        cpu.load_i_immediate(addr as u16);
        cpu.store_dma(len);
        // Check that bus grabbed the correct data
        let bus = cpu
            .memory_mut()
            .grab_mut(addr..addr + DATA.len())
            .expect("Getting a mutable slice at addr 0x0456 should not fail");
        assert_eq!(bus[0..=len], DATA[0..=len]);
        assert_eq!(bus[len + 1..], [0; 16][len + 1..]);
        // clear
        bus.fill(0);
    }
}

/// Fx65: DMA Load from I to registers 0..X
#[test]
fn dma_load() {
    let mut cpu = setup_environment();
    const DATA: &[u8] = b"ABCDEFGHIJKLMNOP";
    // Load some test data into memory
    let addr = 0x456;
    cpu.memory_mut()
        .grab_mut(addr..addr + DATA.len())
        .expect("Getting a mutable slice at addr 0x0456..0x0466 should not fail")
        .copy_from_slice(DATA);
    for len in 0..16 {
        // Perform DMA load
        cpu.load_i_immediate(addr as u16);
        cpu.load_dma(len);
        // Check that registers grabbed the correct data
        assert_eq!(cpu.v()[0..=len], DATA[0..=len]);
        assert_eq!(cpu.v()[len + 1..], [0; 16][len + 1..]);
        // clear
        for reg in 0..16 {
            cpu.set_v(reg, 0).unwrap();
        }
    }
}
