//! The memories: the CPU's regions, the buses, and the memory chips.

use chirp::bus::bus_device::BusDevice;
use chirp::bus::{self, BusConnectible, Read, Write};
use chirp::cpu::bus::{read::ReadWrite, Bus, Region as BusRegion};
use chirp::cpu::mem::{Mem, Region};
use chirp::dump::Dumpable;
use chirp::{AutoCast, FallibleAutoCast, Grab, Screen};

#[test]
fn mem_regions() {
    let mut mem = Mem::new()
        .add_region_owned(Region::Charset, 0..10)
        .add_region_owned(Region::Program, 10..20);
    assert_eq!(mem.len(), 20);
    assert!([0; 10].as_slice() == mem.get_region(Region::Program).unwrap());
    mem.load_region(Region::Program, b"Hello").unwrap();
    assert_eq!(&mem.get_region(Region::Program).unwrap()[..5], b"Hello");
    mem.clear_region(Region::Program);
    assert_eq!(mem.get_region(Region::Program).unwrap(), &[0; 10]);
    mem.get_region_mut(Region::Charset).unwrap()[3] = 7;
    assert_eq!(mem.read_byte(3), 7);
    assert!(mem.get_region(Region::Count).is_none());
    // growing never truncates
    mem.with_size(4);
    assert_eq!(mem.len(), 20);
    mem.with_size(40);
    assert_eq!(mem.len(), 40);
}

#[test]
fn mem_write_then_read() {
    let mut mem = Mem::new().add_region_owned(Region::Program, 0..0x10);
    mem.write_byte(3, 0x99);
    assert_eq!(mem.read_byte(3), 0x99);
    mem.write_byte(0x20, 0x99);
    assert_eq!(mem.read_byte(0x20), 0);
    mem.write(4, 0x1234u16);
    assert_eq!(mem.read(4), 0x1234u16);
    assert_eq!(mem.grab(4..6).unwrap(), &[0x12, 0x34]);
    assert!(mem.read_fallible(0xf).is_err());
    assert!(mem.write_bytes(0xe, &[1, 2, 3]).is_err());
}

#[test]
fn screen_words() {
    let mut screen = Screen::new(8);
    screen.write(6, 0xbeefu16);
    assert_eq!(screen.read(6), 0xbeefu16);
    assert_eq!(screen.read(7), 0u16);
    screen.with_size(4);
    assert_eq!(screen.len(), 8);
}

#[test]
fn cpu_bus_regions() {
    let mut bus = Bus::new()
        .add_region_owned(BusRegion::Screen, 0x000..0x100)
        .add_region_owned(BusRegion::Program, 0x100..0x110)
        .load_region_owned(BusRegion::Program, b"ABC");
    assert_eq!(bus.len(), 0x110);
    assert_eq!(&bus.get_region(BusRegion::Program).unwrap()[..3], b"ABC");
    bus.write(0x10, 0xf0f0u16);
    assert_eq!(bus.read(0x10), 0xf0f0u16);
    let text = bus.print_screen().unwrap();
    assert_eq!(text.lines().count(), 32);
    assert!(matches!(
        Bus::new().print_screen(),
        Err(chirp::Error::MissingRegion { region: BusRegion::Screen })
    ));
    assert_eq!(BusRegion::Stack.name(), "Stack");
}

#[test]
#[should_panic]
fn bus_missing_region() {
    // Print the screen of a bus with no screen
    Bus::new()
        .add_region_owned(BusRegion::Program, 0..10)
        .print_screen()
        .unwrap();
}

#[test]
fn old_bus_regions() {
    let mut bus = bus::Bus::new()
        .add_region(bus::Region::Stack, 0x0000..0x0800)
        .load_region(bus::Region::Stack, b"ABCDEF")
        .add_region(bus::Region::Screen, 0x800..0x900);
    assert_eq!(bus.len(), 0x900);
    assert_eq!(&bus.get_region(bus::Region::Stack).unwrap()[..6], b"ABCDEF");
    let byte: u8 = bus.read(0);
    assert_eq!(byte, b'A');
    let word: u16 = bus.read(0);
    assert_eq!(word, 0x4142);
    let missing: u8 = bus.read(0x1000);
    assert_eq!(missing, 0xc5);
    bus.write(2, 0x1234u16);
    let word: u16 = bus.read(2);
    assert_eq!(word, 0x1234);
    bus.clear_region(bus::Region::Stack);
    assert_eq!(bus.get(0..4).unwrap(), &[0, 0, 0, 0]);
    assert_eq!(bus.print_screen().unwrap().lines().count(), 32);
    assert_eq!(bus::Region::Charset.name(), "charset");
    let mut iter = bus::iterator::BusIterator::new(0..2, &bus);
    assert_eq!(iter.next(), Some(0));
    assert_eq!(iter.next(), Some(0));
    assert_eq!(iter.next(), None);
}

#[test]
fn memory_chip() {
    let mem = chirp::mem::Mem::new(0x100).load(0x10, b"hello").load_charset(0x50);
    assert_eq!(mem.len(), 0x100);
    assert_eq!(mem.read_at(0x10), Some(b'h'));
    assert_eq!(mem.read_at(0x50), Some(0xf0));
    assert_eq!(mem.read_at(0x100), None);
    let mut locked = mem.clone().r(false).w(false);
    assert_eq!(locked.read_at(0x10), None);
    locked.write_to(0x10, 0);
    let mut open = locked.r(true).w(true);
    assert_eq!(open.read_at(0x10), Some(b'h'));
    open.write_to(0x10, b'j');
    assert_eq!(open.read_at(0x10), Some(b'j'));
    let window = open.window(0x10..0x12).text();
    assert_eq!(window, "000: 6a65 ");
    assert_eq!(open.dump(0x10..0x12), "Mem 10..12: 000: 6a65 ");
}

#[test]
fn bus_device_translates() {
    let chip = chirp::mem::Mem::new(0x10).load(0, b"xyz");
    let mut device = BusDevice::new("chip", 0x100..0x10, Box::new(chip));
    assert_eq!(device.translate_address(0x101), Some(1));
    assert_eq!(device.translate_address(0x120), None);
    assert_eq!(device.read_at(0x102), Some(b'z'));
    device.write_to(0x100, b'w');
    assert_eq!(device.read_at(0x100), Some(b'w'));
}

#[test]
fn empty_defaults() {
    assert_eq!(Bus::default(), Bus::new());
    assert!(Bus::default().is_empty());
    assert_eq!(Mem::default(), Mem::new());
    assert!(Mem::default().get_region(Region::Program).is_none());
    assert_eq!(bus::Bus::default(), bus::Bus::new());
    assert!(matches!(
        bus::Bus::new().print_screen(),
        Err(chirp::Error::MissingRegion { region: BusRegion::Screen })
    ));
    assert_eq!(
        chirp::cpu::disassemble::DisassembleBuilder::default(),
        chirp::cpu::disassemble::Disassemble::builder()
    );
    assert_eq!(chirp::Dis::default(), chirp::Dis::default());
}
