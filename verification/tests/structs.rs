//! The derived and converting traits of the CPU's settings and errors
use chirp::cpu::bus::Region;
use chirp::error::Error;
use chirp::{Flags, Quirks};
use std::collections::hash_map::DefaultHasher;
use std::hash::Hash;

#[test]
fn integration_from_true() {
    let quirks_true = Quirks::from(true);
    assert_eq!(
        quirks_true,
        Quirks {
            bin_ops: true,
            shift: true,
            draw_wait: true,
            screen_wrap: false,
            dma_inc: true,
            stupid_jumps: false,
        }
    )
}

#[test]
fn integration_from_false() {
    let quirks_true = Quirks::from(false);
    assert_eq!(
        quirks_true,
        Quirks {
            bin_ops: false,
            shift: false,
            draw_wait: false,
            screen_wrap: false,
            dma_inc: false,
            stupid_jumps: false,
        }
    )
}

#[test]
fn struct_from_true() {
    let quirks_true = Quirks::from(true);
    assert_eq!(
        quirks_true,
        Quirks {
            bin_ops: true,
            shift: true,
            draw_wait: true,
            screen_wrap: false,
            dma_inc: true,
            stupid_jumps: false,
        }
    )
}

#[test]
fn struct_from_false() {
    let quirks_true = Quirks::from(false);
    assert_eq!(
        quirks_true,
        Quirks {
            bin_ops: false,
            shift: false,
            draw_wait: false,
            screen_wrap: false,
            dma_inc: false,
            stupid_jumps: false,
        }
    )
}

#[test]
#[allow(clippy::clone_on_copy)]
fn struct_clone() {
    let q1 = Quirks {
        bin_ops: false,
        shift: true,
        draw_wait: false,
        screen_wrap: false,
        dma_inc: true,
        stupid_jumps: false,
    };
    let q2 = q1.clone();
    assert_eq!(q1, q2);
}

#[test]
fn struct_debug() {
    println!("{:?}", Quirks::from(true));
}

#[test]
fn struct_eq() {
    assert_ne!(Quirks::from(false), Quirks::from(true));
}

#[test]
fn struct_ord() {
    assert!(Quirks::from(false) < Quirks::from(true));
    assert!(Quirks::from(true) == Quirks::from(false).max(Quirks::from(true)));
}

#[test]
fn struct_hash() {
    println!("{:?}", Quirks::from(true).hash(&mut DefaultHasher::new()));
}

#[test]
fn integration_default() {
    assert_eq!(
        Flags::default(),
        Flags { debug: false, pause: false, keypause: false, draw_wait: false, ..Default::default() }
    )
}

#[test]
fn integration_error() {
    let error = Error::MissingRegion { region: Region::Program };
    // Print it with its text and Debug
    println!("{} {error:?}", error.text());
    assert_eq!(error.text(), "region Program is not present on bus");
}
