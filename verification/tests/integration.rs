//! The derived traits of the regions of the CPU's bus
use chirp::cpu::bus::Region::{self, Charset, Count, Program, Screen, Stack};
use std::collections::hash_map::DefaultHasher;
use std::hash::Hash;

#[test]
fn copy() {
    let r1 = Screen;
    let r2 = r1;
    assert_eq!(r1, r2);
}

#[test]
#[allow(clippy::clone_on_copy)]
fn integration_clone() {
    let r1 = Screen;
    let r2 = r1.clone();
    assert_eq!(r1, r2);
}

#[test]
fn display() {
    println!(
        "{}{}{}{}{}",
        Charset.name(),
        Program.name(),
        Screen.name(),
        Stack.name(),
        Count.name()
    );
    assert_eq!(Charset.name(), "Charset");
    assert_eq!(Program.name(), "Program");
    assert_eq!(Screen.name(), "Screen");
    assert_eq!(Stack.name(), "Stack");
    assert_eq!(Count.name(), "");
}

#[test]
fn integration_debug() {
    println!("{Charset:?}{Program:?}{Screen:?}{Stack:?}{Count:?}");
}

#[test]
fn integration_eq() {
    assert_eq!(Screen, Screen);
    assert_ne!(Charset, Program);
}

#[test]
fn integration_ord() {
    assert_eq!(Stack, Charset.max(Program).max(Screen).max(Stack));
    assert!(Charset < Program && Program < Screen && Screen < Stack);
}

#[test]
fn integration_hash() {
    let mut hasher = DefaultHasher::new();
    Stack.hash(&mut hasher);
    println!("{hasher:?}");
    let _: Region = Stack;
}
