use chirp::cpu::instruction::Insn;
use chirp::tree::{DisNode, DisNodeContents};
use std::collections::BTreeMap;

/// A 4 KiB memory with `program` at 0x200.
fn memory(program: &[u8]) -> Vec<u8> {
    let mut mem = vec![0u8; 0x1000];
    mem[0x200..0x200 + program.len()].copy_from_slice(program);
    mem
}

// mov #01, v0; se #01, v0; call 208; jmp 206; ret
const PROGRAM: [u8; 10] = [0x60, 0x01, 0x30, 0x01, 0x22, 0x08, 0x12, 0x06, 0x00, 0xee];

fn text(insn: Insn) -> String {
    insn.to_string()
}

#[test]
fn tree_follows_branches() {
    let mem = memory(&PROGRAM);
    let mut nodes = BTreeMap::new();
    let root = DisNode::traverse(&mem, &mut nodes, 0x200);

    let mov = Insn::movb { B: 1, x: 0 };
    let se = Insn::seb { B: 1, x: 0 };
    let call = Insn::call { A: 0x208 };
    let jmp = Insn::jmp { A: 0x206 };
    let ret_insn = Insn::ret;

    let expected: BTreeMap<usize, Insn> =
        [(0x200, mov), (0x202, se), (0x204, call), (0x206, jmp), (0x208, ret_insn)].into_iter().collect();
    assert_eq!(nodes, expected);

    assert_eq!((root.addr, root.depth), (0x200, 0));
    let DisNodeContents::Continue { insn, next } = &root.contents else {
        panic!("expected the way on from 200, got {:?}", root.contents)
    };
    assert_eq!(*insn, mov);
    let DisNodeContents::Branch { insn, next, jump } = &next.contents else {
        panic!("expected the skip at 202, got {:?}", next.contents)
    };
    assert_eq!(*insn, se);
    // the skip target was reached through the call first: it merges back
    assert_eq!((jump.addr, jump.depth), (0x206, 1));
    assert!(matches!(jump.contents, DisNodeContents::Merge { insn, back: Some(0x206) } if insn == jmp));
    let DisNodeContents::Branch { insn, next, jump } = &next.contents else {
        panic!("expected the call at 204, got {:?}", next.contents)
    };
    assert_eq!(*insn, call);
    assert_eq!((jump.addr, jump.depth), (0x208, 1));
    assert!(matches!(jump.contents, DisNodeContents::End { insn } if insn == ret_insn));
    assert_eq!((next.addr, next.depth), (0x206, 0));
    assert!(matches!(next.contents, DisNodeContents::End { insn } if insn == jmp));

    assert_eq!(
        root.to_string(),
        format!(
            "\n0200: {}\n0202: {}\n0206: │  {}; ...\n0204: {}\n0208: │  {}\n0206: {}",
            text(mov),
            text(se),
            text(jmp),
            text(call),
            text(ret_insn),
            text(jmp)
        )
    );
}

#[test]
fn tree_invalid_and_relative() {
    let mem = memory(&[0xb3, 0x00]);
    let mut nodes = BTreeMap::new();
    let root = DisNode::traverse(&mem, &mut nodes, 0x200);
    assert!(matches!(root.contents, DisNodeContents::RelBranch { insn: Insn::jmpr { A: 0x300 } }));
    assert_eq!(nodes.len(), 1);

    // 0000 is no instruction
    let mut nodes = BTreeMap::new();
    let root = DisNode::traverse(&mem, &mut nodes, 0x400);
    assert!(matches!(root.contents, DisNodeContents::Invalid));
    assert!(nodes.is_empty());
    assert_eq!(root.to_string(), "\n0400: Invalid");

    // one byte short of an instruction at the end of memory
    let root = DisNode::traverse(&mem[..0x201], &mut nodes, 0x200);
    assert!(matches!(root.contents, DisNodeContents::Invalid));
}

#[test]
fn tree_loop_merges() {
    // add #01, v0; jmp 200
    let mem = memory(&[0x70, 0x01, 0x12, 0x00]);
    let mut nodes = BTreeMap::new();
    let root = DisNode::traverse(&mem, &mut nodes, 0x200);
    let DisNodeContents::Continue { next, .. } = &root.contents else { panic!() };
    let DisNodeContents::Continue { next, .. } = &next.contents else { panic!() };
    // the jump back reaches 200 before its node is complete
    assert!(matches!(next.contents, DisNodeContents::Merge { back: None, .. }));
    assert_eq!(nodes.len(), 2);
}
