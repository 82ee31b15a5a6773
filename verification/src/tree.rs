//! The control-flow tree of a program: disassembly that follows jumps, calls and skips from
//! a starting address, instead of reading memory front to back.

use crate::cpu::instruction::{decode_nibbles, spec_decode, word_of, Insn};
use crate::text::{hex_text, push_hex, push_str};
use std::collections::{BTreeMap, HashSet};
use std::rc::Rc;
use vstd::prelude::*;
use vstd::slice::slice_subrange;

verus! {

broadcast use {vstd::std_specs::hash::group_hash_axioms, vstd::std_specs::btree::group_btree_axioms};

/// Represents the kinds of control flow an instruction can take
#[derive(Clone, Debug, Default)]
pub enum DisNodeContents {
    /// A call, with the subroutine and what follows its return
    Subroutine { insn: Insn, jump: Rc<DisNode>, ret: Rc<DisNode> },
    /// An instruction with two ways on: the next instruction, and the target of a call or
    /// the instruction a skip lands on
    Branch { insn: Insn, next: Rc<DisNode>, jump: Rc<DisNode> },
    /// An instruction with one way on
    Continue { insn: Insn, next: Rc<DisNode> },
    /// An instruction after which the program does not go on: a return, a halt, or a jump
    /// or call to itself
    End { insn: Insn },
    /// A jump relative to `v0`, whose target is not known before the program runs
    RelBranch { insn: Insn },
    /// An instruction reached before: the walk stops here. `back` is the address of the
    /// node it merges into, when that node was complete already.
    Merge { insn: Insn, back: Option<usize> },
    /// An instruction reached before, not yet resolved into a [DisNodeContents::Merge]
    PendingMerge { insn: Insn },
    /// Bytes that are not an instruction
    #[default]
    Invalid,
}

/// Represents the kinds of control flow an instruction can take
#[derive(Clone, Debug)]
pub struct DisNode {
    /// The control flow at this address
    pub contents: DisNodeContents,
    /// The address of the instruction
    pub addr: usize,
    /// How many calls and skips deep the instruction was reached
    pub depth: usize,
}

/// A node with no instruction in it.
pub open spec fn leaf(contents: DisNodeContents, addr: usize, depth: usize) -> DisNode {
    DisNode { contents, addr, depth }
}

/// Whether `insn` skips the instruction after it on some condition.
pub open spec fn is_skip(insn: Insn) -> bool {
    ||| insn is seb
    ||| insn is sneb
    ||| insn is se
    ||| insn is sne
    ||| insn is sek
}

/// The walk of the program in `mem` from `addr`, reached `depth` calls and skips deep, when
/// the addresses in `visited` were reached before and `nodes` records the instruction of
/// every node made so far: the tree from `addr`, and the reached addresses and the recorded
/// instructions afterwards.
///
/// An address that holds no instruction gives an [DisNodeContents::Invalid] node; one
/// reached before gives a [DisNodeContents::Merge]; a return, a halt, and a jump or call to
/// itself end the walk; a jump goes on at its target; a call goes to the subroutine (one
/// level deeper), then on after the call; a skip goes on at the next instruction, then at
/// the one after it (one level deeper); a jump relative to `v0` stops the walk; any other
/// instruction goes on at the next instruction. Every node with an instruction is recorded
/// in `nodes`, after the nodes below it.
///
/// There is no walk (`None`) when it would reach past the end of `mem`, and in cases that
/// do not arise while the reached addresses are a finite set of addresses of `mem` (see
/// [lemma_walk_defined]).
pub open spec fn walk(mem: Seq<u8>, visited: Set<usize>, nodes: Map<usize, Insn>, addr: usize, depth: usize) -> Option<
    (DisNode, Set<usize>, Map<usize, Insn>),
>
    decreases mem.len() - visited.len(),
{
    if addr > mem.len() {
        None
    } else {
        match spec_decode(mem.subrange(addr as int, mem.len() as int)) {
            Err(_) => Some((leaf(DisNodeContents::Invalid, addr, depth), visited, nodes)),
            Ok((len, insn)) => {
                if visited.contains(addr) {
                    let back = if nodes.contains_key(addr) {
                        Some(addr)
                    } else {
                        None
                    };
                    Some(
                        (
                            leaf(DisNodeContents::Merge { insn, back }, addr, depth),
                            visited,
                            nodes.insert(addr, insn),
                        ),
                    )
                } else {
                    let v0 = visited.insert(addr);
                    if !(visited.finite() && v0.len() <= mem.len() && depth < usize::MAX && addr
                        + len + 2 <= usize::MAX) {
                        None
                    } else {
                        let next_addr = (addr + len) as usize;
                        let end = Some(
                            (leaf(DisNodeContents::End { insn }, addr, depth), v0, nodes.insert(addr, insn)),
                        );
                        match insn {
                            Insn::ret | Insn::halt => end,
                            Insn::jmp { A } => {
                                if A as usize == addr {
                                    end
                                } else {
                                    match walk(mem, v0, nodes, A as usize, depth) {
                                        Some((next, v1, m1)) => Some(
                                            (
                                                leaf(
                                                    DisNodeContents::Continue { insn, next: Rc::new(next) },
                                                    addr,
                                                    depth,
                                                ),
                                                v1,
                                                m1.insert(addr, insn),
                                            ),
                                        ),
                                        None => None,
                                    }
                                }
                            },
                            Insn::call { A } => {
                                if A as usize == addr {
                                    end
                                } else {
                                    match walk(mem, v0, nodes, A as usize, (depth + 1) as usize) {
                                        Some((jump, v1, m1)) => {
                                            if !(v1.len() <= mem.len() && visited.len() < v1.len()) {
                                                None
                                            } else {
                                                match walk(mem, v1, m1, next_addr, depth) {
                                                    Some((next, v2, m2)) => Some(
                                                        (
                                                            leaf(
                                                                DisNodeContents::Branch {
                                                                    insn,
                                                                    next: Rc::new(next),
                                                                    jump: Rc::new(jump),
                                                                },
                                                                addr,
                                                                depth,
                                                            ),
                                                            v2,
                                                            m2.insert(addr, insn),
                                                        ),
                                                    ),
                                                    None => None,
                                                }
                                            }
                                        },
                                        None => None,
                                    }
                                }
                            },
                            Insn::jmpr { .. } => Some(
                                (
                                    leaf(DisNodeContents::RelBranch { insn }, addr, depth),
                                    v0,
                                    nodes.insert(addr, insn),
                                ),
                            ),
                            _ => {
                                if is_skip(insn) {
                                    match walk(mem, v0, nodes, next_addr, depth) {
                                        Some((next, v1, m1)) => {
                                            if !(v1.len() <= mem.len() && visited.len() < v1.len()) {
                                                None
                                            } else {
                                                match walk(
                                                    mem,
                                                    v1,
                                                    m1,
                                                    (next_addr + 2) as usize,
                                                    (depth + 1) as usize,
                                                ) {
                                                    Some((jump, v2, m2)) => Some(
                                                        (
                                                            leaf(
                                                                DisNodeContents::Branch {
                                                                    insn,
                                                                    next: Rc::new(next),
                                                                    jump: Rc::new(jump),
                                                                },
                                                                addr,
                                                                depth,
                                                            ),
                                                            v2,
                                                            m2.insert(addr, insn),
                                                        ),
                                                    ),
                                                    None => None,
                                                }
                                            }
                                        },
                                        None => None,
                                    }
                                } else {
                                    match walk(mem, v0, nodes, next_addr, depth) {
                                        Some((next, v1, m1)) => Some(
                                            (
                                                leaf(
                                                    DisNodeContents::Continue { insn, next: Rc::new(next) },
                                                    addr,
                                                    depth,
                                                ),
                                                v1,
                                                m1.insert(addr, insn),
                                            ),
                                        ),
                                        None => None,
                                    }
                                }
                            },
                        }
                    }
                }
            },
        }
    }
}

/// `depth` levels of indentation, each a bar and two spaces.
pub open spec fn indent_text(depth: nat) -> Seq<char>
    decreases depth,
{
    if depth == 0 {
        Seq::empty()
    } else {
        indent_text((depth - 1) as nat) + "│  "@
    }
}

/// The text of a tree: each node on a line of its own, after a line break: its address in
/// four hexadecimal digits, a colon, its indentation, and its instruction, followed by the
/// nodes below it (the target of a branch before the way on). An instruction reached
/// before is followed by `; ...`.
pub open spec fn node_text(node: DisNode) -> Seq<char>
    decreases node,
{
    "\n"@ + hex_text(node.addr as nat, 4, false) + ": "@ + indent_text(node.depth as nat) + match node.contents {
        DisNodeContents::Subroutine { insn, jump, ret } => insn.spec_text() + node_text(*jump)
            + node_text(*ret),
        DisNodeContents::Branch { insn, next, jump } => insn.spec_text() + node_text(*jump)
            + node_text(*next),
        DisNodeContents::Continue { insn, next } => insn.spec_text() + node_text(*next),
        DisNodeContents::RelBranch { insn } => insn.spec_text(),
        DisNodeContents::End { insn } => insn.spec_text(),
        DisNodeContents::PendingMerge { insn } => insn.spec_text() + "; ..."@,
        DisNodeContents::Merge { insn, .. } => insn.spec_text() + "; ..."@,
        DisNodeContents::Invalid => "Invalid"@,
    }
}

/// The addresses in `reached` are finitely many, and each is the address of a byte of `mem`.
pub open spec fn inside(mem: Seq<u8>, reached: Set<usize>) -> bool {
    &&& reached.finite()
    &&& forall|a: usize| reached.contains(a) ==> a < mem.len()
}

/// A walk only adds to the reached addresses, and every address it reaches holds the start
/// of an instruction in `mem`.
pub proof fn lemma_walk_reaches_inside(
    mem: Seq<u8>,
    visited: Set<usize>,
    nodes: Map<usize, Insn>,
    addr: usize,
    depth: usize,
)
    requires
        inside(mem, visited),
        walk(mem, visited, nodes, addr, depth) is Some,
    ensures
        walk(mem, visited, nodes, addr, depth) matches Some((_, reached, _)) && inside(mem, reached)
            && visited.subset_of(reached),
    decreases mem.len() - visited.len(),
{
    let sub = mem.subrange(addr as int, mem.len() as int);
    if let Ok((len, insn)) = spec_decode(sub) {
        if !visited.contains(addr) {
            let v0 = visited.insert(addr);
            assert(addr < mem.len());
            let next_addr = (addr + len) as usize;
            match insn {
                Insn::ret | Insn::halt => {},
                Insn::jmp { A } => {
                    if A as usize != addr {
                        lemma_walk_reaches_inside(mem, v0, nodes, A as usize, depth);
                    }
                },
                Insn::call { A } => {
                    if A as usize != addr {
                        lemma_walk_reaches_inside(mem, v0, nodes, A as usize, (depth + 1) as usize);
                        let (_, v1, m1) = walk(mem, v0, nodes, A as usize, (depth + 1) as usize)->0;
                        lemma_walk_reaches_inside(mem, v1, m1, next_addr, depth);
                    }
                },
                Insn::jmpr { .. } => {},
                _ => {
                    lemma_walk_reaches_inside(mem, v0, nodes, next_addr, depth);
                    if is_skip(insn) {
                        let (_, v1, m1) = walk(mem, v0, nodes, next_addr, depth)->0;
                        lemma_walk_reaches_inside(mem, v1, m1, (next_addr + 2) as usize, (depth + 1) as usize);
                    }
                },
            }
        }
    }
}

/// Whether no instruction in `mem` leads the walk past its end: every skip lands inside
/// `mem` (or just past its last byte), and every jump and call targets such an address.
pub open spec fn stays_inside(mem: Seq<u8>) -> bool {
    forall|a: usize|
        #![trigger spec_decode(mem.subrange(a as int, mem.len() as int))]
        a < mem.len() ==> match spec_decode(mem.subrange(a as int, mem.len() as int)) {
            Ok((len, insn)) => {
                &&& is_skip(insn) ==> a + len + 2 <= mem.len()
                &&& insn matches Insn::jmp { A } ==> A <= mem.len()
                &&& insn matches Insn::call { A } ==> A <= mem.len()
            },
            Err(_) => true,
        }
}

/// The addresses below `n`.
pub open spec fn below(n: nat) -> Set<usize> {
    Set::new(|a: usize| a < n)
}

/// There are `n` addresses below `n`.
proof fn lemma_below_len(n: nat)
    requires
        n <= usize::MAX + 1,
    ensures
        below(n).finite(),
        below(n).len() == n,
    decreases n,
{
    if n == 0 {
        assert(below(0) =~= Set::empty());
    } else {
        lemma_below_len((n - 1) as nat);
        assert(below(n) =~= below((n - 1) as nat).insert((n - 1) as usize));
    }
}

/// On a program that [stays_inside] its memory, the walk from any address of the memory is
/// defined, so [DisNode::traverse] may be called on it.
pub proof fn lemma_walk_defined(
    mem: Seq<u8>,
    visited: Set<usize>,
    nodes: Map<usize, Insn>,
    addr: usize,
    depth: usize,
)
    requires
        stays_inside(mem),
        mem.len() + 8 <= usize::MAX,
        addr <= mem.len(),
        inside(mem, visited),
        depth <= visited.len(),
    ensures
        walk(mem, visited, nodes, addr, depth) is Some,
    decreases mem.len() - visited.len(),
{
    let sub = mem.subrange(addr as int, mem.len() as int);
    if let Ok((len, insn)) = spec_decode(sub) {
        if !visited.contains(addr) {
            let v0 = visited.insert(addr);
            assert(addr < mem.len());
            lemma_below_len(mem.len());
            vstd::set_lib::lemma_len_subset(v0, below(mem.len()));
            assert(v0.len() == visited.len() + 1);
            assert(addr + len <= mem.len());
            let next_addr = (addr + len) as usize;
            match insn {
                Insn::ret | Insn::halt => {},
                Insn::jmp { A } => {
                    if A as usize != addr {
                        lemma_walk_defined(mem, v0, nodes, A as usize, depth);
                    }
                },
                Insn::call { A } => {
                    if A as usize != addr {
                        lemma_walk_defined(mem, v0, nodes, A as usize, (depth + 1) as usize);
                        lemma_walk_reaches_inside(mem, v0, nodes, A as usize, (depth + 1) as usize);
                        let (_, v1, m1) = walk(mem, v0, nodes, A as usize, (depth + 1) as usize)->0;
                        vstd::set_lib::lemma_len_subset(v0, v1);
                        vstd::set_lib::lemma_len_subset(v1, below(mem.len()));
                        lemma_walk_defined(mem, v1, m1, next_addr, depth);
                    }
                },
                Insn::jmpr { .. } => {},
                _ => {
                    lemma_walk_defined(mem, v0, nodes, next_addr, depth);
                    if is_skip(insn) {
                        lemma_walk_reaches_inside(mem, v0, nodes, next_addr, depth);
                        let (_, v1, m1) = walk(mem, v0, nodes, next_addr, depth)->0;
                        vstd::set_lib::lemma_len_subset(v0, v1);
                        vstd::set_lib::lemma_len_subset(v1, below(mem.len()));
                        lemma_walk_defined(mem, v1, m1, (next_addr + 2) as usize, (depth + 1) as usize);
                    }
                },
            }
        }
    }
}

impl DisNode {
    /// Walks the program in `mem` from `addr`, recording in `nodes` the instruction at every
    /// address the walk reaches, and returns the tree of the walk.
    ///
    /// The walk must not reach past the end of `mem`: [lemma_walk_defined] shows that it
    /// does not on a program that [stays_inside] its memory.
    pub fn traverse(mem: &[u8], nodes: &mut BTreeMap<usize, Insn>, addr: usize) -> (r: Rc<DisNode>)
        requires
            walk(mem@, Set::empty(), old(nodes)@, addr, 0) is Some,
        ensures
            walk(mem@, Set::empty(), old(nodes)@, addr, 0) matches Some((node, _, m)) && *r == node
                && final(nodes)@ == m,
    {
        let mut visited: HashSet<usize> = HashSet::new();
        Self::tree_recurse(mem, &mut visited, nodes, addr, 0)
    }

    /// The walk of [walk] from `addr`, when the addresses in `visited` were reached before:
    /// adds the addresses it reaches to `visited`, and records the instruction at each in
    /// `nodes`.
    pub fn tree_recurse(
        mem: &[u8],
        visited: &mut HashSet<usize>,
        nodes: &mut BTreeMap<usize, Insn>,
        addr: usize,
        depth: usize,
    ) -> (r: Rc<DisNode>)
        requires
            walk(mem@, old(visited)@, old(nodes)@, addr, depth) is Some,
        ensures
            walk(mem@, old(visited)@, old(nodes)@, addr, depth) == Some(
                (*r, final(visited)@, final(nodes)@),
            ),
        decreases mem@.len() - old(visited)@.len(),
    {
        // Try to decode an instruction. If the instruction is invalid, fail early.
        let (len, insn) = match Insn::decode(slice_subrange(mem, addr, mem.len())) {
            Ok(decoded) => decoded,
            Err(_) => {
                return Rc::new(DisNode { contents: DisNodeContents::Invalid, addr, depth });
            },
        };
        let ghost visited0 = visited@;
        let ghost nodes0 = nodes@;
        // instruction is already visited, but the branch isn't guaranteed to be in the tree yet
        if !visited.insert(addr) {
            let back = if nodes.contains_key(&addr) {
                Some(addr)
            } else {
                None
            };
            let next = Rc::new(DisNode { contents: DisNodeContents::Merge { insn, back }, addr, depth });
            nodes.insert(addr, insn);
            return next;
        }
        let next_addr = addr + len;
        let contents = match insn {
            Insn::ret | Insn::halt => DisNodeContents::End { insn },
            Insn::jmp { A } => {
                // A branch to the current address will halt the machine
                if A as usize == addr {
                    DisNodeContents::End { insn }
                } else {
                    let next = Self::tree_recurse(mem, visited, nodes, A as usize, depth);
                    DisNodeContents::Continue { insn, next }
                }
            },
            Insn::call { A } => {
                if A as usize == addr {
                    DisNodeContents::End { insn }
                } else {
                    let jump = Self::tree_recurse(mem, visited, nodes, A as usize, depth + 1);
                    let next = Self::tree_recurse(mem, visited, nodes, next_addr, depth);
                    DisNodeContents::Branch { insn, next, jump }
                }
            },
            // If the instruction is a skip instruction, first visit the next instruction,
            // then visit the skip instruction. This preserves visitor order.
            Insn::seb { .. } | Insn::sneb { .. } | Insn::se { .. } | Insn::sne { .. } | Insn::sek {
                ..
            } => {
                let next = Self::tree_recurse(mem, visited, nodes, next_addr, depth);
                let jump = Self::tree_recurse(mem, visited, nodes, next_addr + 2, depth + 1);
                DisNodeContents::Branch { insn, next, jump }
            },
            // Relative branch prediction is out of scope right now
            Insn::jmpr { .. } => DisNodeContents::RelBranch { insn },
            // If the instruction is any other instruction, emit a Continue token
            _ => {
                let next = Self::tree_recurse(mem, visited, nodes, next_addr, depth);
                DisNodeContents::Continue { insn, next }
            },
        };
        let next = Rc::new(DisNode { contents, addr, depth });
        nodes.insert(addr, insn);
        next
    }

    /// The tree as text, each node on a line of its own (see [node_text]).
    pub fn to_string(&self) -> (r: String)
        ensures
            r@ == node_text(*self),
    {
        let mut s = String::new();
        self.push_text(&mut s);
        s
    }

    /// Appends the text of the tree to `s`.
    fn push_text(&self, s: &mut String)
        ensures
            final(s)@ == old(s)@ + node_text(*self),
        decreases *self,
    {
        let ghost start = s@;
        push_str(s, "\n");
        push_hex(s, self.addr as u64, 4, false);
        push_str(s, ": ");
        let mut k: usize = 0;
        while k < self.depth
            invariant
                k <= self.depth,
                s@ == start + "\n"@ + hex_text(self.addr as nat, 4, false) + ": "@ + indent_text(
                    k as nat,
                ),
            decreases self.depth - k,
        {
            push_str(s, "│  ");
            k = k + 1;
        }
        let ghost head = s@;
        match &self.contents {
            DisNodeContents::Subroutine { insn, jump, ret } => {
                push_str(s, insn.to_string().as_str());
                jump.push_text(s);
                ret.push_text(s);
            },
            DisNodeContents::Branch { insn, next, jump } => {
                push_str(s, insn.to_string().as_str());
                jump.push_text(s);
                next.push_text(s);
            },
            DisNodeContents::Continue { insn, next } => {
                push_str(s, insn.to_string().as_str());
                next.push_text(s);
            },
            DisNodeContents::RelBranch { insn } | DisNodeContents::End { insn } => {
                push_str(s, insn.to_string().as_str());
            },
            DisNodeContents::PendingMerge { insn } | DisNodeContents::Merge { insn, .. } => {
                push_str(s, insn.to_string().as_str());
                push_str(s, "; ...");
            },
            DisNodeContents::Invalid => {
                push_str(s, "Invalid");
            },
        }
        assert(s@ =~= start + node_text(*self));
    }
}

/// Whether the two bytes `hi`, `lo` encode a conditional skip: `3xbb`, `4xbb`, `5xy0`,
/// `9xy0` or `Ex9E`.
pub open spec fn skip_opcode(hi: u8, lo: u8) -> bool {
    let i = hi / 16;
    ||| i == 3
    ||| i == 4
    ||| (i == 5 || i == 9) && lo % 16 == 0
    ||| i == 0xe && lo == 0x9e
}

/// The node that a walk makes at `addr` stands at `addr`, at depth `depth`.
pub proof fn lemma_walk_root(mem: Seq<u8>, visited: Set<usize>, nodes: Map<usize, Insn>, addr: usize, depth: usize)
    ensures
        walk(mem, visited, nodes, addr, depth) matches Some((node, _, _)) ==> node.addr == addr
            && node.depth == depth,
{
}

/// Every conditional skip branches: walked from an address not reached before, the two
/// bytes of `3xbb`, `4xbb`, `5xy0`, `9xy0` or `Ex9E` give a branch node whose way on is the
/// instruction two bytes on, at the same depth, and whose other way is the instruction four
/// bytes on (the one the skip lands on), one level deeper.
pub proof fn lemma_skip_branches(
    mem: Seq<u8>,
    visited: Set<usize>,
    nodes: Map<usize, Insn>,
    addr: usize,
    depth: usize,
)
    requires
        addr + 2 <= mem.len(),
        !visited.contains(addr),
        skip_opcode(mem[addr as int], mem[addr + 1]),
        walk(mem, visited, nodes, addr, depth) is Some,
    ensures
        walk(mem, visited, nodes, addr, depth) matches Some((node, _, _)) && node.addr == addr
            && node.depth == depth && (node.contents matches DisNodeContents::Branch {
            next,
            jump,
            ..
        } && next.addr == addr + 2 && next.depth == depth && jump.addr == addr + 4 && jump.depth
            == depth + 1),
{
    let sub = mem.subrange(addr as int, mem.len() as int);
    let hi = mem[addr as int];
    let lo = mem[addr + 1];
    assert(sub[0] == hi && sub[1] == lo);
    let w = word_of(hi, lo);
    assert(w / 4096 == hi / 16 && (w / 256) % 16 == hi % 16 && (w / 16) % 16 == lo / 16 && w % 16
        == lo % 16) by (nonlinear_arith)
        requires
            w == hi * 256 + lo,
            0 <= hi < 256,
            0 <= lo < 256,
    ;
    assert((((lo / 16) as nat) * 16 + (lo % 16) as nat) as u8 == lo);
    reveal(decode_nibbles);
    let (len, insn) = spec_decode(sub)->Ok_0;
    assert(spec_decode(sub) is Ok && len == 2 && is_skip(insn));
    let v0 = visited.insert(addr);
    let next_addr = (addr + 2) as usize;
    lemma_walk_root(mem, v0, nodes, next_addr, depth);
    let (_, v1, m1) = walk(mem, v0, nodes, next_addr, depth)->0;
    lemma_walk_root(mem, v1, m1, (next_addr + 2) as usize, (depth + 1) as usize);
}

} // verus!
