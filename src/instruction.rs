use vstd::prelude::*;

use crate::address::Address;

verus! {

/// One account referenced by an instruction.
#[derive(Clone, Copy, Debug)]
pub struct AccountRef {
    pub address: Address,
    pub is_signer: bool,
    pub is_writable: bool,
}

/// One instruction of a transaction: the program that issues it, the accounts
/// it references and its payload, whose leading bytes are the opcode.
#[derive(Clone, Debug)]
pub struct Instruction {
    pub program_id: Address,
    pub accounts: Vec<AccountRef>,
    pub data: Vec<u8>,
}

/// The little-endian unsigned value of a byte sequence.
pub open spec fn le_value(s: Seq<u8>) -> nat
    decreases s.len(),
{
    if s.len() == 0 {
        0
    } else {
        s[0] as nat + 256 * le_value(s.drop_first())
    }
}

/// Whether `data` is at least as long as `tag` and starts with it.
pub open spec fn starts_with(data: Seq<u8>, tag: Seq<u8>) -> bool {
    tag.len() <= data.len() && data.subrange(0, tag.len() as int) == tag
}

/// The 64-bit little-endian integer stored at `offset` in `data`, if the
/// eight bytes are all there.
pub open spec fn u64_at(data: Seq<u8>, offset: int) -> Option<nat> {
    if 0 <= offset && offset + 8 <= data.len() {
        Some(le_value(data.subrange(offset, offset + 8)))
    } else {
        None
    }
}

/// The instruction at `position`, or `None` past the end of the transaction.
pub open spec fn instruction_at(tx: Seq<Instruction>, position: int) -> Option<Instruction> {
    if 0 <= position < tx.len() {
        Some(tx[position])
    } else {
        None
    }
}

/// Looks up the instruction at `position`; a position past the end is a
/// normal outcome and gives `None`.
pub fn classify(tx: &Vec<Instruction>, position: usize) -> (r: Option<&Instruction>)
    ensures
        r matches Some(ix) ==> instruction_at(tx@, position as int) == Some(*ix),
        r is None ==> instruction_at(tx@, position as int) is None,
{
    if position < tx.len() {
        Some(&tx[position])
    } else {
        None
    }
}

/// Whether the payload starts with the eight-byte opcode `tag`; a payload
/// shorter than the tag does not match.
pub fn has_tag(data: &[u8], tag: &[u8; 8]) -> (r: bool)
    ensures
        r == starts_with(data@, tag@),
{
    if data.len() < 8 {
        return false;
    }
    let mut i: usize = 0;
    while i < 8
        invariant
            0 <= i <= 8,
            8 <= data@.len(),
            tag@.len() == 8,
            forall|j: int| 0 <= j < i ==> data@[j] == tag@[j],
        decreases 8 - i,
    {
        if data[i] != tag[i] {
            assert(data@.subrange(0, 8)[i as int] != tag@[i as int]);
            return false;
        }
        i = i + 1;
    }
    assert(data@.subrange(0, 8) =~= tag@);
    true
}

proof fn lemma_le_value_eight(s: Seq<u8>)
    requires
        s.len() == 8,
    ensures
        le_value(s) == s[0] as nat + 256 * (s[1] as nat + 256 * (s[2] as nat + 256 * (s[3] as nat
            + 256 * (s[4] as nat + 256 * (s[5] as nat + 256 * (s[6] as nat + 256 * (s[7] as nat))))))),
{
    let s1 = s.drop_first();
    let s2 = s1.drop_first();
    let s3 = s2.drop_first();
    let s4 = s3.drop_first();
    let s5 = s4.drop_first();
    let s6 = s5.drop_first();
    let s7 = s6.drop_first();
    let s8 = s7.drop_first();
    assert(s8.len() == 0);
    assert(le_value(s8) == 0);
    assert(le_value(s7) == s[7] as nat);
    assert(le_value(s6) == s[6] as nat + 256 * le_value(s7));
    assert(le_value(s5) == s[5] as nat + 256 * le_value(s6));
    assert(le_value(s4) == s[4] as nat + 256 * le_value(s5));
    assert(le_value(s3) == s[3] as nat + 256 * le_value(s4));
    assert(le_value(s2) == s[2] as nat + 256 * le_value(s3));
    assert(le_value(s1) == s[1] as nat + 256 * le_value(s2));
}

/// Reads the 64-bit little-endian integer at `offset`; `None` when the
/// payload is too short.
pub fn read_u64_le(data: &Vec<u8>, offset: usize) -> (r: Option<u64>)
    ensures
        r matches Some(v) ==> u64_at(data@, offset as int) == Some(v as nat),
        r is None ==> u64_at(data@, offset as int) is None,
{
    if offset > data.len() || data.len() - offset < 8 {
        return None;
    }
    let b0 = data[offset] as u64;
    let b1 = data[offset + 1] as u64;
    let b2 = data[offset + 2] as u64;
    let b3 = data[offset + 3] as u64;
    let b4 = data[offset + 4] as u64;
    let b5 = data[offset + 5] as u64;
    let b6 = data[offset + 6] as u64;
    let b7 = data[offset + 7] as u64;
    let v: u64 = b0 + 256 * (b1 + 256 * (b2 + 256 * (b3 + 256 * (b4 + 256 * (b5 + 256 * (b6 + 256
        * b7))))));
    proof {
        let s = data@.subrange(offset as int, offset + 8);
        lemma_le_value_eight(s);
    }
    Some(v)
}

} // verus!
