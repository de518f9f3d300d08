//! Big-endian integers and fixed-width fields inside byte strings.

use vstd::prelude::*;

verus! {

/// A 32-byte word: a hash, a root or a storage slot.
pub type B256 = [u8; 32];

/// A 20-byte account address.
pub type Address = [u8; 20];

/// The number that `s` spells in base 256, most significant byte first.
pub open spec fn be_value(s: Seq<u8>) -> nat
    decreases s.len(),
{
    if s.len() == 0 {
        0
    } else {
        be_value(s.drop_last()) * 256 + s.last() as nat
    }
}

/// The `len` low base-256 digits of `n`, most significant first.
pub open spec fn be_bytes(n: nat, len: nat) -> Seq<u8>
    decreases len,
{
    if len == 0 {
        Seq::empty()
    } else {
        be_bytes(n / 256, (len - 1) as nat).push((n % 256) as u8)
    }
}

/// 256 to the power `n`.
pub open spec fn pow256(n: nat) -> nat
    decreases n,
{
    if n == 0 {
        1
    } else {
        256 * pow256((n - 1) as nat)
    }
}

/// A byte string of length `n` spells a number below `256^n`.
pub proof fn lemma_be_value_bound(s: Seq<u8>)
    ensures
        be_value(s) < pow256(s.len()),
    decreases s.len(),
{
    if s.len() > 0 {
        lemma_be_value_bound(s.drop_last());
    }
}

pub proof fn lemma_be_bytes_len(n: nat, len: nat)
    ensures
        be_bytes(n, len).len() == len,
    decreases len,
{
    if len > 0 {
        lemma_be_bytes_len(n / 256, (len - 1) as nat);
    }
}

/// Reading back what was written in `len` bytes gives the number, if it fits.
pub proof fn law_be_value_of_be_bytes(n: nat, len: nat)
    requires
        n < pow256(len),
    ensures
        be_bytes(n, len).len() == len,
        be_value(be_bytes(n, len)) == n,
    decreases len,
{
    if len > 0 {
        let high = be_bytes(n / 256, (len - 1) as nat);
        law_be_value_of_be_bytes(n / 256, (len - 1) as nat);
        assert(high.push((n % 256) as u8).drop_last() =~= high);
    }
}

/// Writing the number that a byte string spells, in as many bytes, gives the string back.
pub proof fn law_be_bytes_of_be_value(s: Seq<u8>)
    ensures
        be_bytes(be_value(s), s.len()) == s,
    decreases s.len(),
{
    if s.len() > 0 {
        let high = be_value(s.drop_last());
        law_be_bytes_of_be_value(s.drop_last());
        let n = be_value(s);
        assert(n / 256 == high);
        assert(n % 256 == s.last() as nat);
        assert(be_bytes(n, s.len()) =~= s);
    }
}

/// The big-endian 64-bit integer in the eight bytes of `data` from `at` on.
pub fn read_be_u64(data: &[u8], at: usize) -> (value: u64)
    requires
        at + 8 <= data@.len(),
    ensures
        value == be_value(data@.subrange(at as int, at + 8)),
{
    let len: usize = data.len();
    let mut value: u64 = 0;
    let mut i: usize = 0;
    while i < 8
        invariant
            i <= 8,
            at + 8 <= len == data@.len(),
            value == be_value(data@.subrange(at as int, at + i)),
        decreases 8 - i,
    {
        let ghost read = data@.subrange(at as int, at + i);
        let ghost next = data@.subrange(at as int, at + i + 1);
        proof {
            assert(next.drop_last() =~= read);
            lemma_be_value_bound(next);
            reveal_with_fuel(pow256, 9);
            assert(pow256(next.len()) <= pow256(8));
        }
        value = value * 256 + data[at + i] as u64;
        i = i + 1;
    }
    value
}

/// The `len` low bytes of `value`, most significant first.
pub fn write_be_u64(value: u64, len: usize) -> (bytes: Vec<u8>)
    ensures
        bytes@ == be_bytes(value as nat, len as nat),
    decreases len,
{
    if len == 0 {
        Vec::new()
    } else {
        let mut bytes = write_be_u64(value / 256, len - 1);
        bytes.push((value % 256) as u8);
        bytes
    }
}

/// The 32 bytes of `data` from `at` on.
pub fn read_b256(data: &[u8], at: usize) -> (word: B256)
    requires
        at + 32 <= data@.len(),
    ensures
        word@ == data@.subrange(at as int, at + 32),
{
    let len: usize = data.len();
    let mut word: B256 = [0u8; 32];
    let mut i: usize = 0;
    while i < 32
        invariant
            i <= 32,
            at + 32 <= len == data@.len(),
            forall|j: int| 0 <= j < i ==> word@[j] == data@[at + j],
        decreases 32 - i,
    {
        word[i] = data[at + i];
        i = i + 1;
    }
    assert(word@ =~= data@.subrange(at as int, at + 32));
    word
}

/// The 20 bytes of `data` from `at` on.
pub fn read_address(data: &[u8], at: usize) -> (address: Address)
    requires
        at + 20 <= data@.len(),
    ensures
        address@ == data@.subrange(at as int, at + 20),
{
    let len: usize = data.len();
    let mut address: Address = [0u8; 20];
    let mut i: usize = 0;
    while i < 20
        invariant
            i <= 20,
            at + 20 <= len == data@.len(),
            forall|j: int| 0 <= j < i ==> address@[j] == data@[at + j],
        decreases 20 - i,
    {
        address[i] = data[at + i];
        i = i + 1;
    }
    assert(address@ =~= data@.subrange(at as int, at + 20));
    address
}

/// A copy of the bytes `from..to` of `data`.
pub fn copy_range(data: &[u8], from: usize, to: usize) -> (bytes: Vec<u8>)
    requires
        from <= to <= data@.len(),
    ensures
        bytes@ == data@.subrange(from as int, to as int),
{
    let mut bytes: Vec<u8> = Vec::new();
    let mut i: usize = from;
    while i < to
        invariant
            from <= i <= to <= data@.len(),
            bytes@ == data@.subrange(from as int, i as int),
        decreases to - i,
    {
        bytes.push(data[i]);
        i = i + 1;
        assert(bytes@ =~= data@.subrange(from as int, i as int));
    }
    bytes
}

/// Whether two words hold the same bytes.
pub fn same_word(a: &B256, b: &B256) -> (same: bool)
    ensures
        same == (a@ == b@),
{
    let mut i: usize = 0;
    while i < 32
        invariant
            i <= 32,
            forall|j: int| 0 <= j < i ==> a@[j] == b@[j],
        decreases 32 - i,
    {
        if a[i] != b[i] {
            return false;
        }
        i = i + 1;
    }
    assert(a@ =~= b@);
    true
}

/// The number that a byte string spells is built byte by byte: one more byte at the end makes
/// it 256 times as large and adds that byte.
pub proof fn law_be_value_by_bytes(s: Seq<u8>, byte: u8)
    ensures
        be_value(Seq::empty()) == 0,
        be_value(s.push(byte)) == 256 * be_value(s) + byte,
{
    assert(s.push(byte).drop_last() =~= s);
}

/// The value of eight bytes, each with its own weight.
pub proof fn law_be_value_of_eight_bytes(s: Seq<u8>)
    requires
        s.len() == 8,
    ensures
        be_value(s) == s[0] * 0x100_0000_0000_0000 + s[1] * 0x1_0000_0000_0000 + s[2]
            * 0x100_0000_0000 + s[3] * 0x1_0000_0000 + s[4] * 0x100_0000 + s[5] * 0x1_0000 + s[6]
            * 0x100 + s[7],
{
    reveal_with_fuel(be_value, 9);
}

/// Each digit of a number in bytes is the remainder by 256, what is above it the quotient.
pub proof fn law_be_bytes_by_bytes(n: nat, len: nat)
    ensures
        be_bytes(n, 0) == Seq::<u8>::empty(),
        be_bytes(n, len + 1) == be_bytes(n / 256, len).push((n % 256) as u8),
        pow256(0) == 1,
        pow256(len + 1) == 256 * pow256(len),
{
}

} // verus!
