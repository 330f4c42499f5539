//! SHA-256 digests and their upper-case hexadecimal text.

use vstd::prelude::*;

verus! {

/// What `ring`'s SHA-256 computes for a byte string.
pub uninterp spec fn sha256(data: Seq<u8>) -> Seq<u8>;

/// Calls `ring::digest::digest` with `ring::digest::SHA256` and copies out the
/// digest bytes. Claimed: the bytes are `sha256` of the input, and there are 32
/// of them (the output length `ring` gives SHA-256). `ring` panics when the input
/// holds 2^61 bytes or more (its bit count would not fit in a u64), hence the bound.
#[verifier::external_body]
fn ring_sha256(data: &[u8]) -> (res: Vec<u8>)
    requires
        data@.len() < 0x2000_0000_0000_0000,
    ensures
        res@ == sha256(data@),
        res@.len() == 32,
{
    ring::digest::digest(&ring::digest::SHA256, data).as_ref().to_vec()
}

/// Appends one character to a string (`String::push`).
#[verifier::external_body]
pub(crate) fn push_char(s: &mut String, c: char)
    ensures
        final(s)@ == old(s)@.push(c),
{
    s.push(c);
}

/// A computed SHA-256 digest: always 32 bytes.
pub struct Digest {
    bytes: Vec<u8>,
}

impl View for Digest {
    type V = Seq<u8>;

    closed spec fn view(&self) -> Seq<u8> {
        self.bytes@
    }
}

impl Digest {
    #[verifier::type_invariant]
    spec fn well_formed(self) -> bool {
        self.bytes@.len() == 32
    }

    /// The digest's bytes.
    pub fn as_bytes(&self) -> (res: &[u8])
        ensures
            res@ == self@,
            res@.len() == 32,
    {
        proof {
            use_type_invariant(self);
        }
        self.bytes.as_slice()
    }
}

/// The upper-case hexadecimal digit for a value below 16.
pub open spec fn hex_digit(n: int) -> char {
    seq!['0', '1', '2', '3', '4', '5', '6', '7', '8', '9', 'A', 'B', 'C', 'D', 'E', 'F'][n]
}

/// Two upper-case hexadecimal digits per byte, most significant first,
/// bytes in order.
pub open spec fn upper_hex(data: Seq<u8>) -> Seq<char>
    decreases data.len(),
{
    if data.len() == 0 {
        Seq::empty()
    } else {
        let b = data.last();
        upper_hex(data.drop_last()).push(hex_digit(b as int / 16)).push(hex_digit(b as int % 16))
    }
}

/// The text of `upper_hex` is twice as long as the bytes.
pub proof fn lemma_upper_hex_len(data: Seq<u8>)
    ensures
        upper_hex(data).len() == 2 * data.len(),
    decreases data.len(),
{
    if data.len() > 0 {
        lemma_upper_hex_len(data.drop_last());
    }
}

/// Hex text of a concatenation is the concatenation of the hex texts.
pub proof fn lemma_upper_hex_concat(a: Seq<u8>, b: Seq<u8>)
    ensures
        upper_hex(a + b) == upper_hex(a) + upper_hex(b),
    decreases b.len(),
{
    if b.len() == 0 {
        assert(a + b =~= a);
        assert(upper_hex(b) =~= Seq::<char>::empty());
        assert(upper_hex(a) + upper_hex(b) =~= upper_hex(a));
    } else {
        assert((a + b).drop_last() =~= a + b.drop_last());
        lemma_upper_hex_concat(a, b.drop_last());
        let x = b.last();
        assert(upper_hex(a + b) =~= (upper_hex(a) + upper_hex(b.drop_last())).push(
            hex_digit(x as int / 16),
        ).push(hex_digit(x as int % 16)));
    }
}

pub(crate) fn hex_digit_exec(n: u8) -> (c: char)
    requires
        n < 16,
    ensures
        c == hex_digit(n as int),
{
    match n {
        0 => '0',
        1 => '1',
        2 => '2',
        3 => '3',
        4 => '4',
        5 => '5',
        6 => '6',
        7 => '7',
        8 => '8',
        9 => '9',
        10 => 'A',
        11 => 'B',
        12 => 'C',
        13 => 'D',
        14 => 'E',
        _ => 'F',
    }
}

/// Upper-case hexadecimal text of `data`, two digits per byte
/// (e.g. `[0x0f, 0x00]` gives `"0F00"`).
pub fn bytes_to_upper_hex(data: &[u8]) -> (res: String)
    ensures
        res@ == upper_hex(data@),
{
    let mut res = String::new();
    let n = data.len();
    for i in 0..n
        invariant
            n == data@.len(),
            res@ == upper_hex(data@.take(i as int)),
    {
        let b = data[i];
        push_char(&mut res, hex_digit_exec(b / 16));
        push_char(&mut res, hex_digit_exec(b % 16));
        assert(data@.take(i + 1).drop_last() =~= data@.take(i as int));
    }
    assert(data@.take(n as int) =~= data@);
    res
}

/// The SHA-256 digest of `data`.
pub fn sha256_digest(data: &[u8]) -> (res: Digest)
    requires
        data@.len() < 0x2000_0000_0000_0000,
    ensures
        res@ == sha256(data@),
{
    Digest { bytes: ring_sha256(data) }
}

/// The digest as 64 upper-case hexadecimal digits.
pub fn digest_to_upper_hex(digest: Digest) -> (res: String)
    ensures
        res@ == upper_hex(digest@),
        res@.len() == 64,
{
    let bytes = digest.as_bytes();
    proof {
        lemma_upper_hex_len(bytes@);
    }
    bytes_to_upper_hex(bytes)
}

} // verus!
