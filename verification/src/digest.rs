use vstd::prelude::*;
use sha2::Digest;

verus! {

/// The SHA-256 digest of a byte string.
pub uninterp spec fn spec_sha256(data: Seq<u8>) -> Seq<u8>;

/// The SHA-512 digest of a byte string.
pub uninterp spec fn spec_sha512(data: Seq<u8>) -> Seq<u8>;

/// Calls `sha2::Sha256::digest` on the whole input. The result is the
/// SHA-256 digest of the input, which is 32 bytes long; that it is the
/// digest is taken on trust.
#[verifier::external_body]
pub(crate) fn sha256(data: &[u8]) -> (res: Vec<u8>)
    ensures
        res@ == spec_sha256(data@),
        res@.len() == 32,
{
    sha2::Sha256::digest(data).to_vec()
}

/// Calls `sha2::Sha512::digest` on the whole input. The result is the
/// SHA-512 digest of the input, which is 64 bytes long; that it is the
/// digest is taken on trust.
#[verifier::external_body]
pub(crate) fn sha512(data: &[u8]) -> (res: Vec<u8>)
    ensures
        res@ == spec_sha512(data@),
        res@.len() == 64,
{
    sha2::Sha512::digest(data).to_vec()
}

/// The lower-case hexadecimal digit for `n`.
pub open spec fn spec_hex_digit(n: int) -> char {
    if n == 0 {
        '0'
    } else if n == 1 {
        '1'
    } else if n == 2 {
        '2'
    } else if n == 3 {
        '3'
    } else if n == 4 {
        '4'
    } else if n == 5 {
        '5'
    } else if n == 6 {
        '6'
    } else if n == 7 {
        '7'
    } else if n == 8 {
        '8'
    } else if n == 9 {
        '9'
    } else if n == 10 {
        'a'
    } else if n == 11 {
        'b'
    } else if n == 12 {
        'c'
    } else if n == 13 {
        'd'
    } else if n == 14 {
        'e'
    } else {
        'f'
    }
}

/// `data` written in lower-case hexadecimal, two digits for each byte.
pub open spec fn spec_hex_lower(data: Seq<u8>) -> Seq<char>
    decreases data.len(),
{
    if data.len() == 0 {
        Seq::<char>::empty()
    } else {
        spec_hex_lower(data.drop_last()).push(spec_hex_digit(data.last() as int / 16)).push(
            spec_hex_digit(data.last() as int % 16),
        )
    }
}

/// A hexadecimal text is twice as long as the bytes it writes.
pub proof fn lemma_hex_len(data: Seq<u8>)
    ensures
        spec_hex_lower(data).len() == 2 * data.len(),
    decreases data.len(),
{
    if data.len() > 0 {
        lemma_hex_len(data.drop_last());
    }
}

/// The lower-case hexadecimal digit for `n`.
pub fn hex_digit(n: u8) -> (c: char)
    requires
        n < 16,
    ensures
        c == spec_hex_digit(n as int),
{
    match n {
        0 => '0',
        1 => '1',
        2 => '2',
        3 => '3',
        4 => '4',
        5 => '5',
        6 => '6',
        7 => '7',
        8 => '8',
        9 => '9',
        10 => 'a',
        11 => 'b',
        12 => 'c',
        13 => 'd',
        14 => 'e',
        _ => 'f',
    }
}

/// `data` written in lower-case hexadecimal.
pub fn hex_lower(data: &Vec<u8>) -> (res: String)
    ensures
        res@ == spec_hex_lower(data@),
        res@.len() == 2 * data@.len(),
{
    let mut out = String::new();
    let mut i: usize = 0;
    while i < data.len()
        invariant
            i <= data.len(),
            out@ == spec_hex_lower(data@.take(i as int)),
        decreases data.len() - i,
    {
        assert(data@.take(i + 1).drop_last() == data@.take(i as int));
        let b = data[i];
        out.push(hex_digit(b / 16));
        out.push(hex_digit(b % 16));
        i += 1;
    }
    assert(data@.take(data.len() as int) == data@);
    proof {
        lemma_hex_len(data@);
    }
    out
}

/// The SHA-256 digest of `data` as 64 lower-case hexadecimal digits.
pub fn sha256_hex(data: &[u8]) -> (res: String)
    ensures
        res@ == spec_hex_lower(spec_sha256(data@)),
        res@.len() == 64,
{
    let d = sha256(data);
    hex_lower(&d)
}

/// The SHA-512 digest of `data` as 128 lower-case hexadecimal digits.
pub fn sha512_hex(data: &[u8]) -> (res: String)
    ensures
        res@ == spec_hex_lower(spec_sha512(data@)),
        res@.len() == 128,
{
    let d = sha512(data);
    hex_lower(&d)
}

} // verus!
