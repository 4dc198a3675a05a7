//! MD5 digests of file contents, as lower-case hexadecimal text.

use vstd::prelude::*;

verus! {

/// The MD5 digest of `data`, as the `md5` crate computes it.
pub uninterp spec fn md5_sum(data: Seq<u8>) -> Seq<u8>;

/// The lower-case hexadecimal digit of a value below 16.
pub open spec fn hex_char(nibble: int) -> char {
    "0123456789abcdef"@[nibble]
}

/// Two lower-case hexadecimal digits for each byte, the high one first.
pub open spec fn hex_of(bytes: Seq<u8>) -> Seq<char>
    decreases bytes.len(),
{
    if bytes.len() == 0 {
        Seq::empty()
    } else {
        hex_of(bytes.drop_last()) + seq![
            hex_char(bytes.last() as int / 16),
            hex_char(bytes.last() as int % 16),
        ]
    }
}

/// Hexadecimal text has two characters for each byte.
pub proof fn lemma_hex_len(bytes: Seq<u8>)
    ensures
        hex_of(bytes).len() == 2 * bytes.len(),
    decreases bytes.len(),
{
    if bytes.len() > 0 {
        lemma_hex_len(bytes.drop_last());
    }
}

/// Calls `md5::compute` and takes the 16 bytes out of the `Digest` it
/// returns. Trusted: that the bytes are a function of `data` alone, named
/// `md5_sum`; nothing is claimed of their value.
#[verifier::external_body]
fn md5_bytes(data: &[u8]) -> (r: [u8; 16])
    ensures
        r@ == md5_sum(data@),
{
    md5::compute(data).0
}

/// The digit of `nibble` as text.
fn hex_digit(nibble: u8) -> (r: &'static str)
    requires
        nibble < 16,
    ensures
        r@ == seq![hex_char(nibble as int)],
{
    proof {
        reveal_strlit("0123456789abcdef");
        reveal_strlit("0");
        reveal_strlit("1");
        reveal_strlit("2");
        reveal_strlit("3");
        reveal_strlit("4");
        reveal_strlit("5");
        reveal_strlit("6");
        reveal_strlit("7");
        reveal_strlit("8");
        reveal_strlit("9");
        reveal_strlit("a");
        reveal_strlit("b");
        reveal_strlit("c");
        reveal_strlit("d");
        reveal_strlit("e");
        reveal_strlit("f");
    }
    let r = match nibble {
        0 => "0",
        1 => "1",
        2 => "2",
        3 => "3",
        4 => "4",
        5 => "5",
        6 => "6",
        7 => "7",
        8 => "8",
        9 => "9",
        10 => "a",
        11 => "b",
        12 => "c",
        13 => "d",
        14 => "e",
        _ => "f",
    };
    assert(r@ =~= seq![hex_char(nibble as int)]);
    r
}

/// `bytes` in lower-case hexadecimal, two digits a byte.
pub fn hex_lower(bytes: &[u8]) -> (r: String)
    ensures
        r@ == hex_of(bytes@),
        r@.len() == 2 * bytes@.len(),
{
    let mut text = String::new();
    let n: usize = bytes.len();
    let mut i: usize = 0;
    while i < n
        invariant
            n == bytes@.len(),
            i <= n,
            text@ == hex_of(bytes@.take(i as int)),
        decreases n - i,
    {
        let b: u8 = bytes[i];
        text.append(hex_digit(b / 16));
        text.append(hex_digit(b % 16));
        proof {
            let next = bytes@.take(i + 1);
            assert(next.drop_last() =~= bytes@.take(i as int));
            assert(next.last() == b);
            assert(text@ =~= hex_of(next));
        }
        i += 1;
    }
    proof {
        assert(bytes@.take(n as int) =~= bytes@);
        lemma_hex_len(bytes@);
    }
    text
}

/// The MD5 digest of `data` in lower-case hexadecimal: 32 characters.
pub fn md5_digest(data: &[u8]) -> (r: String)
    ensures
        r@ == hex_of(md5_sum(data@)),
        r@.len() == 32,
{
    let sum = md5_bytes(data);
    hex_lower(sum.as_slice())
}

} // verus!
