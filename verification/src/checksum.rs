use sha2::Digest;
use vstd::prelude::*;
use crate::error::{outcome_model, ErrorKind, ErrorModel};
use crate::text::chars_of;

verus! {

/// The SHA-256 digest of `data`.
pub uninterp spec fn sha256(data: Seq<u8>) -> Seq<u8>;

/// Calls `sha2::Sha256::digest`, the one-shot form of the hash: the result
/// is the SHA-256 digest of `data`, a function of the bytes alone.
#[verifier::external_body]
fn sha256_digest(data: &[u8]) -> (digest: Vec<u8>)
    ensures
        digest@ == sha256(data@),
{
    sha2::Sha256::digest(data).to_vec()
}

/// The lower-case hexadecimal digit for `n`, where `n < 16`.
pub open spec fn hex_digit(n: u8) -> char {
    if n == 0 {
        '0'
    } else if n == 1 {
        '1'
    } else if n == 2 {
        '2'
    } else if n == 3 {
        '3'
    } else if n == 4 {
        '4'
    } else if n == 5 {
        '5'
    } else if n == 6 {
        '6'
    } else if n == 7 {
        '7'
    } else if n == 8 {
        '8'
    } else if n == 9 {
        '9'
    } else if n == 10 {
        'a'
    } else if n == 11 {
        'b'
    } else if n == 12 {
        'c'
    } else if n == 13 {
        'd'
    } else if n == 14 {
        'e'
    } else {
        'f'
    }
}

/// `bytes` in lower-case hexadecimal, two digits to the byte, the high
/// half first.
pub open spec fn hex_of(bytes: Seq<u8>) -> Seq<char>
    decreases bytes.len(),
{
    if bytes.len() == 0 {
        Seq::empty()
    } else {
        hex_of(bytes.drop_last()).push(hex_digit(bytes.last() / 16)).push(
            hex_digit(bytes.last() % 16),
        )
    }
}

/// The code point of `c`, with the ASCII capitals taken to their small
/// letters.
pub open spec fn folded(c: char) -> u32 {
    if 'A' as u32 <= c as u32 <= 'Z' as u32 {
        (c as u32 + 32) as u32
    } else {
        c as u32
    }
}

/// Whether `a` and `b` are the same text but for the case of ASCII letters.
pub open spec fn same_ignoring_case(a: Seq<char>, b: Seq<char>) -> bool {
    &&& a.len() == b.len()
    &&& forall|i: int| 0 <= i < a.len() ==> folded(#[trigger] a[i]) == folded(b[i])
}

/// Whether `digest` is what `expected` declares: `expected` is the digest
/// in hexadecimal, in either case.
pub open spec fn digest_matches(digest: Seq<u8>, expected: Seq<char>) -> bool {
    same_ignoring_case(hex_of(digest), expected)
}

/// The verdict on a digest that was declared as `expected`: fine where
/// they match, and else a mismatch that reports what was declared, as it
/// was given, and what was found, in lower case.
pub open spec fn digest_verdict(digest: Seq<u8>, expected: Seq<char>) -> Result<(), ErrorModel> {
    if digest_matches(digest, expected) {
        Ok(())
    } else {
        Err(ErrorModel::ChecksumMismatch { expected, actual: hex_of(digest) })
    }
}

fn hex_digit_text(n: u8) -> (s: &'static str)
    requires
        n < 16,
    ensures
        s@ == seq![hex_digit(n)],
{
    proof {
        reveal_strlit("0");
        reveal_strlit("1");
        reveal_strlit("2");
        reveal_strlit("3");
        reveal_strlit("4");
        reveal_strlit("5");
        reveal_strlit("6");
        reveal_strlit("7");
        reveal_strlit("8");
        reveal_strlit("9");
        reveal_strlit("a");
        reveal_strlit("b");
        reveal_strlit("c");
        reveal_strlit("d");
        reveal_strlit("e");
        reveal_strlit("f");
    }
    let s = if n == 0 {
        "0"
    } else if n == 1 {
        "1"
    } else if n == 2 {
        "2"
    } else if n == 3 {
        "3"
    } else if n == 4 {
        "4"
    } else if n == 5 {
        "5"
    } else if n == 6 {
        "6"
    } else if n == 7 {
        "7"
    } else if n == 8 {
        "8"
    } else if n == 9 {
        "9"
    } else if n == 10 {
        "a"
    } else if n == 11 {
        "b"
    } else if n == 12 {
        "c"
    } else if n == 13 {
        "d"
    } else if n == 14 {
        "e"
    } else {
        "f"
    };
    assert(s@ =~= seq![hex_digit(n)]);
    s
}

/// `bytes` in lower-case hexadecimal.
pub fn to_hex(bytes: &[u8]) -> (s: String)
    ensures
        s@ == hex_of(bytes@),
{
    let mut s = String::new();
    let mut i: usize = 0;
    assert(bytes@.take(0) =~= Seq::<u8>::empty());
    while i < bytes.len()
        invariant
            i <= bytes.len(),
            s@ == hex_of(bytes@.take(i as int)),
        decreases bytes.len() - i,
    {
        let b = bytes[i];
        proof {
            let next = bytes@.take(i + 1);
            assert(next.drop_last() =~= bytes@.take(i as int));
            assert(next.last() == b);
        }
        s.append(hex_digit_text(b / 16));
        s.append(hex_digit_text(b % 16));
        assert(s@ =~= hex_of(bytes@.take(i as int)).push(hex_digit(b / 16)).push(
            hex_digit(b % 16),
        ));
        i += 1;
    }
    assert(bytes@.take(bytes.len() as int) =~= bytes@);
    s
}

fn fold_case(c: char) -> (n: u32)
    ensures
        n == folded(c),
{
    let n = c as u32;
    if 65 <= n && n <= 90 {
        n + 32
    } else {
        n
    }
}

/// Whether `a` and `b` are the same text but for the case of ASCII letters.
pub fn equal_ignoring_case(a: &str, b: &str) -> (r: bool)
    ensures
        r == same_ignoring_case(a@, b@),
{
    let x = chars_of(a);
    let y = chars_of(b);
    if x.len() != y.len() {
        return false;
    }
    let mut i: usize = 0;
    while i < x.len()
        invariant
            i <= x.len() == y.len(),
            x@ == a@,
            y@ == b@,
            forall|j: int| 0 <= j < i ==> folded(#[trigger] x@[j]) == folded(y@[j]),
        decreases x.len() - i,
    {
        if fold_case(x[i]) != fold_case(y[i]) {
            return false;
        }
        i += 1;
    }
    true
}

/// Holds a digest against the hexadecimal digest that was declared.
///
/// The comparison ignores the case of the declared digest. A mismatch
/// reports both: what was declared, as it was given, and what was found,
/// in lower case.
pub fn compare_digest(digest: &[u8], expected: &str) -> (r: Result<(), ErrorKind>)
    ensures
        outcome_model(r) == digest_verdict(digest@, expected@),
{
    let actual = to_hex(digest);
    if equal_ignoring_case(actual.as_str(), expected) {
        Ok(())
    } else {
        Err(ErrorKind::ChecksumMismatch { expected: expected.to_owned(), actual })
    }
}

/// Checks that `content` hashes to the SHA-256 digest that `checksum`
/// declares in hexadecimal.
pub fn check_checksum(content: &[u8], checksum: &str) -> (r: Result<(), ErrorKind>)
    ensures
        outcome_model(r) == digest_verdict(sha256(content@), checksum@),
{
    let digest = sha256_digest(content);
    compare_digest(digest.as_slice(), checksum)
}

} // verus!
