//! The identifier/hasher: derives a stable, filesystem-safe cache entry name
//! from a source file's canonical location.
//!
//! The name is a hex prefix of the SHA-1 digest of the parent directory's
//! path, a `-` separator, and the file's stem, so that identical stems in
//! different directories get distinct cache entries.

use vstd::prelude::*;
use vstd::string::StrSliceExecFns;
use vstd::string::StringExecFns;
use vstd::utf8::encode_utf8;

use sha1::{Digest, Sha1};

verus! {

/// The SHA-1 digest of a byte sequence.  Only stated, never spelled out:
/// the digest comes from the `sha1` crate and is pinned down solely as a
/// deterministic 20-byte function of the input.
pub uninterp spec fn sha1_of(bytes: Seq<u8>) -> Seq<u8>;

/// Relies on `sha1::Sha1` (through `digest::Digest::digest`): the SHA-1
/// digest is a pure function of the input bytes and is 20 bytes long.
#[verifier::external_body]
fn sha1_digest(data: &[u8]) -> (r: Vec<u8>)
    ensures
        r@ == sha1_of(data@),
        r@.len() == 20,
{
    Sha1::digest(data).to_vec()
}

/// The lower-case hex character for a value below 16.
pub open spec fn hex_digit(n: int) -> char {
    "0123456789abcdef"@[n]
}

/// The lower-case hex rendering of a byte sequence, two characters per byte.
pub open spec fn hex_of(bytes: Seq<u8>) -> Seq<char>
    decreases bytes.len(),
{
    if bytes.len() == 0 {
        Seq::empty()
    } else {
        hex_of(bytes.drop_last()) + seq![
            hex_digit((bytes.last() / 16) as int),
            hex_digit((bytes.last() % 16) as int),
        ]
    }
}

/// The cache entry name for a source file: the hex rendering of the first
/// eight digest bytes of the parent directory's path, a `-`, and the stem.
pub open spec fn entry_name(parent: Seq<char>, stem: Seq<char>) -> Seq<char> {
    hex_of(sha1_of(encode_utf8(parent)).take(8)) + seq!['-'] + stem
}

/// Law: the entry name is a deterministic function of the canonical source
/// location.  Two invocations that resolve a source file to the same parent
/// directory and stem — in this process or any other — derive the same
/// cache entry name.
pub proof fn lemma_entry_name_deterministic(
    p1: Seq<char>,
    s1: Seq<char>,
    p2: Seq<char>,
    s2: Seq<char>,
)
    requires
        p1 == p2,
        s1 == s2,
    ensures
        entry_name(p1, s1) == entry_name(p2, s2),
{
}

/// No hex character is a path separator.
proof fn lemma_hex_of_no_separator(bytes: Seq<u8>)
    ensures
        forall|i: int| 0 <= i < hex_of(bytes).len() ==> #[trigger] hex_of(bytes)[i] != '/',
    decreases bytes.len(),
{
    reveal_strlit("0123456789abcdef");
    if bytes.len() > 0 {
        lemma_hex_of_no_separator(bytes.drop_last());
        assert(forall|k: int| 0 <= k < 16 ==> #[trigger] hex_digit(k) != '/');
        assert(0 <= bytes.last() / 16 < 16 && 0 <= bytes.last() % 16 < 16);
        let a = hex_of(bytes.drop_last());
        let d = seq![hex_digit((bytes.last() / 16) as int), hex_digit((bytes.last() % 16) as int)];
        assert forall|i: int| 0 <= i < hex_of(bytes).len() implies #[trigger] hex_of(bytes)[i]
            != '/' by {
            if i < a.len() {
                assert(hex_of(bytes)[i] == a[i]);
            } else {
                assert(hex_of(bytes)[i] == d[i - a.len()]);
            }
        }
    }
}

/// Law: the entry name is filesystem-safe.  The stem of a file name holds
/// no path separator, and then neither does the entry name derived from
/// it: its hex digits, its `-`, and the stem are all separator-free.
pub proof fn lemma_entry_name_no_separator(parent: Seq<char>, stem: Seq<char>)
    requires
        forall|i: int| 0 <= i < stem.len() ==> stem[i] != '/',
    ensures
        forall|i: int|
            0 <= i < entry_name(parent, stem).len() ==> #[trigger] entry_name(parent, stem)[i]
                != '/',
{
    let h = hex_of(sha1_of(encode_utf8(parent)).take(8));
    lemma_hex_of_no_separator(sha1_of(encode_utf8(parent)).take(8));
    assert forall|i: int|
        0 <= i < entry_name(parent, stem).len() implies #[trigger] entry_name(parent, stem)[i]
        != '/' by {
        let e = entry_name(parent, stem);
        if i < h.len() {
            assert(e[i] == h[i]);
        } else if i == h.len() {
            assert(e[i] == '-');
        } else {
            assert(e[i] == stem[i - h.len() - 1]);
        }
    }
}

/// Renders the first `n` bytes of `bytes` in lower-case hex.
fn to_hex_prefix(bytes: &Vec<u8>, n: usize) -> (r: String)
    requires
        n <= bytes@.len(),
    ensures
        r@ == hex_of(bytes@.take(n as int)),
{
    let table = "0123456789abcdef";
    proof {
        reveal_strlit("0123456789abcdef");
        assert(table@.len() == 16);
        assert(forall|k: int| 0 <= k < 16 ==> '\0' <= #[trigger] table@[k] <= '\u{7f}');
        assert(vstd::string::is_ascii(table));
    }
    let mut r = String::new();
    let mut i: usize = 0;
    while i < n
        invariant
            0 <= i <= n <= bytes@.len(),
            r@ == hex_of(bytes@.take(i as int)),
            table@ == "0123456789abcdef"@,
            table@.len() == 16,
            vstd::string::is_ascii(table),
        decreases n - i,
    {
        let b = bytes[i];
        let hi = (b / 16) as usize;
        let lo = (b % 16) as usize;
        let h = table.substring_ascii(hi, hi + 1);
        r.append(h);
        let l = table.substring_ascii(lo, lo + 1);
        r.append(l);
        proof {
            assert(h@ =~= seq![hex_digit((b / 16) as int)]);
            assert(l@ =~= seq![hex_digit((b % 16) as int)]);
            assert(bytes@.take(i + 1).drop_last() =~= bytes@.take(i as int));
            assert(bytes@.take(i + 1).last() == bytes@[i as int]);
            assert(r@ =~= hex_of(bytes@.take(i + 1)));
        }
        i += 1;
    }
    r
}

/// Derives the cache entry name for a source file from its canonical parent
/// directory and its stem (base name without extension).
///
/// The result is deterministic: it depends only on the two arguments (see
/// [`lemma_entry_name_deterministic`]).
pub fn compute_entry_name(parent: &str, stem: &str) -> (r: String)
    ensures
        r@ == entry_name(parent@, stem@),
{
    let digest = sha1_digest(parent.as_bytes());
    let mut r = to_hex_prefix(&digest, 8);
    r.append("-");
    proof {
        reveal_strlit("-");
        assert("-"@ =~= seq!['-']);
        assert(digest@.take(8) == sha1_of(encode_utf8(parent@)).take(8));
    }
    r.append(stem);
    proof {
        assert(r@ =~= entry_name(parent@, stem@));
    }
    r
}

} // verus!
