//! The manifest synthesizer: extracts the embedded manifest fragment from a
//! source file's leading comments and appends it to the pristine manifest
//! template.
//!
//! The source is scanned line by line from the top.  Once a line exactly
//! equal to the marker comment `// Cargo.toml` is found (after stripping a
//! trailing carriage return), every immediately following comment line has
//! its `//` prefix stripped and the remainder, trimmed of surrounding ASCII
//! whitespace, is appended newline-terminated to the template.  Scanning
//! stops at the first non-comment line after the marker.  Without a marker
//! the template is returned unchanged.

use vstd::prelude::*;
use vstd::string::StringSliceAdditionalSpecFns;

verus! {

/// The sentinel line that starts an embedded manifest block.
pub open spec fn marker() -> Seq<u8> {
    "// Cargo.toml".spec_bytes()
}

/// ASCII whitespace: space, tab, line feed, vertical tab, form feed,
/// carriage return.
pub open spec fn is_ws(b: u8) -> bool {
    b == 32 || (9 <= b <= 13)
}

/// A comment line: starts with `//`.
pub open spec fn is_comment(l: Seq<u8>) -> bool {
    l.len() >= 2 && l[0] == ('/' as u8) && l[1] == ('/' as u8)
}

/// A line as compared and stripped: without its trailing carriage return,
/// so that sources with CRLF line endings behave like LF ones.
pub open spec fn clean(l: Seq<u8>) -> Seq<u8> {
    if l.len() > 0 && l.last() == ('\r' as u8) {
        l.drop_last()
    } else {
        l
    }
}

/// The number of bytes before the first line feed, or all of `s`.
pub open spec fn line_len(s: Seq<u8>) -> int
    decreases s.len(),
{
    if s.len() == 0 {
        0
    } else if s[0] == ('\n' as u8) {
        0
    } else {
        1 + line_len(s.drop_first())
    }
}

/// The first line of `s`, without its terminator.
pub open spec fn first_line(s: Seq<u8>) -> Seq<u8> {
    s.take(line_len(s))
}

/// Everything after the first line of `s` (and its terminator, if any).
pub open spec fn rest_lines(s: Seq<u8>) -> Seq<u8> {
    if line_len(s) == s.len() {
        Seq::empty()
    } else {
        s.skip(line_len(s) + 1)
    }
}

/// `line_len` is a position in `s`, everything before it is not a line
/// feed, and it stops at a line feed unless it ran off the end.
pub proof fn lemma_line_len(s: Seq<u8>)
    ensures
        0 <= line_len(s) <= s.len(),
        forall|j: int| 0 <= j < line_len(s) ==> s[j] != ('\n' as u8),
        line_len(s) < s.len() ==> s[line_len(s)] == ('\n' as u8),
    decreases s.len(),
{
    if s.len() == 0 {
    } else if s[0] == ('\n' as u8) {
    } else {
        lemma_line_len(s.drop_first());
        assert(forall|j: int|
            1 <= j < line_len(s) ==> s[j] == s.drop_first()[j - 1] && s.drop_first()[j - 1] != (
            '\n' as u8));
    }
}

/// `s` without its leading ASCII whitespace.
pub open spec fn trim_left(s: Seq<u8>) -> Seq<u8>
    decreases s.len(),
{
    if s.len() > 0 && is_ws(s.first()) {
        trim_left(s.drop_first())
    } else {
        s
    }
}

/// `s` without its trailing ASCII whitespace.
pub open spec fn trim_right(s: Seq<u8>) -> Seq<u8>
    decreases s.len(),
{
    if s.len() > 0 && is_ws(s.last()) {
        trim_right(s.drop_last())
    } else {
        s
    }
}

/// `s` without surrounding ASCII whitespace.
pub open spec fn trim(s: Seq<u8>) -> Seq<u8> {
    trim_right(trim_left(s))
}

/// The manifest fragment contributed by the comment lines at the start of
/// `s`: each comment line's content after `//`, trimmed and
/// newline-terminated, up to the first non-comment line.
pub open spec fn collect_fragment(s: Seq<u8>) -> Seq<u8>
    decreases s.len(),
    via collect_fragment_decreases
{
    if s.len() == 0 {
        Seq::empty()
    } else {
        let l = clean(first_line(s));
        if is_comment(l) {
            trim(l.skip(2)) + seq![('\n' as u8)] + collect_fragment(rest_lines(s))
        } else {
            Seq::empty()
        }
    }
}

#[via_fn]
proof fn collect_fragment_decreases(s: Seq<u8>) {
    lemma_line_len(s);
}

/// The manifest fragment embedded in source `s`: the comment block right
/// after the first marker line, or nothing when no line is the marker.
pub open spec fn fragment(s: Seq<u8>) -> Seq<u8>
    decreases s.len(),
    via fragment_decreases
{
    if s.len() == 0 {
        Seq::empty()
    } else if clean(first_line(s)) == marker() {
        collect_fragment(rest_lines(s))
    } else {
        fragment(rest_lines(s))
    }
}

#[via_fn]
proof fn fragment_decreases(s: Seq<u8>) {
    lemma_line_len(s);
}

/// The synthesized manifest: the pristine template with the source's
/// embedded fragment appended.
pub open spec fn synthesized(template: Seq<u8>, source: Seq<u8>) -> Seq<u8> {
    template + fragment(source)
}

/// Some line of `s` is exactly the marker.
pub open spec fn has_marker(s: Seq<u8>) -> bool
    decreases s.len(),
    via has_marker_decreases
{
    if s.len() == 0 {
        false
    } else if clean(first_line(s)) == marker() {
        true
    } else {
        has_marker(rest_lines(s))
    }
}

#[via_fn]
proof fn has_marker_decreases(s: Seq<u8>) {
    lemma_line_len(s);
}

/// Law: a source without a marker line contributes nothing — the
/// synthesized manifest is exactly the pristine template.
pub proof fn lemma_no_marker_keeps_template(template: Seq<u8>, source: Seq<u8>)
    requires
        !has_marker(source),
    ensures
        synthesized(template, source) == template,
{
    lemma_no_marker_fragment_empty(source);
    assert(template + Seq::<u8>::empty() =~= template);
}

proof fn lemma_no_marker_fragment_empty(s: Seq<u8>)
    requires
        !has_marker(s),
    ensures
        fragment(s) == Seq::<u8>::empty(),
    decreases s.len(),
{
    if s.len() == 0 {
    } else {
        lemma_line_len(s);
        lemma_no_marker_fragment_empty(rest_lines(s));
    }
}

/// Law: a source whose first line is the marker yields exactly the comment
/// block that follows it.
pub proof fn lemma_marker_starts_fragment(s: Seq<u8>)
    requires
        s.len() > 0,
        clean(first_line(s)) == marker(),
    ensures
        fragment(s) == collect_fragment(rest_lines(s)),
{
}

/// Law: after the marker, each comment line contributes its content after
/// `//`, trimmed and newline-terminated, in order; the first non-comment
/// line (or the end of the source) stops the block.
pub proof fn lemma_collect_unfolds(s: Seq<u8>)
    ensures
        s.len() == 0 ==> collect_fragment(s) == Seq::<u8>::empty(),
        s.len() > 0 && is_comment(clean(first_line(s))) ==> collect_fragment(s) == trim(
            clean(first_line(s)).skip(2),
        ) + seq![('\n' as u8)] + collect_fragment(rest_lines(s)),
        s.len() > 0 && !is_comment(clean(first_line(s))) ==> collect_fragment(s)
            == Seq::<u8>::empty(),
{
}

/// How an in-bounds cut of `s` relates the byte positions of a scan to the
/// line structure that the specification functions see.
proof fn lemma_line_structure(s: Seq<u8>, pos: int, e: int, ce: int, next: int)
    requires
        0 <= pos <= e <= s.len(),
        pos < s.len(),
        e - pos == line_len(s.skip(pos)),
        ce == if e > pos && s[e - 1] == ('\r' as u8) {
            e - 1
        } else {
            e
        },
        next == if e < s.len() {
            e + 1
        } else {
            s.len() as int
        },
    ensures
        first_line(s.skip(pos)) == s.subrange(pos, e),
        clean(first_line(s.skip(pos))) == s.subrange(pos, ce),
        rest_lines(s.skip(pos)) == s.skip(next),
        pos < next,
{
    let t = s.skip(pos);
    assert(first_line(t) =~= s.subrange(pos, e));
    if e > pos && s[e - 1] == ('\r' as u8) {
        assert(first_line(t).last() == s[e - 1]);
        assert(clean(first_line(t)) =~= s.subrange(pos, e - 1));
    } else {
        if e > pos {
            assert(first_line(t).last() == s[e - 1]);
        }
        assert(clean(first_line(t)) =~= s.subrange(pos, e));
    }
    if line_len(t) == t.len() {
        assert(e == s.len());
        assert(rest_lines(t) =~= s.skip(next));
    } else {
        assert(rest_lines(t) =~= s.skip(next));
    }
}

/// Characterizes `line_len` by its position: no line feed before `k`, and
/// one at `k` unless `k` is the end.
proof fn lemma_line_len_at(t: Seq<u8>, k: int)
    requires
        0 <= k <= t.len(),
        forall|j: int| 0 <= j < k ==> t[j] != ('\n' as u8),
        k < t.len() ==> t[k] == ('\n' as u8),
    ensures
        line_len(t) == k,
    decreases t.len(),
{
    if k == 0 {
    } else {
        assert(t[0] != ('\n' as u8));
        assert(forall|j: int|
            0 <= j < k - 1 ==> t.drop_first()[j] == t[j + 1] && t[j + 1] != ('\n' as u8));
        lemma_line_len_at(t.drop_first(), k - 1);
    }
}

/// Scans for the end of the line that starts at `pos`: the position of the
/// next line feed, or the end of `s`.
fn find_line_end(s: &Vec<u8>, pos: usize) -> (e: usize)
    requires
        pos <= s@.len(),
    ensures
        pos <= e <= s@.len(),
        e - pos == line_len(s@.skip(pos as int)),
        e == s@.len() || s@[e as int] == ('\n' as u8),
{
    let len = s.len();
    let mut e: usize = pos;
    while e < len
        invariant
            pos <= e <= len,
            len == s@.len(),
            forall|j: int| pos <= j < e ==> s@[j] != ('\n' as u8),
        ensures
            pos <= e <= len,
            len == s@.len(),
            forall|j: int| pos <= j < e ==> s@[j] != ('\n' as u8),
            e == len || s@[e as int] == ('\n' as u8),
        decreases len - e,
    {
        if s[e] == ('\n' as u8) {
            break;
        }
        e += 1;
    }
    proof {
        let t = s@.skip(pos as int);
        assert(forall|j: int| 0 <= j < e - pos ==> #[trigger] t[j] == s@[j + pos]);
        assert(e - pos < t.len() ==> t[e - pos] == s@[e as int]);
        lemma_line_len_at(t, e - pos);
    }
    e
}

/// Compares the bytes of `s` between `a` and `b` with the marker line.
fn matches_marker(s: &Vec<u8>, a: usize, b: usize) -> (r: bool)
    requires
        a <= b <= s@.len(),
    ensures
        r == (s@.subrange(a as int, b as int) == marker()),
{
    let m: Vec<u8> = vstd::slice::slice_to_vec("// Cargo.toml".as_bytes());
    let mlen = m.len();
    if b - a != mlen {
        proof {
            assert(s@.subrange(a as int, b as int).len() != marker().len());
        }
        return false;
    }
    let mut i: usize = 0;
    while i < mlen
        invariant
            0 <= i <= mlen,
            mlen == m@.len(),
            m@ == marker(),
            a + mlen == b,
            b <= s@.len(),
            forall|j: int| 0 <= j < i ==> s@[a + j] == m@[j],
        decreases mlen - i,
    {
        if s[a + i] != m[i] {
            proof {
                assert(s@.subrange(a as int, b as int)[i as int] != marker()[i as int]);
            }
            return false;
        }
        i += 1;
    }
    proof {
        assert(s@.subrange(a as int, b as int) =~= m@);
    }
    true
}

/// Appends the bytes of `s` between `a` and `b` to `r`.
fn push_range(r: &mut Vec<u8>, s: &Vec<u8>, a: usize, b: usize)
    requires
        a <= b <= s@.len(),
    ensures
        final(r)@ == old(r)@ + s@.subrange(a as int, b as int),
{
    let mut j: usize = a;
    proof {
        assert(r@ =~= old(r)@ + s@.subrange(a as int, a as int));
    }
    while j < b
        invariant
            a <= j <= b <= s@.len(),
            r@ == old(r)@ + s@.subrange(a as int, j as int),
        decreases b - j,
    {
        r.push(s[j]);
        proof {
            assert(s@.subrange(a as int, j + 1) =~= s@.subrange(a as int, j as int) + seq![
                s@[j as int],
            ]);
            assert(r@ =~= old(r)@ + s@.subrange(a as int, j + 1));
        }
        j += 1;
    }
}

/// Synthesizes the project manifest: the pristine template with the
/// source's embedded manifest fragment appended.
///
/// The fragment is the block of comment lines right after the first line
/// exactly equal to `// Cargo.toml`, each stripped of the `//` prefix and
/// surrounding whitespace and newline-terminated; a source without the
/// marker leaves the template unchanged.
pub fn synthesize_manifest(template: &Vec<u8>, source: &Vec<u8>) -> (r: Vec<u8>)
    ensures
        r@ == synthesized(template@, source@),
{
    let len = source.len();
    let mut r: Vec<u8> = Vec::new();
    push_range(&mut r, template, 0, template.len());
    proof {
        assert(template@.subrange(0, template@.len() as int) =~= template@);
        assert(r@ =~= template@);
        assert(source@.skip(0) =~= source@);
    }
    let mut pos: usize = 0;
    while pos < len
        invariant
            0 <= pos <= len,
            len == source@.len(),
            r@ == template@,
            fragment(source@.skip(pos as int)) == fragment(source@),
        decreases len - pos,
    {
        let e = find_line_end(source, pos);
        let ce: usize = if e > pos && source[e - 1] == ('\r' as u8) {
            e - 1
        } else {
            e
        };
        let next: usize = if e < len {
            e + 1
        } else {
            len
        };
        proof {
            lemma_line_structure(source@, pos as int, e as int, ce as int, next as int);
        }
        if matches_marker(source, pos, ce) {
            // The marker line: collect the comment block that follows it.
            proof {
                assert(fragment(source@.skip(pos as int)) == collect_fragment(
                    source@.skip(next as int),
                ));
            }
            let ghost goal = synthesized(template@, source@);
            let mut cpos: usize = next;
            loop
                invariant
                    cpos <= len,
                    len == source@.len(),
                    r@ + collect_fragment(source@.skip(cpos as int)) == goal,
                ensures
                    r@ == goal,
                decreases len - cpos,
            {
                if cpos >= len {
                    proof {
                        assert(source@.skip(cpos as int) =~= Seq::<u8>::empty());
                        assert(r@ + collect_fragment(source@.skip(cpos as int)) =~= r@);
                    }
                    break;
                }
                let e2 = find_line_end(source, cpos);
                let ce2: usize = if e2 > cpos && source[e2 - 1] == ('\r' as u8) {
                    e2 - 1
                } else {
                    e2
                };
                let next2: usize = if e2 < len {
                    e2 + 1
                } else {
                    len
                };
                proof {
                    lemma_line_structure(source@, cpos as int, e2 as int, ce2 as int, next2 as int);
                }
                let ghost l = clean(first_line(source@.skip(cpos as int)));
                if ce2 - cpos >= 2 && source[cpos] == ('/' as u8) && source[cpos + 1] == (
                '/' as u8) {
                    proof {
                        assert(l == source@.subrange(cpos as int, ce2 as int));
                        assert(l[0] == source@[cpos as int] && l[1] == source@[cpos as int + 1]);
                        assert(is_comment(l));
                        assert(l.skip(2) =~= source@.subrange(cpos as int + 2, ce2 as int));
                    }
                    // Trim the comment body.
                    let mut a: usize = cpos + 2;
                    while a < ce2 && (source[a] == 32 || (source[a] >= 9 && source[a] <= 13))
                        invariant
                            cpos + 2 <= a <= ce2 <= len,
                            len == source@.len(),
                            trim_left(source@.subrange(cpos as int + 2, ce2 as int)) == trim_left(
                                source@.subrange(a as int, ce2 as int),
                            ),
                        decreases ce2 - a,
                    {
                        proof {
                            let cur = source@.subrange(a as int, ce2 as int);
                            assert(cur.first() == source@[a as int] && is_ws(cur.first()));
                            assert(cur.drop_first() =~= source@.subrange(a as int + 1, ce2 as int));
                        }
                        a += 1;
                    }
                    proof {
                        let cur = source@.subrange(a as int, ce2 as int);
                        if a < ce2 {
                            assert(cur.first() == source@[a as int] && !is_ws(cur.first()));
                        }
                        assert(trim_left(cur) == cur);
                        assert(trim(l.skip(2)) == trim_right(cur));
                    }
                    let mut b2: usize = ce2;
                    while b2 > a && (source[b2 - 1] == 32 || (source[b2 - 1] >= 9 && source[b2 - 1]
                        <= 13))
                        invariant
                            a <= b2 <= ce2 <= len,
                            len == source@.len(),
                            trim_right(source@.subrange(a as int, ce2 as int)) == trim_right(
                                source@.subrange(a as int, b2 as int),
                            ),
                        decreases b2,
                    {
                        proof {
                            let cur = source@.subrange(a as int, b2 as int);
                            assert(cur.last() == source@[b2 as int - 1] && is_ws(cur.last()));
                            assert(cur.drop_last() =~= source@.subrange(a as int, b2 as int - 1));
                        }
                        b2 -= 1;
                    }
                    proof {
                        let cur = source@.subrange(a as int, b2 as int);
                        if b2 > a {
                            assert(cur.last() == source@[b2 as int - 1] && !is_ws(cur.last()));
                        }
                        assert(trim_right(cur) == cur);
                        assert(trim(l.skip(2)) == source@.subrange(a as int, b2 as int));
                    }
                    let ghost r_before = r@;
                    push_range(&mut r, source, a, b2);
                    r.push('\n' as u8);
                    proof {
                        assert(collect_fragment(source@.skip(cpos as int)) == trim(l.skip(2))
                            + seq![('\n' as u8)] + collect_fragment(source@.skip(next2 as int)));
                        assert(r@ =~= r_before + trim(l.skip(2)) + seq![('\n' as u8)]);
                        assert(r@ + collect_fragment(source@.skip(next2 as int)) =~= r_before
                            + collect_fragment(source@.skip(cpos as int)));
                    }
                    cpos = next2;
                } else {
                    proof {
                        assert(l == source@.subrange(cpos as int, ce2 as int));
                        if ce2 - cpos >= 2 {
                            assert(l[0] == source@[cpos as int] && l[1] == source@[cpos as int
                                + 1]);
                        }
                        assert(!is_comment(l));
                        assert(collect_fragment(source@.skip(cpos as int)) =~= Seq::<u8>::empty());
                        assert(r@ + collect_fragment(source@.skip(cpos as int)) =~= r@);
                    }
                    break;
                }
            }
            return r;
        }
        proof {
            assert(fragment(source@.skip(pos as int)) == fragment(source@.skip(next as int)));
        }
        pos = next;
    }
    proof {
        assert(source@.skip(len as int) =~= Seq::<u8>::empty());
        assert(fragment(source@) == Seq::<u8>::empty());
        assert(r@ =~= synthesized(template@, source@));
    }
    r
}

} // verus!
