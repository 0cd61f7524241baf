//! ASCII case folding and substring matching over character sequences.
//!
//! Hardware model strings are classified by case-insensitive substring
//! tests; the specifications here are the vocabulary every classification
//! contract in the crate is written in.

use vstd::prelude::*;
use crate::render::push_char;

verus! {

/// ASCII case folding of a single character: 'A' through 'Z' map to their
/// lower-case counterparts, every other character is unchanged.
pub open spec fn lower_char(c: char) -> char {
    if 65 <= c as u32 && c as u32 <= 90 {
        ((c as u32 + 32) as u8) as char
    } else {
        c
    }
}

/// ASCII case folding of a whole character sequence.
pub open spec fn lower(s: Seq<char>) -> Seq<char> {
    s.map_values(|c: char| lower_char(c))
}

/// `needle` occurs in `hay` starting exactly at position `i`.
pub open spec fn has_sub_at(hay: Seq<char>, needle: Seq<char>, i: int) -> bool {
    0 <= i && i + needle.len() <= hay.len() && hay.subrange(i, i + needle.len() as int)
        == needle
}

/// `needle` occurs somewhere in `hay`, compared character for character.
pub open spec fn has_sub(hay: Seq<char>, needle: Seq<char>) -> bool {
    exists|i: int| has_sub_at(hay, needle, i)
}

/// `needle` occurs somewhere in `hay` once both are ASCII case-folded.
pub open spec fn has_sub_ci(hay: Seq<char>, needle: Seq<char>) -> bool {
    has_sub(lower(hay), lower(needle))
}

/// Case folding applied when `ci` is set, identity otherwise.
pub open spec fn fold_case(s: Seq<char>, ci: bool) -> Seq<char> {
    if ci {
        lower(s)
    } else {
        s
    }
}

/// One character of `s`, case-folded when `ci` is set.
fn pick_char(s: &str, i: usize, ci: bool) -> (r: char)
    requires
        i < s@.len(),
    ensures
        r == fold_case(s@, ci)[i as int],
{
    let c = s.get_char(i);
    if ci {
        let x: u32 = c as u32;
        if 65 <= x && x <= 90 {
            let l: char = ((x + 32) as u8) as char;
            proof {
                assert(lower(s@)[i as int] == lower_char(s@[i as int]));
            }
            l
        } else {
            proof {
                assert(lower(s@)[i as int] == lower_char(s@[i as int]));
            }
            c
        }
    } else {
        c
    }
}

/// Whether `needle` matches `hay` at position `i`, each side under its own
/// optional case folding.
fn match_at(hay: &str, needle: &str, i: usize, nlen: usize, ci_hay: bool, ci_needle: bool) -> (r:
    bool)
    requires
        nlen == needle@.len(),
        i + nlen <= hay@.len(),
        i + nlen <= usize::MAX,
    ensures
        r == has_sub_at(fold_case(hay@, ci_hay), fold_case(needle@, ci_needle), i as int),
{
    let ghost gh = fold_case(hay@, ci_hay);
    let ghost gn = fold_case(needle@, ci_needle);
    proof {
        assert(gh.len() == hay@.len());
        assert(gn.len() == needle@.len());
    }
    let mut j: usize = 0;
    while j < nlen
        invariant
            nlen == needle@.len(),
            i + nlen <= hay@.len(),
            i + nlen <= usize::MAX,
            j <= nlen,
            gh == fold_case(hay@, ci_hay),
            gn == fold_case(needle@, ci_needle),
            gh.len() == hay@.len(),
            gn.len() == needle@.len(),
            forall|k: int| 0 <= k < j ==> gh[i + k] == gn[k],
        decreases nlen - j,
    {
        let hc = pick_char(hay, i + j, ci_hay);
        let nc = pick_char(needle, j, ci_needle);
        if hc != nc {
            proof {
                if has_sub_at(gh, gn, i as int) {
                    assert(gh.subrange(i as int, i + gn.len() as int)[j as int]
                        == gh[i as int + j as int]);
                }
            }
            return false;
        }
        j += 1;
    }
    proof {
        assert(gh.subrange(i as int, i + gn.len() as int) =~= gn);
    }
    true
}

/// Substring search, each side under its own optional case folding.
fn contains_folded(hay: &str, needle: &str, ci_hay: bool, ci_needle: bool) -> (r: bool)
    ensures
        r == has_sub(fold_case(hay@, ci_hay), fold_case(needle@, ci_needle)),
{
    let ghost gh = fold_case(hay@, ci_hay);
    let ghost gn = fold_case(needle@, ci_needle);
    proof {
        assert(gh.len() == hay@.len());
        assert(gn.len() == needle@.len());
    }
    let hlen = hay.unicode_len();
    let nlen = needle.unicode_len();
    if nlen > hlen {
        proof {
            assert(forall|k: int| !has_sub_at(gh, gn, k));
        }
        return false;
    }
    if nlen == 0 {
        proof {
            assert(gh.subrange(0, 0) =~= gn);
            assert(has_sub_at(gh, gn, 0));
        }
        return true;
    }
    let mut i: usize = 0;
    while i <= hlen - nlen
        invariant
            0 < nlen <= hlen,
            hlen == hay@.len(),
            nlen == needle@.len(),
            i <= hlen - nlen + 1,
            gh == fold_case(hay@, ci_hay),
            gn == fold_case(needle@, ci_needle),
            gh.len() == hay@.len(),
            gn.len() == needle@.len(),
            forall|k: int| 0 <= k < i ==> !has_sub_at(gh, gn, k),
        decreases hlen - nlen - i + 1,
    {
        if match_at(hay, needle, i, nlen, ci_hay, ci_needle) {
            proof {
                assert(has_sub_at(gh, gn, i as int));
            }
            return true;
        }
        i += 1;
    }
    proof {
        assert(forall|k: int| has_sub_at(gh, gn, k) ==> 0 <= k <= hlen - nlen);
    }
    false
}

/// Case-sensitive substring test.
pub fn contains_sub(hay: &str, needle: &str) -> (r: bool)
    ensures
        r == has_sub(hay@, needle@),
{
    contains_folded(hay, needle, false, false)
}

/// ASCII case-insensitive substring test.
pub fn contains_sub_ci(hay: &str, needle: &str) -> (r: bool)
    ensures
        r == has_sub_ci(hay@, needle@),
{
    contains_folded(hay, needle, true, true)
}

/// Whether the already-folded `needle` occurs in the case-folded `hay`.
pub fn contains_in_lower(hay: &str, needle: &str) -> (r: bool)
    ensures
        r == has_sub(lower(hay@), needle@),
{
    contains_folded(hay, needle, true, false)
}

/// The whitespace class used by token splitting.
pub open spec fn is_space(c: char) -> bool {
    c == ' ' || c == '\t' || c == '\n' || c == '\r'
}

/// `s` with its leading whitespace removed.
pub open spec fn skip_spaces(s: Seq<char>) -> Seq<char>
    decreases s.len(),
{
    if s.len() > 0 && is_space(s[0]) {
        skip_spaces(s.drop_first())
    } else {
        s
    }
}

/// The leading run of non-whitespace characters of `s`.
pub open spec fn head_token(s: Seq<char>) -> Seq<char>
    decreases s.len(),
{
    if s.len() > 0 && !is_space(s[0]) {
        seq![s[0]] + head_token(s.drop_first())
    } else {
        Seq::empty()
    }
}

/// `s` with its leading run of non-whitespace characters removed.
pub open spec fn past_token(s: Seq<char>) -> Seq<char>
    decreases s.len(),
{
    if s.len() > 0 && !is_space(s[0]) {
        past_token(s.drop_first())
    } else {
        s
    }
}

/// The first two whitespace-separated tokens of `s`, joined by one space;
/// the second token and the joining space are absent when `s` has fewer
/// tokens.
pub open spec fn two_token_prefix(s: Seq<char>) -> Seq<char> {
    let first = head_token(skip_spaces(s));
    let second = head_token(skip_spaces(past_token(skip_spaces(s))));
    if first.len() == 0 {
        Seq::empty()
    } else if second.len() == 0 {
        first
    } else {
        first + seq![' '] + second
    }
}

/// Exec test for the whitespace class.
fn space_char(c: char) -> (r: bool)
    ensures
        r == is_space(c),
{
    c == ' ' || c == '\t' || c == '\n' || c == '\r'
}

/// Whether the case-folded character of `s` at `i` is whitespace.
fn folded_space_at(s: &str, i: usize) -> (r: bool)
    requires
        i < s@.len(),
    ensures
        r == is_space(lower(s@)[i as int]),
{
    space_char(pick_char(s, i, true))
}

/// The case-folded two-token prefix of a name: the key an adapter name is
/// looked up under in the display-controller inventory.
pub fn lower_two_token_prefix(name: &str) -> (r: String)
    ensures
        r@ == two_token_prefix(lower(name@)),
{
    let ghost l = lower(name@);
    proof {
        assert(l.len() == name@.len());
        assert(l.skip(0) =~= l);
    }
    let len = name.unicode_len();
    let mut out = String::new();
    let mut i: usize = 0;
    while i < len && folded_space_at(name, i)
        invariant
            len == name@.len(),
            l == lower(name@),
            l.len() == len,
            i <= len,
            skip_spaces(l) == skip_spaces(l.skip(i as int)),
        decreases len - i,
    {
        proof {
            assert(l.skip(i as int)[0] == l[i as int]);
            assert(l.skip(i as int).drop_first() =~= l.skip(i as int + 1));
        }
        i += 1;
    }
    proof {
        if i == len {
            assert(l.skip(i as int) =~= Seq::<char>::empty());
        }
        assert(skip_spaces(l) == l.skip(i as int));
    }
    let ghost s1 = l.skip(i as int);
    proof {
        assert(Seq::<char>::empty() + head_token(s1) =~= head_token(s1));
    }
    while i < len && !folded_space_at(name, i)
        invariant
            len == name@.len(),
            l == lower(name@),
            l.len() == len,
            i <= len,
            s1 == skip_spaces(l),
            head_token(s1) == out@ + head_token(l.skip(i as int)),
            past_token(s1) == past_token(l.skip(i as int)),
        decreases len - i,
    {
        let c = pick_char(name, i, true);
        let ghost outv = out@;
        push_char(&mut out, c);
        proof {
            assert(l.skip(i as int)[0] == l[i as int]);
            assert(l.skip(i as int).drop_first() =~= l.skip(i as int + 1));
            assert(outv + (seq![c] + head_token(l.skip(i as int + 1))) =~= outv.push(c)
                + head_token(l.skip(i as int + 1)));
        }
        i += 1;
    }
    proof {
        if i == len {
            assert(l.skip(i as int) =~= Seq::<char>::empty());
        }
        assert(head_token(l.skip(i as int)) =~= Seq::<char>::empty());
        assert(out@ + Seq::<char>::empty() =~= out@);
        assert(out@ == head_token(s1));
        assert(past_token(s1) == l.skip(i as int));
    }
    let ghost t1 = head_token(s1);
    while i < len && folded_space_at(name, i)
        invariant
            len == name@.len(),
            l == lower(name@),
            l.len() == len,
            i <= len,
            s1 == skip_spaces(l),
            t1 == head_token(s1),
            out@ == t1,
            skip_spaces(past_token(s1)) == skip_spaces(l.skip(i as int)),
        decreases len - i,
    {
        proof {
            assert(l.skip(i as int)[0] == l[i as int]);
            assert(l.skip(i as int).drop_first() =~= l.skip(i as int + 1));
        }
        i += 1;
    }
    proof {
        if i == len {
            assert(l.skip(i as int) =~= Seq::<char>::empty());
        }
        assert(skip_spaces(past_token(s1)) == l.skip(i as int));
    }
    let ghost r1 = l.skip(i as int);
    if i < len {
        proof {
            assert(r1[0] == l[i as int]);
            assert(!is_space(r1[0]));
            assert(head_token(r1).len() > 0);
            // a non-empty remainder after the first token means the first
            // token itself was non-empty
            if t1.len() == 0 {
                assert(past_token(s1) == s1);
                assert(s1.len() > 0 ==> !is_space(s1[0]));
                if s1.len() > 0 {
                    assert(head_token(s1) == seq![s1[0]] + head_token(s1.drop_first()));
                    assert(head_token(s1).len() > 0);
                } else {
                    assert(skip_spaces(s1) =~= s1);
                    assert(r1.len() == 0);
                }
            }
            assert(t1.len() > 0);
        }
        push_char(&mut out, ' ');
        let ghost base = out@;
        proof {
            assert(base =~= t1.push(' '));
            assert(base + head_token(r1) =~= t1 + seq![' '] + head_token(r1));
        }
        while i < len && !folded_space_at(name, i)
            invariant
                len == name@.len(),
                l == lower(name@),
                l.len() == len,
                i <= len,
                s1 == skip_spaces(l),
                t1 == head_token(s1),
                r1 == skip_spaces(past_token(s1)),
                t1 + seq![' '] + head_token(r1) == out@ + head_token(l.skip(i as int)),
            decreases len - i,
        {
            let c = pick_char(name, i, true);
            let ghost outv = out@;
            push_char(&mut out, c);
            proof {
                assert(l.skip(i as int)[0] == l[i as int]);
                assert(l.skip(i as int).drop_first() =~= l.skip(i as int + 1));
                assert(outv + (seq![c] + head_token(l.skip(i as int + 1))) =~= outv.push(c)
                    + head_token(l.skip(i as int + 1)));
            }
            i += 1;
        }
        proof {
            if i == len {
                assert(l.skip(i as int) =~= Seq::<char>::empty());
            }
            assert(head_token(l.skip(i as int)) =~= Seq::<char>::empty());
            assert(out@ + Seq::<char>::empty() =~= out@);
            assert(out@ == t1 + seq![' '] + head_token(r1));
            assert(out@ == two_token_prefix(l));
        }
    } else {
        proof {
            assert(r1.len() == 0);
            assert(head_token(r1) =~= Seq::<char>::empty());
            if t1.len() == 0 {
                assert(out@ =~= Seq::<char>::empty());
            }
            assert(out@ == two_token_prefix(l));
        }
    }
    out
}

} // verus!
