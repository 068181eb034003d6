//! Unicode white space, and text without it at either end.

use vstd::prelude::*;
use vstd::string::*;

verus! {

/// Whether `c` has the Unicode property `White_Space`.
pub open spec fn spec_is_white_space(c: char) -> bool {
    ||| '\u{9}' <= c <= '\u{D}'
    ||| c == ' '
    ||| c == '\u{85}'
    ||| c == '\u{A0}'
    ||| c == '\u{1680}'
    ||| '\u{2000}' <= c <= '\u{200A}'
    ||| c == '\u{2028}'
    ||| c == '\u{2029}'
    ||| c == '\u{202F}'
    ||| c == '\u{205F}'
    ||| c == '\u{3000}'
}

/// Whether `s` holds white space only.
pub open spec fn all_white_space(s: Seq<char>) -> bool {
    forall|i: int| 0 <= i < s.len() ==> is_white_space(#[trigger] s[i])
}

/// `s` without the white space it starts with.
pub open spec fn trim_start(s: Seq<char>) -> Seq<char>
    decreases s.len(),
{
    if s.len() > 0 && is_white_space(s.first()) {
        trim_start(s.drop_first())
    } else {
        s
    }
}

/// `s` without the white space it ends with.
pub open spec fn trim_end(s: Seq<char>) -> Seq<char>
    decreases s.len(),
{
    if s.len() > 0 && is_white_space(s.last()) {
        trim_end(s.drop_last())
    } else {
        s
    }
}

/// `s` without the white space at either end.
pub open spec fn trimmed(s: Seq<char>) -> Seq<char> {
    trim_end(trim_start(s))
}

/// Whether `s[from..to]` is what is left of `s` once the white space at both
/// ends is gone: all before `from` and all from `to` on is white space, and
/// the part between them, if there is any, neither starts nor ends with it.
pub open spec fn is_trim_bounds(s: Seq<char>, from: int, to: int) -> bool {
    &&& 0 <= from <= to <= s.len()
    &&& all_white_space(s.subrange(0, from))
    &&& all_white_space(s.subrange(to, s.len() as int))
    &&& from < to ==> !is_white_space(s[from]) && !is_white_space(s[to - 1])
}

/// Whether `c` has the Unicode property `White_Space`.
#[verifier::when_used_as_spec(spec_is_white_space)]
pub fn is_white_space(c: char) -> (r: bool)
    ensures
        r == spec_is_white_space(c),
{
    ('\u{9}' <= c && c <= '\u{D}') || c == ' ' || c == '\u{85}' || c == '\u{A0}' || c == '\u{1680}'
        || ('\u{2000}' <= c && c <= '\u{200A}') || c == '\u{2028}' || c == '\u{2029}' || c
        == '\u{202F}' || c == '\u{205F}' || c == '\u{3000}'
}

/// The part of `s` between its leading and its trailing white space.
pub fn trim(s: &str) -> (t: &str)
    ensures
        t@ == trimmed(s@),
{
    // The length bounds the positions counted below.
    let len = s.unicode_len();
    let mut from: usize = 0;
    let mut to: usize = 0;
    let mut at: usize = 0;
    for c in it: s.chars()
        invariant
            it.seq() == s@,
            len == s@.len(),
            at == it.index(),
            is_trim_bounds(s@.subrange(0, at as int), from as int, to as int),
    {
        proof {
            lemma_trim_bounds_step(s@.subrange(0, at as int), from as int, to as int, c);
            assert(s@.subrange(0, at + 1) =~= s@.subrange(0, at as int).push(c));
        }
        if !is_white_space(c) {
            if from == to {
                from = at;
            }
            to = at + 1;
        }
        at = at + 1;
    }
    proof {
        assert(s@.subrange(0, at as int) =~= s@);
        lemma_trim_bounds_give_trimmed(s@, from as int, to as int);
    }
    s.substring_char(from, to)
}

/// How trim bounds move when one more character is read.
proof fn lemma_trim_bounds_step(s: Seq<char>, from: int, to: int, c: char)
    requires
        is_trim_bounds(s, from, to),
    ensures
        is_white_space(c) ==> is_trim_bounds(s.push(c), from, to),
        !is_white_space(c) && from == to ==> is_trim_bounds(
            s.push(c),
            s.len() as int,
            s.len() as int + 1,
        ),
        !is_white_space(c) && from < to ==> is_trim_bounds(s.push(c), from, s.len() as int + 1),
{
    let len = s.len() as int;
    let next = s.push(c);
    assert(next.subrange(0, from) =~= s.subrange(0, from));
    assert(next.subrange(len + 1, len + 1) =~= Seq::<char>::empty());
    if is_white_space(c) {
        assert forall|i: int| 0 <= i < len + 1 - to implies is_white_space(
            #[trigger] next.subrange(to, len + 1)[i],
        ) by {
            if to + i < len {
                assert(next.subrange(to, len + 1)[i] == s.subrange(to, len)[i]);
            }
        }
    } else if from == to {
        assert forall|i: int| 0 <= i < len implies is_white_space(
            #[trigger] next.subrange(0, len)[i],
        ) by {
            if i < from {
                assert(next.subrange(0, len)[i] == s.subrange(0, from)[i]);
            } else {
                assert(next.subrange(0, len)[i] == s.subrange(to, len)[i - to]);
            }
        }
    }
}

/// Dropping `from` leading white-space characters, where the next one is
/// none, is `trim_start`.
pub proof fn lemma_trim_start_at(s: Seq<char>, from: int)
    requires
        0 <= from <= s.len(),
        all_white_space(s.subrange(0, from)),
        from < s.len() ==> !is_white_space(s[from]),
    ensures
        trim_start(s) == s.subrange(from, s.len() as int),
    decreases from,
{
    if from == 0 {
        assert(s.subrange(0, s.len() as int) =~= s);
    } else {
        assert(s.subrange(0, from)[0] == s[0]);
        let rest = s.drop_first();
        assert forall|i: int| 0 <= i < from - 1 implies is_white_space(
            #[trigger] rest.subrange(0, from - 1)[i],
        ) by {
            assert(rest.subrange(0, from - 1)[i] == s.subrange(0, from)[i + 1]);
        }
        lemma_trim_start_at(rest, from - 1);
        assert(rest.subrange(from - 1, rest.len() as int) =~= s.subrange(from, s.len() as int));
    }
}

/// Keeping the first `to` characters, where all after them are white space
/// and the last one kept is none, is `trim_end`.
pub proof fn lemma_trim_end_at(s: Seq<char>, to: int)
    requires
        0 <= to <= s.len(),
        all_white_space(s.subrange(to, s.len() as int)),
        0 < to ==> !is_white_space(s[to - 1]),
    ensures
        trim_end(s) == s.subrange(0, to),
    decreases s.len() - to,
{
    if to == s.len() {
        assert(s.subrange(0, to) =~= s);
    } else {
        let tail = s.subrange(to, s.len() as int);
        assert(tail[tail.len() - 1] == s.last());
        let rest = s.drop_last();
        assert forall|i: int| 0 <= i < rest.len() - to implies is_white_space(
            #[trigger] rest.subrange(to, rest.len() as int)[i],
        ) by {
            assert(rest.subrange(to, rest.len() as int)[i] == tail[i]);
        }
        lemma_trim_end_at(rest, to);
        assert(rest.subrange(0, to) =~= s.subrange(0, to));
    }
}

/// Trim bounds give the trimmed text.
pub proof fn lemma_trim_bounds_give_trimmed(s: Seq<char>, from: int, to: int)
    requires
        is_trim_bounds(s, from, to),
    ensures
        trimmed(s) == s.subrange(from, to),
{
    let len = s.len() as int;
    if from < to {
        lemma_trim_start_at(s, from);
        let rest = s.subrange(from, len);
        assert forall|i: int| 0 <= i < len - to implies is_white_space(
            #[trigger] rest.subrange(to - from, rest.len() as int)[i],
        ) by {
            assert(rest.subrange(to - from, rest.len() as int)[i] == s.subrange(to, len)[i]);
        }
        lemma_trim_end_at(rest, to - from);
        assert(rest.subrange(0, to - from) =~= s.subrange(from, to));
    } else {
        // Nothing but white space: whatever `from` is, nothing is left.
        assert forall|i: int| 0 <= i < len implies is_white_space(
            #[trigger] s.subrange(0, len)[i],
        ) by {
            if i < from {
                assert(s.subrange(0, len)[i] == s.subrange(0, from)[i]);
            } else {
                assert(s.subrange(0, len)[i] == s.subrange(to, len)[i - to]);
            }
        }
        lemma_trim_start_at(s, len);
        assert(s.subrange(len, len) =~= Seq::<char>::empty());
        assert(s.subrange(from, to) =~= Seq::<char>::empty());
    }
}

/// What `trim_start` removes is white space, and what it leaves is the rest
/// of `s`, which does not start with white space.
pub proof fn lemma_trim_start_shape(s: Seq<char>)
    ensures
        trim_start(s).len() <= s.len(),
        trim_start(s) == s.subrange(s.len() - trim_start(s).len(), s.len() as int),
        all_white_space(s.subrange(0, s.len() - trim_start(s).len())),
        trim_start(s).len() > 0 ==> !is_white_space(trim_start(s).first()),
    decreases s.len(),
{
    let len = s.len() as int;
    if len > 0 && is_white_space(s.first()) {
        let rest = s.drop_first();
        lemma_trim_start_shape(rest);
        let kept = trim_start(rest).len() as int;
        assert(rest.subrange(rest.len() - kept, rest.len() as int) =~= s.subrange(len - kept, len));
        assert forall|i: int| 0 <= i < len - kept implies is_white_space(
            #[trigger] s.subrange(0, len - kept)[i],
        ) by {
            if i > 0 {
                assert(s.subrange(0, len - kept)[i] == rest.subrange(0, rest.len() - kept)[i - 1]);
            }
        }
    } else {
        assert(s.subrange(0, len) =~= s);
    }
}

/// What `trim_end` removes is white space, and what it leaves is the start of
/// `s`, which does not end with white space.
pub proof fn lemma_trim_end_shape(s: Seq<char>)
    ensures
        trim_end(s).len() <= s.len(),
        trim_end(s) == s.subrange(0, trim_end(s).len() as int),
        all_white_space(s.subrange(trim_end(s).len() as int, s.len() as int)),
        trim_end(s).len() > 0 ==> !is_white_space(trim_end(s).last()),
    decreases s.len(),
{
    let len = s.len() as int;
    if len > 0 && is_white_space(s.last()) {
        let rest = s.drop_last();
        lemma_trim_end_shape(rest);
        let kept = trim_end(rest).len() as int;
        assert(rest.subrange(0, kept) =~= s.subrange(0, kept));
        assert forall|i: int| 0 <= i < len - kept implies is_white_space(
            #[trigger] s.subrange(kept, len)[i],
        ) by {
            if kept + i < len - 1 {
                assert(s.subrange(kept, len)[i] == rest.subrange(kept, rest.len() as int)[i]);
            }
        }
    } else {
        assert(s.subrange(0, len) =~= s);
    }
}

/// Where the trimmed text starts in `s`.
pub open spec fn trim_from(s: Seq<char>) -> int {
    s.len() - trim_start(s).len()
}

/// Where the trimmed text ends in `s`.
pub open spec fn trim_to(s: Seq<char>) -> int {
    trim_from(s) + trimmed(s).len()
}

/// Trimming cuts one piece out of the text and changes nothing inside it:
/// `trimmed(s)` is `s` from `trim_from(s)` to `trim_to(s)`, all that is left
/// out is white space, and what is kept neither starts nor ends with it.
pub proof fn lemma_trimmed_is_inner_part(s: Seq<char>)
    ensures
        is_trim_bounds(s, trim_from(s), trim_to(s)),
        trimmed(s) == s.subrange(trim_from(s), trim_to(s)),
{
    let len = s.len() as int;
    let tail = trim_start(s);
    let from = trim_from(s);
    let to = trim_to(s);
    lemma_trim_start_shape(s);
    lemma_trim_end_shape(tail);
    assert(tail.subrange(0, to - from) =~= s.subrange(from, to));
    assert(tail.subrange(to - from, tail.len() as int) =~= s.subrange(to, len));
    if from < to {
        assert(trimmed(s).last() == s[to - 1]);
        assert(tail.first() == s[from]);
    }
}

/// The trimmed text is the only part of `s` that has trim bounds.
pub proof fn lemma_trimmed_is_unique(s: Seq<char>, from: int, to: int)
    requires
        is_trim_bounds(s, from, to),
    ensures
        s.subrange(from, to) == trimmed(s),
        from < to ==> from == trim_from(s) && to == trim_to(s),
{
    lemma_trim_bounds_give_trimmed(s, from, to);
    lemma_trimmed_is_inner_part(s);
    let f = trim_from(s);
    let t = trim_to(s);
    if from < to {
        assert(s.subrange(from, to).len() == s.subrange(f, t).len());
        if from < f {
            assert(s.subrange(0, f)[from] == s[from]);
        } else if f < from {
            assert(s.subrange(0, from)[f] == s[f]);
        }
    }
}

/// Text that neither starts nor ends with white space is its own trimmed
/// text; so is the empty text.
pub proof fn lemma_trimmed_of_tight(s: Seq<char>)
    requires
        s.len() > 0 ==> !is_white_space(s.first()) && !is_white_space(s.last()),
    ensures
        trimmed(s) == s,
{
    assert(s.subrange(0, s.len() as int) =~= s);
    lemma_trim_bounds_give_trimmed(s, 0, s.len() as int);
}

/// Trimming twice is trimming once.
pub proof fn lemma_trimmed_idempotent(s: Seq<char>)
    ensures
        trimmed(trimmed(s)) == trimmed(s),
{
    lemma_trimmed_is_inner_part(s);
    lemma_trimmed_of_tight(trimmed(s));
}

} // verus!
