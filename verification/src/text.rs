//! Text operations on `&str`, specified over sequences of characters.
//!
//! Positions count characters, not bytes.  A character is reached by
//! counting from the start of the text, so a scan costs the square of the
//! position it stops at: these functions are meant for short texts and for
//! the ends of long ones.

use vstd::prelude::*;
use vstd::string::*;

verus! {

/// Whether `c` has the Unicode property `White_Space`.
pub open spec fn is_whitespace(c: char) -> bool {
    ||| 0x09 <= c as u32 <= 0x0d
    ||| c == ' '
    ||| c == '\u{85}'
    ||| c == '\u{a0}'
    ||| c == '\u{1680}'
    ||| 0x2000 <= c as u32 <= 0x200a
    ||| c == '\u{2028}'
    ||| c == '\u{2029}'
    ||| c == '\u{202f}'
    ||| c == '\u{205f}'
    ||| c == '\u{3000}'
}

/// `s` without the white space it starts with.
pub open spec fn trimmed_start(s: Seq<char>) -> Seq<char>
    decreases s.len(),
{
    if s.len() > 0 && is_whitespace(s.first()) {
        trimmed_start(s.drop_first())
    } else {
        s
    }
}

/// `s` without the white space it ends with.
pub open spec fn trimmed_end(s: Seq<char>) -> Seq<char>
    decreases s.len(),
{
    if s.len() > 0 && is_whitespace(s.last()) {
        trimmed_end(s.drop_last())
    } else {
        s
    }
}

/// `s` without the white space at either end.
pub open spec fn trimmed(s: Seq<char>) -> Seq<char> {
    trimmed_end(trimmed_start(s))
}

/// The second of the fields that `sep` divides `s` into: what stands between
/// the first `sep` and the next one, or the end of `s` where no other
/// follows.  There is none when `s` holds no `sep`.
pub open spec fn second_field(s: Seq<char>, sep: char) -> Option<Seq<char>> {
    match s.index_of_first(sep) {
        Some(first) => {
            let rest = s.skip(first + 1);
            match rest.index_of_first(sep) {
                Some(next) => Some(rest.take(next)),
                None => Some(rest),
            }
        },
        None => None,
    }
}

/// Executable form of [`is_whitespace`].
pub fn is_whitespace_char(c: char) -> (b: bool)
    ensures
        b == is_whitespace(c),
{
    let code: u32 = c as u32;
    (0x09 <= code && code <= 0x0d) || code == 0x20 || code == 0x85 || code == 0xa0
        || code == 0x1680 || (0x2000 <= code && code <= 0x200a) || code == 0x2028
        || code == 0x2029 || code == 0x202f || code == 0x205f || code == 0x3000
}

/// When the first `i` characters of `s` are white space and the next one, if
/// there is one, is not, `trimmed_start` removes exactly those `i`.
proof fn lemma_trimmed_start_skips(s: Seq<char>, i: int)
    requires
        0 <= i <= s.len(),
        forall|j: int| 0 <= j < i ==> is_whitespace(#[trigger] s[j]),
        i < s.len() ==> !is_whitespace(s[i]),
    ensures
        trimmed_start(s) == s.skip(i),
    decreases i,
{
    if i > 0 {
        lemma_trimmed_start_skips(s.drop_first(), i - 1);
    }
}

/// When everything in `s` from position `i` on is white space and the
/// character before `i`, if there is one, is not, `trimmed_end` keeps exactly
/// the first `i` characters.
proof fn lemma_trimmed_end_takes(s: Seq<char>, i: int)
    requires
        0 <= i <= s.len(),
        forall|j: int| i <= j < s.len() ==> is_whitespace(#[trigger] s[j]),
        0 < i ==> !is_whitespace(s[i - 1]),
    ensures
        trimmed_end(s) == s.take(i),
    decreases s.len() - i,
{
    if i < s.len() {
        lemma_trimmed_end_takes(s.drop_last(), i);
    }
}

/// `trimmed(s)` is the stretch of `s` between its leading and its trailing
/// white space.
pub proof fn lemma_trimmed_is_subrange(s: Seq<char>, start: int, end: int)
    requires
        0 <= start <= end <= s.len(),
        forall|j: int| 0 <= j < start ==> is_whitespace(#[trigger] s[j]),
        forall|j: int| end <= j < s.len() ==> is_whitespace(#[trigger] s[j]),
        start < end ==> !is_whitespace(s[start]) && !is_whitespace(s[end - 1]),
    ensures
        trimmed(s) == s.subrange(start, end),
{
    if start == end {
        // Nothing but white space: the scan from the left runs to the end.
        lemma_trimmed_start_skips(s, s.len() as int);
    } else {
        lemma_trimmed_start_skips(s, start);
        lemma_trimmed_end_takes(s.skip(start), end - start);
    }
}

/// A text that neither starts nor ends with white space is its own trimmed
/// form.
pub proof fn lemma_trimmed_keeps_tight(s: Seq<char>)
    requires
        s.len() > 0 ==> !is_whitespace(s.first()) && !is_whitespace(s.last()),
    ensures
        trimmed(s) == s,
{
    lemma_trimmed_is_subrange(s, 0, s.len() as int);
}

/// What is left of `s` after `trimmed_start` does not start with white space.
proof fn lemma_trimmed_start_is_tight(s: Seq<char>)
    ensures
        trimmed_start(s).len() > 0 ==> !is_whitespace(trimmed_start(s).first()),
    decreases s.len(),
{
    if s.len() > 0 && is_whitespace(s.first()) {
        lemma_trimmed_start_is_tight(s.drop_first());
    }
}

/// What is left of `s` after `trimmed_end` is the start of `s` and does not
/// end with white space.
proof fn lemma_trimmed_end_is_tight(s: Seq<char>)
    ensures
        trimmed_end(s).len() <= s.len(),
        trimmed_end(s) == s.take(trimmed_end(s).len() as int),
        trimmed_end(s).len() > 0 ==> !is_whitespace(trimmed_end(s).last()),
    decreases s.len(),
{
    if s.len() > 0 && is_whitespace(s.last()) {
        lemma_trimmed_end_is_tight(s.drop_last());
    }
}

/// A trimmed text neither starts nor ends with white space, so trimming it
/// once more changes nothing.
pub proof fn lemma_trimmed_is_tight(s: Seq<char>)
    ensures
        trimmed(s).len() > 0 ==> !is_whitespace(trimmed(s).first()) && !is_whitespace(
            trimmed(s).last(),
        ),
        trimmed(trimmed(s)) == trimmed(s),
{
    lemma_trimmed_start_is_tight(s);
    lemma_trimmed_end_is_tight(trimmed_start(s));
    lemma_trimmed_keeps_tight(trimmed(s));
}

/// `index_of_first` is `None` on a sequence that does not hold the value.
pub proof fn lemma_index_of_first_absent(s: Seq<char>, c: char)
    requires
        forall|j: int| 0 <= j < s.len() ==> s[j] != c,
    ensures
        s.index_of_first(c) is None,
{
    s.index_of_first_ensures(c);
}

/// `index_of_first` is the position before which the value does not occur
/// and at which it does.
pub proof fn lemma_index_of_first_at(s: Seq<char>, c: char, i: int)
    requires
        0 <= i < s.len(),
        s[i] == c,
        forall|j: int| 0 <= j < i ==> s[j] != c,
    ensures
        s.index_of_first(c) == Some(i),
{
    s.index_of_first_ensures(c);
}

/// Copies `s` without the white space at either end.
pub fn trim(s: &str) -> (t: String)
    ensures
        t@ == trimmed(s@),
{
    let len: usize = s.unicode_len();
    let mut start: usize = 0;
    while start < len
        invariant
            start <= len == s@.len(),
            forall|j: int| 0 <= j < start ==> is_whitespace(#[trigger] s@[j]),
        ensures
            start <= len,
            forall|j: int| 0 <= j < start ==> is_whitespace(#[trigger] s@[j]),
            start < len ==> !is_whitespace(s@[start as int]),
        decreases len - start,
    {
        if !is_whitespace_char(s.get_char(start)) {
            break;
        }
        start += 1;
    }
    let mut end: usize = len;
    while end > start
        invariant
            start <= end <= len == s@.len(),
            forall|j: int| end <= j < len ==> is_whitespace(#[trigger] s@[j]),
        ensures
            start <= end <= len,
            forall|j: int| end <= j < len ==> is_whitespace(#[trigger] s@[j]),
            start < end ==> !is_whitespace(s@[end - 1]),
        decreases end,
    {
        if !is_whitespace_char(s.get_char(end - 1)) {
            break;
        }
        end -= 1;
    }
    proof {
        lemma_trimmed_is_subrange(s@, start as int, end as int);
    }
    s.substring_char(start, end).to_owned()
}

/// The position of the first `c` in `s` at or after `from`, or the length of
/// `s` where there is none.
fn find_from(s: &str, from: usize, c: char) -> (at: usize)
    requires
        from <= s@.len(),
    ensures
        from <= at <= s@.len(),
        forall|j: int| from <= j < at ==> s@[j] != c,
        at < s@.len() ==> s@[at as int] == c,
{
    let len: usize = s.unicode_len();
    let mut at: usize = from;
    while at < len
        invariant
            from <= at <= len == s@.len(),
            forall|j: int| from <= j < at ==> s@[j] != c,
        ensures
            from <= at <= len,
            forall|j: int| from <= j < at ==> s@[j] != c,
            at < len ==> s@[at as int] == c,
        decreases len - at,
    {
        if s.get_char(at) == c {
            break;
        }
        at += 1;
    }
    at
}

/// The second of the fields that `sep` divides `s` into, if `s` holds a
/// `sep`.
pub fn split_second<'a>(s: &'a str, sep: char) -> (field: Option<&'a str>)
    ensures
        field is Some <==> second_field(s@, sep) is Some,
        field matches Some(f) ==> second_field(s@, sep) == Some(f@),
{
    let len: usize = s.unicode_len();
    let first: usize = find_from(s, 0, sep);
    if first == len {
        proof {
            lemma_index_of_first_absent(s@, sep);
        }
        return None;
    }
    let start: usize = first + 1;
    let end: usize = find_from(s, start, sep);
    proof {
        lemma_index_of_first_at(s@, sep, first as int);
        let rest = s@.skip(start as int);
        if end < len {
            lemma_index_of_first_at(rest, sep, end - start);
        } else {
            lemma_index_of_first_absent(rest, sep);
        }
    }
    Some(s.substring_char(start, end))
}

} // verus!
