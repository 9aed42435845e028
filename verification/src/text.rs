//! Text typed at a prompt: what counts as blank, and what is left of a line
//! once the white space around it is gone.

use vstd::prelude::*;

verus! {

/// What `char::is_whitespace` answers for `c`. The standard library
/// defines it by Unicode's `White_Space` property.
pub uninterp spec fn white_space_property(c: char) -> bool;

/// Whether `c` is white space. The space and the line break are; of every
/// other character the standard library decides.
pub open spec fn is_whitespace(c: char) -> bool {
    c == ' ' || c == '\n' || white_space_property(c)
}

/// Taken on trust of `char::is_whitespace` in the standard library: it
/// says yes to the space and to the line break, as its documentation shows,
/// and its answer is a function of the character alone, which is named
/// [`white_space_property`]. Of no other character is it said here whether
/// it is white space, so that what is proved of trimming holds whatever the
/// answer for it is.
pub assume_specification[ char::is_whitespace ](c: char) -> (r: bool)
    ensures
        r == (c == ' ' || c == '\n' || white_space_property(c)),
;

/// `s` without the white space at its front.
pub open spec fn skip_leading(s: Seq<char>) -> Seq<char>
    decreases s.len(),
{
    if s.len() > 0 && is_whitespace(s.first()) {
        skip_leading(s.drop_first())
    } else {
        s
    }
}

/// `s` without the white space at its end.
pub open spec fn skip_trailing(s: Seq<char>) -> Seq<char>
    decreases s.len(),
{
    if s.len() > 0 && is_whitespace(s.last()) {
        skip_trailing(s.drop_last())
    } else {
        s
    }
}

/// `s` without the white space at either end.
pub open spec fn trimmed(s: Seq<char>) -> Seq<char> {
    skip_trailing(skip_leading(s))
}

/// A line is blank when nothing is left of it after trimming.
pub open spec fn is_blank(s: Seq<char>) -> bool {
    trimmed(s).len() == 0
}

/// The white space at the front of `s` ends where its first other character
/// stands.
proof fn lemma_skip_leading(s: Seq<char>, from: int)
    requires
        0 <= from <= s.len(),
        forall|i: int| 0 <= i < from ==> is_whitespace(#[trigger] s[i]),
        from < s.len() ==> !is_whitespace(s[from]),
    ensures
        skip_leading(s) == s.subrange(from, s.len() as int),
    decreases from,
{
    if from == 0 {
        assert(s.subrange(0, s.len() as int) =~= s);
    } else {
        let rest = s.drop_first();
        assert(is_whitespace(s[0]));
        assert forall|i: int| 0 <= i < from - 1 implies is_whitespace(#[trigger] rest[i]) by {
            assert(rest[i] == s[i + 1]);
        }
        lemma_skip_leading(rest, from - 1);
        assert(rest.subrange(from - 1, rest.len() as int) =~= s.subrange(from, s.len() as int));
    }
}

/// The white space at the end of `s` begins behind its last other character.
proof fn lemma_skip_trailing(s: Seq<char>, to: int)
    requires
        0 <= to <= s.len(),
        forall|i: int| to <= i < s.len() ==> is_whitespace(#[trigger] s[i]),
        0 < to ==> !is_whitespace(s[to - 1]),
    ensures
        skip_trailing(s) == s.subrange(0, to),
    decreases s.len() - to,
{
    if to == s.len() {
        assert(s.subrange(0, to) =~= s);
    } else {
        let rest = s.drop_last();
        assert(is_whitespace(s[s.len() - 1]));
        assert forall|i: int| to <= i < rest.len() implies is_whitespace(#[trigger] rest[i]) by {
            assert(rest[i] == s[i]);
        }
        lemma_skip_trailing(rest, to);
        assert(rest.subrange(0, to) =~= s.subrange(0, to));
    }
}

/// Trimming is pinned down by its bounds: a stretch of `s` that has only
/// white space before and after it, and that is empty or begins and ends
/// with something else, is what trimming leaves of `s`.
pub proof fn lemma_trimmed_between(s: Seq<char>, from: int, to: int)
    requires
        0 <= from <= to <= s.len(),
        forall|i: int| 0 <= i < from ==> is_whitespace(#[trigger] s[i]),
        forall|i: int| to <= i < s.len() ==> is_whitespace(#[trigger] s[i]),
        from < to ==> !is_whitespace(s[from]) && !is_whitespace(s[to - 1]),
    ensures
        trimmed(s) == s.subrange(from, to),
{
    if from == to {
        lemma_skip_leading(s, s.len() as int);
        assert(skip_leading(s) =~= s.subrange(from, to));
    } else {
        lemma_skip_leading(s, from);
        let rest = s.subrange(from, s.len() as int);
        assert forall|i: int| to - from <= i < rest.len() implies is_whitespace(
            #[trigger] rest[i],
        ) by {
            assert(rest[i] == s[from + i]);
        }
        lemma_skip_trailing(rest, to - from);
        assert(rest.subrange(0, to - from) =~= s.subrange(from, to));
    }
}

/// Where the white space at the front of `s` ends.
proof fn leading_bound(s: Seq<char>) -> (from: int)
    ensures
        0 <= from <= s.len(),
        forall|i: int| 0 <= i < from ==> is_whitespace(#[trigger] s[i]),
        from < s.len() ==> !is_whitespace(s[from]),
    decreases s.len(),
{
    if s.len() > 0 && is_whitespace(s.first()) {
        let rest = s.drop_first();
        let from = leading_bound(rest);
        assert forall|i: int| 0 <= i < from + 1 implies is_whitespace(#[trigger] s[i]) by {
            if i > 0 {
                assert(s[i] == rest[i - 1]);
            }
        }
        if from + 1 < s.len() {
            assert(s[from + 1] == rest[from]);
        }
        from + 1
    } else {
        0
    }
}

/// Where the white space at the end of `s` begins, at `from` at the earliest.
proof fn trailing_bound(s: Seq<char>, from: int) -> (to: int)
    requires
        0 <= from <= s.len(),
    ensures
        from <= to <= s.len(),
        forall|i: int| to <= i < s.len() ==> is_whitespace(#[trigger] s[i]),
        from < to ==> !is_whitespace(s[to - 1]),
    decreases s.len(),
{
    if s.len() > from && is_whitespace(s.last()) {
        let rest = s.drop_last();
        let to = trailing_bound(rest, from);
        assert forall|i: int| to <= i < s.len() implies is_whitespace(#[trigger] s[i]) by {
            if i < rest.len() {
                assert(s[i] == rest[i]);
            }
        }
        if from < to {
            assert(s[to - 1] == rest[to - 1]);
        }
        to
    } else {
        s.len() as int
    }
}

/// What trimming leaves of `s` is a stretch of `s`, from the first bound to
/// the second, with only white space before and after it. It neither begins
/// nor ends with white space, so that trimming it again changes nothing.
pub proof fn lemma_trimmed_is_bare(s: Seq<char>) -> (bounds: (int, int))
    ensures
        0 <= bounds.0 <= bounds.1 <= s.len(),
        trimmed(s) == s.subrange(bounds.0, bounds.1),
        forall|i: int| 0 <= i < bounds.0 ==> is_whitespace(#[trigger] s[i]),
        forall|i: int| bounds.1 <= i < s.len() ==> is_whitespace(#[trigger] s[i]),
        trimmed(s).len() > 0 ==> !is_whitespace(trimmed(s).first()) && !is_whitespace(
            trimmed(s).last(),
        ),
        trimmed(trimmed(s)) == trimmed(s),
{
    let from = leading_bound(s);
    let to = trailing_bound(s, from);
    lemma_trimmed_between(s, from, to);
    let bare = s.subrange(from, to);
    if from < to {
        assert(bare.first() == s[from]);
        assert(bare.last() == s[to - 1]);
    }
    lemma_trimmed_between(bare, 0, bare.len() as int);
    assert(bare.subrange(0, bare.len() as int) =~= bare);
    (from, to)
}

/// A line of nothing but spaces and line breaks is blank.
pub proof fn lemma_spaces_are_blank(s: Seq<char>)
    requires
        forall|i: int| 0 <= i < s.len() ==> #[trigger] s[i] == ' ' || s[i] == '\n',
    ensures
        is_blank(s),
{
    lemma_trimmed_between(s, s.len() as int, s.len() as int);
}

/// The line break that ends a typed line does not count: the line trims to
/// the same with it as without.
pub proof fn lemma_line_break_is_dropped(s: Seq<char>)
    ensures
        trimmed(s.push('\n')) == trimmed(s),
{
    let (from, to) = lemma_trimmed_is_bare(s);
    let line = s.push('\n');
    if from < to {
        lemma_trimmed_between(line, from, to);
        assert(line.subrange(from, to) =~= s.subrange(from, to));
    } else {
        assert forall|i: int| 0 <= i < line.len() implies is_whitespace(#[trigger] line[i]) by {
            if i < s.len() {
                assert(line[i] == s[i]);
            }
        }
        lemma_trimmed_between(line, line.len() as int, line.len() as int);
        assert(trimmed(line) =~= trimmed(s));
    }
}

/// Removes the white space at both ends of `line`, a trailing line break
/// included.
pub fn trim_whitespace(line: &str) -> (result: &str)
    ensures
        result@ == trimmed(line@),
{
    let len: usize = line.unicode_len();
    // `from..to` bounds what has been seen so far from its first to its last
    // character that is no white space; it is empty at `at` until one came.
    let mut from: usize = 0;
    let mut to: usize = 0;
    let mut at: usize = 0;
    for c in it: line.chars()
        invariant
            it.seq() == line@,
            len == line@.len(),
            at == it.index(),
            from <= to <= at <= len,
            from == to ==> from == at,
            forall|i: int| 0 <= i < from ==> is_whitespace(#[trigger] line@[i]),
            forall|i: int| to <= i < at ==> is_whitespace(#[trigger] line@[i]),
            from < to ==> !is_whitespace(line@[from as int]) && !is_whitespace(line@[to - 1]),
    {
        if !c.is_whitespace() {
            if from == to {
                from = at;
            }
            to = at + 1;
        } else if from == to {
            from = at + 1;
            to = at + 1;
        }
        at = at + 1;
    }
    proof {
        lemma_trimmed_between(line@, from as int, to as int);
    }
    line.substring_char(from, to)
}

/// Whether two strings hold the same characters. The comparison is made on
/// owned copies, for which equality is specified.
pub fn same_text(a: &str, b: &str) -> (result: bool)
    ensures
        result == (a@ == b@),
{
    a.to_owned() == b.to_owned()
}

/// `a` followed by `b` followed by `c`.
pub fn join3(a: &str, b: &str, c: &str) -> (result: String)
    ensures
        result@ == a@ + b@ + c@,
{
    let mut result = String::from_str(a);
    result.append(b);
    result.append(c);
    result
}

/// Appends a copy of `text` to `list`.
pub fn push_text(list: &mut Vec<String>, text: &str)
    ensures
        final(list).deep_view() == old(list).deep_view().push(text@),
{
    list.push(String::from_str(text));
    assert(list.deep_view() =~= old(list).deep_view().push(text@));
}

} // verus!
