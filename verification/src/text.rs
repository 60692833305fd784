//! Text handling on strings: trimming typed input and counting lines.

use vstd::prelude::*;

verus! {

/// Whether `c` has the Unicode `White_Space` property, the whitespace that
/// `char::is_whitespace` and `str::trim` go by.
pub open spec fn is_white_space(c: char) -> bool {
    ||| '\u{9}' <= c <= '\u{d}'
    ||| c == ' '
    ||| c == '\u{85}'
    ||| c == '\u{a0}'
    ||| c == '\u{1680}'
    ||| '\u{2000}' <= c <= '\u{200a}'
    ||| c == '\u{2028}'
    ||| c == '\u{2029}'
    ||| c == '\u{202f}'
    ||| c == '\u{205f}'
    ||| c == '\u{3000}'
}

/// `s` without its leading whitespace.
pub open spec fn trim_start(s: Seq<char>) -> Seq<char>
    decreases s.len(),
{
    if s.len() > 0 && is_white_space(s[0]) {
        trim_start(s.drop_first())
    } else {
        s
    }
}

/// `s` without its trailing whitespace.
pub open spec fn trim_end(s: Seq<char>) -> Seq<char>
    decreases s.len(),
{
    if s.len() > 0 && is_white_space(s.last()) {
        trim_end(s.drop_last())
    } else {
        s
    }
}

/// `s` without leading and trailing whitespace, as `str::trim` gives it.
pub open spec fn trimmed(s: Seq<char>) -> Seq<char> {
    trim_end(trim_start(s))
}

/// How often `c` occurs in `s`.
pub open spec fn count_char(s: Seq<char>, c: char) -> nat
    decreases s.len(),
{
    if s.len() == 0 {
        0
    } else {
        count_char(s.drop_last(), c) + if s.last() == c { 1nat } else { 0nat }
    }
}

/// The number of lines that `str::lines` yields: one per line feed, and one
/// more for a last line that has no line feed after it. The empty text has
/// no lines.
pub open spec fn line_count(s: Seq<char>) -> nat {
    count_char(s, '\n') + if s.len() > 0 && s.last() != '\n' { 1nat } else { 0nat }
}

/// Whether `c` is whitespace; the executable form of `is_white_space`.
pub fn is_whitespace_char(c: char) -> (b: bool)
    ensures
        b == is_white_space(c),
{
    ('\u{9}' <= c && c <= '\u{d}') || c == ' ' || c == '\u{85}' || c == '\u{a0}' || c == '\u{1680}'
        || ('\u{2000}' <= c && c <= '\u{200a}') || c == '\u{2028}' || c == '\u{2029}' || c
        == '\u{202f}' || c == '\u{205f}' || c == '\u{3000}'
}

proof fn lemma_trim_start_skip(s: Seq<char>, i: int)
    requires
        0 <= i < s.len(),
        is_white_space(s[i]),
    ensures
        trim_start(s.subrange(i, s.len() as int)) == trim_start(s.subrange(i + 1, s.len() as int)),
{
    let t = s.subrange(i, s.len() as int);
    assert(t.drop_first() =~= s.subrange(i + 1, s.len() as int));
}

proof fn lemma_trim_end_skip(s: Seq<char>, i: int, j: int)
    requires
        0 <= i < j <= s.len(),
        is_white_space(s[j - 1]),
    ensures
        trim_end(s.subrange(i, j)) == trim_end(s.subrange(i, j - 1)),
{
    let t = s.subrange(i, j);
    assert(t.drop_last() =~= s.subrange(i, j - 1));
}

proof fn lemma_trim_start(s: Seq<char>) -> (k: int)
    ensures
        0 <= k <= s.len(),
        trim_start(s) == s.subrange(k, s.len() as int),
        forall|i: int| 0 <= i < k ==> is_white_space(#[trigger] s[i]),
        trim_start(s).len() > 0 ==> !is_white_space(trim_start(s)[0]),
    decreases s.len(),
{
    if s.len() > 0 && is_white_space(s[0]) {
        let k0 = lemma_trim_start(s.drop_first());
        assert(s.drop_first().subrange(k0, s.len() - 1) =~= s.subrange(k0 + 1, s.len() as int));
        assert forall|i: int| 0 <= i < k0 + 1 implies is_white_space(#[trigger] s[i]) by {
            if i > 0 {
                assert(s[i] == s.drop_first()[i - 1]);
            }
        }
        k0 + 1
    } else {
        assert(s.subrange(0, s.len() as int) =~= s);
        0
    }
}

proof fn lemma_trim_end(s: Seq<char>) -> (k: int)
    ensures
        0 <= k <= s.len(),
        trim_end(s) == s.subrange(0, k),
        forall|i: int| k <= i < s.len() ==> is_white_space(#[trigger] s[i]),
        trim_end(s).len() > 0 ==> !is_white_space(trim_end(s).last()),
    decreases s.len(),
{
    if s.len() > 0 && is_white_space(s.last()) {
        let k0 = lemma_trim_end(s.drop_last());
        assert(s.drop_last().subrange(0, k0) =~= s.subrange(0, k0));
        assert forall|i: int| k0 <= i < s.len() implies is_white_space(#[trigger] s[i]) by {
            if i < s.len() - 1 {
                assert(s[i] == s.drop_last()[i]);
            }
        }
        k0
    } else {
        assert(s.subrange(0, s.len() as int) =~= s);
        s.len() as int
    }
}

/// Trimming keeps one contiguous piece of the text and drops only whitespace
/// on either side of it; what it keeps neither starts nor ends with
/// whitespace, so trimming a second time changes nothing.
pub proof fn trim_law(s: Seq<char>)
    ensures
        exists|i: int, j: int|
            0 <= i <= j <= s.len() && trimmed(s) == s.subrange(i, j) && (forall|k: int|
                0 <= k < i ==> is_white_space(#[trigger] s[k])) && (forall|k: int|
                j <= k < s.len() ==> is_white_space(#[trigger] s[k])),
        trimmed(s).len() > 0 ==> !is_white_space(trimmed(s)[0]) && !is_white_space(
            trimmed(s).last(),
        ),
        trimmed(trimmed(s)) == trimmed(s),
{
    let u = trim_start(s);
    let i = lemma_trim_start(s);
    let k = lemma_trim_end(u);
    let t = trimmed(s);
    assert(t =~= s.subrange(i, i + k));
    assert forall|m: int| i + k <= m < s.len() implies is_white_space(#[trigger] s[m]) by {
        assert(s[m] == u[m - i]);
    }
    if t.len() > 0 {
        assert(t[0] == u[0]);
    }
    let k2 = lemma_trim_start(t);
    if t.len() > 0 {
        assert(k2 == 0) by {
            if k2 > 0 {
                assert(is_white_space(t[0]));
            }
        }
    }
    assert(trim_start(t) =~= t);
    let k3 = lemma_trim_end(t);
    if t.len() > 0 {
        assert(k3 == t.len()) by {
            if k3 < t.len() {
                assert(is_white_space(t[t.len() - 1]));
            }
        }
    }
    assert(trim_end(t) =~= t);
}

/// The text with leading and trailing whitespace removed, as `str::trim`
/// returns it; this is how a typed transaction id or block is read.
pub fn trim_input(s: &str) -> (t: String)
    ensures
        t@ == trimmed(s@),
{
    let n: usize = s.unicode_len();
    let mut i: usize = 0;
    assert(s@.subrange(0, n as int) =~= s@);
    while i < n && is_whitespace_char(s.get_char(i))
        invariant
            n == s@.len(),
            i <= n,
            trim_start(s@) == trim_start(s@.subrange(i as int, n as int)),
        decreases n - i,
    {
        proof {
            lemma_trim_start_skip(s@, i as int);
        }
        i = i + 1;
    }
    assert(trim_start(s@) == s@.subrange(i as int, n as int));
    let mut j: usize = n;
    while j > i && is_whitespace_char(s.get_char(j - 1))
        invariant
            n == s@.len(),
            i <= j <= n,
            trim_start(s@) == s@.subrange(i as int, n as int),
            trimmed(s@) == trim_end(s@.subrange(i as int, j as int)),
        decreases j - i,
    {
        proof {
            lemma_trim_end_skip(s@, i as int, j as int);
        }
        j = j - 1;
    }
    let piece = s.substring_char(i, j);
    assert(trim_end(s@.subrange(i as int, j as int)) == s@.subrange(i as int, j as int));
    String::from_str(piece)
}

proof fn lemma_count_char_bound(s: Seq<char>, c: char)
    ensures
        count_char(s, c) <= s.len(),
    decreases s.len(),
{
    if s.len() > 0 {
        lemma_count_char_bound(s.drop_last(), c);
    }
}

proof fn lemma_count_char_concat(a: Seq<char>, b: Seq<char>, c: char)
    ensures
        count_char(a + b, c) == count_char(a, c) + count_char(b, c),
    decreases b.len(),
{
    if b.len() == 0 {
        assert(a + b =~= a);
    } else {
        lemma_count_char_concat(a, b.drop_last(), c);
        assert((a + b).drop_last() =~= a + b.drop_last());
    }
}

/// Adding a line counts once: after a text that is empty or ends with a line
/// feed, a line without line feeds inside, ended by a line feed, adds exactly
/// one to the number of lines.
pub proof fn line_count_of_appended_line(s: Seq<char>, line: Seq<char>)
    requires
        s.len() == 0 || s.last() == '\n',
        count_char(line, '\n') == 0,
    ensures
        line_count(s + line + seq!['\n']) == line_count(s) + 1,
{
    lemma_count_char_concat(s, line, '\n');
    lemma_count_char_concat(s + line, seq!['\n'], '\n');
    let one = seq!['\n'];
    assert(one.drop_last() =~= Seq::<char>::empty());
    assert(count_char(Seq::<char>::empty(), '\n') == 0);
    assert(count_char(one, '\n') == 1);
}

/// The number of lines in `s`, as `s.lines().count()` gives it.
pub fn count_lines(s: &str) -> (count: usize)
    ensures
        count == line_count(s@),
{
    let n: usize = s.unicode_len();
    let mut count: usize = 0;
    let mut i: usize = 0;
    while i < n
        invariant
            n == s@.len(),
            i <= n,
            count == count_char(s@.subrange(0, i as int), '\n'),
            count <= i,
        decreases n - i,
    {
        let c = s.get_char(i);
        proof {
            assert(s@.subrange(0, i + 1).drop_last() =~= s@.subrange(0, i as int));
        }
        if c == '\n' {
            count = count + 1;
        }
        i = i + 1;
    }
    assert(s@.subrange(0, n as int) =~= s@);
    if n > 0 && s.get_char(n - 1) != '\n' {
        proof {
            lemma_count_char_bound(s@.drop_last(), '\n');
        }
        count = count + 1;
    }
    count
}

} // verus!
