use vstd::prelude::*;
use vstd::string::*;

use crate::files::first_index;

verus! {

/// Whether `c` has the Unicode White_Space property, which is what
/// `char::is_whitespace` tests: U+0009 to U+000D, U+0020, U+0085, U+00A0,
/// U+1680, U+2000 to U+200A, U+2028, U+2029, U+202F, U+205F and U+3000.
pub open spec fn char_whitespace(c: char) -> bool {
    let u = c as u32;
    ||| 0x09 <= u <= 0x0D
    ||| u == 0x20
    ||| u == 0x85
    ||| u == 0xA0
    ||| u == 0x1680
    ||| 0x2000 <= u <= 0x200A
    ||| u == 0x2028
    ||| u == 0x2029
    ||| u == 0x202F
    ||| u == 0x205F
    ||| u == 0x3000
}

/// Whether `c` is white space (see [`char_whitespace`]).
pub fn is_whitespace(c: char) -> (r: bool)
    ensures
        r == char_whitespace(c),
{
    let u = c as u32;
    (0x09 <= u && u <= 0x0D) || u == 0x20 || u == 0x85 || u == 0xA0 || u == 0x1680 || (0x2000
        <= u && u <= 0x200A) || u == 0x2028 || u == 0x2029 || u == 0x202F || u == 0x205F || u
        == 0x3000
}

/// A line without the `\r` of a `\r\n` ending.
pub open spec fn strip_cr(line: Seq<char>) -> Seq<char> {
    if line.len() > 0 && line.last() == '\r' {
        line.drop_last()
    } else {
        line
    }
}

/// The lines of `s` as `str::lines` yields them: split at `\n` (a `\r`
/// before it is dropped too), with no line after a final `\n`.
pub open spec fn split_lines(s: Seq<char>) -> Seq<Seq<char>>
    decreases s.len(),
{
    if s.len() == 0 {
        Seq::empty()
    } else {
        let k = first_index(s, '\n', 0);
        if k < s.len() {
            proof {
                lemma_first_index_bounds(s, '\n', 0);
            }
            seq![strip_cr(s.take(k))] + split_lines(s.skip(k + 1))
        } else {
            seq![s]
        }
    }
}

pub proof fn lemma_first_index_bounds(s: Seq<char>, c: char, from: int)
    requires
        0 <= from,
    ensures
        from <= first_index(s, c, from) <= s.len() || (from > s.len() && first_index(s, c, from) == s.len()),
        first_index(s, c, from) < s.len() ==> s[first_index(s, c, from)] == c,
        forall|j: int| from <= j < first_index(s, c, from) ==> s[j] != c,
    decreases s.len() - from,
{
    if from < s.len() && s[from] != c {
        lemma_first_index_bounds(s, c, from + 1);
    }
}

/// `l` without its leading whitespace.
pub open spec fn trim_leading(l: Seq<char>) -> Seq<char>
    decreases l.len(),
{
    if l.len() > 0 && char_whitespace(l[0]) {
        trim_leading(l.drop_first())
    } else {
        l
    }
}

/// `l` without its trailing whitespace.
pub open spec fn trim_trailing(l: Seq<char>) -> Seq<char>
    decreases l.len(),
{
    if l.len() > 0 && char_whitespace(l.last()) {
        trim_trailing(l.drop_last())
    } else {
        l
    }
}

/// `l` without leading and trailing whitespace, as `str::trim` gives it.
pub open spec fn trim_ws(l: Seq<char>) -> Seq<char> {
    trim_trailing(trim_leading(l))
}

/// The lines joined with `\n` between them.
pub open spec fn join_lines(ls: Seq<Seq<char>>) -> Seq<char>
    decreases ls.len(),
{
    if ls.len() == 0 {
        Seq::empty()
    } else if ls.len() == 1 {
        ls[0]
    } else {
        join_lines(ls.drop_last()) + seq!['\n'] + ls.last()
    }
}

/// The text of an error message as its dialog shows it: every line trimmed.
pub open spec fn spec_error_text(s: Seq<char>) -> Seq<char> {
    join_lines(split_lines(s).map_values(|l: Seq<char>| trim_ws(l)))
}

/// The bounds of `s[start..end]` without leading and trailing whitespace.
fn trim_bounds(s: &str, start: usize, end: usize) -> (r: (usize, usize))
    requires
        start <= end <= s@.len(),
    ensures
        start <= r.0 <= r.1 <= end,
        s@.subrange(r.0 as int, r.1 as int) == trim_ws(s@.subrange(start as int, end as int)),
{
    let mut a = start;
    while a < end && is_whitespace(s.get_char(a))
        invariant
            start <= a <= end,
            end <= s@.len(),
            trim_leading(s@.subrange(a as int, end as int)) == trim_leading(
                s@.subrange(start as int, end as int),
            ),
        decreases end - a,
    {
        assert(s@.subrange(a as int, end as int).drop_first() =~= s@.subrange(a + 1, end as int));
        a += 1;
    }
    let mut b = end;
    while b > a && is_whitespace(s.get_char(b - 1))
        invariant
            start <= a <= b <= end,
            end <= s@.len(),
            trim_trailing(s@.subrange(a as int, b as int)) == trim_trailing(
                s@.subrange(a as int, end as int),
            ),
        decreases b,
    {
        assert(s@.subrange(a as int, b as int).drop_last() =~= s@.subrange(a as int, b - 1));
        b -= 1;
    }
    (a, b)
}

} // verus!

verus! {

proof fn lemma_join_push(ls: Seq<Seq<char>>, x: Seq<char>)
    ensures
        join_lines(ls.push(x)) == if ls.len() == 0 {
            x
        } else {
            join_lines(ls) + seq!['\n'] + x
        },
{
    assert(ls.push(x).drop_last() =~= ls);
}

/// The text of an error message as its dialog shows it: the lines of
/// `text`, each without leading and trailing whitespace, joined with `\n`.
pub fn error_text(text: &str) -> (r: String)
    ensures
        r@ == spec_error_text(text@),
{
    let n = text.unicode_len();
    let ghost s = text@;
    let ghost all = split_lines(s);
    let mut out = String::new();
    let ghost mut done: Seq<Seq<char>> = Seq::empty();
    let mut pos: usize = 0;
    assert(s.skip(0) =~= s);
    while pos < n
        invariant
            n == s.len(),
            s == text@,
            all == split_lines(s),
            pos <= n,
            all == done + split_lines(s.skip(pos as int)),
            (pos == 0) == (done.len() == 0),
            out@ == join_lines(done.map_values(|l: Seq<char>| trim_ws(l))),
        decreases n - pos,
    {
        let rest = text.substring_char(pos, n);
        let ghost r = rest@;
        assert(r =~= s.skip(pos as int));
        let k = crate::files::find_char(rest, '\n');
        proof {
            lemma_first_index_bounds(r, '\n', 0);
        }
        let line_end = pos + k;
        let mut content_end = line_end;
        if k < n - pos && k > 0 && text.get_char(line_end - 1) == '\r' {
            content_end = line_end - 1;
        }
        let ghost line = if k < r.len() {
            strip_cr(r.take(k as int))
        } else {
            r
        };
        assert(s.subrange(pos as int, content_end as int) =~= line);
        let (a, b) = trim_bounds(text, pos, content_end);
        let ghost mapped = done.map_values(|l: Seq<char>| trim_ws(l));
        if pos > 0 {
            out.append("\n");
            proof {
                reveal_strlit("\n");
            }
        }
        out.append(text.substring_char(a, b));
        proof {
            let new_done = done.push(line);
            assert(new_done.map_values(|l: Seq<char>| trim_ws(l)) =~= mapped.push(trim_ws(line)));
            lemma_join_push(mapped, trim_ws(line));
            if k < r.len() {
                assert(split_lines(r) == seq![line] + split_lines(r.skip(k + 1)));
                assert(r.skip(k + 1) =~= s.skip(pos + k + 1));
            } else {
                assert(split_lines(r) == seq![line]);
                assert(s.skip(n as int) =~= Seq::<char>::empty());
            }
            done = new_done;
        }
        if k < n - pos {
            pos = line_end + 1;
        } else {
            pos = n;
        }
        proof {
            assert(all =~= done + split_lines(s.skip(pos as int)));
        }
    }
    proof {
        assert(s.skip(n as int) =~= Seq::<char>::empty());
        assert(all =~= done);
    }
    out
}

proof fn lemma_trim_leading_skip(l: Seq<char>) -> (k: int)
    ensures
        0 <= k <= l.len(),
        trim_leading(l) == l.skip(k),
        forall|i: int| 0 <= i < k ==> char_whitespace(#[trigger] l[i]),
        k < l.len() ==> !char_whitespace(l[k]),
    decreases l.len(),
{
    if l.len() > 0 && char_whitespace(l[0]) {
        let k1 = lemma_trim_leading_skip(l.drop_first());
        assert(l.drop_first().skip(k1) =~= l.skip(k1 + 1));
        assert forall|i: int| 0 <= i < k1 + 1 implies char_whitespace(#[trigger] l[i]) by {
            if i > 0 {
                assert(l[i] == l.drop_first()[i - 1]);
            }
        }
        if k1 + 1 < l.len() {
            assert(l[k1 + 1] == l.drop_first()[k1]);
        }
        k1 + 1
    } else {
        assert(l.skip(0) =~= l);
        0
    }
}

proof fn lemma_trim_trailing_take(l: Seq<char>) -> (k: int)
    ensures
        0 <= k <= l.len(),
        trim_trailing(l) == l.take(k),
        forall|i: int| k <= i < l.len() ==> char_whitespace(#[trigger] l[i]),
        k > 0 ==> !char_whitespace(l[k - 1]),
    decreases l.len(),
{
    if l.len() > 0 && char_whitespace(l.last()) {
        let k1 = lemma_trim_trailing_take(l.drop_last());
        assert(l.drop_last().take(k1) =~= l.take(k1));
        assert forall|i: int| k1 <= i < l.len() implies char_whitespace(#[trigger] l[i]) by {
            if i < l.len() - 1 {
                assert(l[i] == l.drop_last()[i]);
            }
        }
        if k1 > 0 {
            assert(l[k1 - 1] == l.drop_last()[k1 - 1]);
        }
        k1
    } else {
        assert(l.take(l.len() as int) =~= l);
        l.len() as int
    }
}

/// Trimming a line keeps a stretch of it from its first to its last
/// character that is not white space: all that is cut off is white space,
/// and what is left neither begins nor ends with white space.
pub proof fn lemma_trimmed_line(l: Seq<char>)
    ensures
        exists|i: int, j: int|
            0 <= i <= j <= l.len() && trim_ws(l) == l.subrange(i, j) && (forall|k: int|
                0 <= k < i ==> char_whitespace(#[trigger] l[k])) && (forall|k: int|
                j <= k < l.len() ==> char_whitespace(#[trigger] l[k])),
        trim_ws(l).len() > 0 ==> !char_whitespace(trim_ws(l)[0]) && !char_whitespace(trim_ws(l).last()),
{
    let i = lemma_trim_leading_skip(l);
    let m = l.skip(i);
    let k = lemma_trim_trailing_take(m);
    let j = i + k;
    assert(trim_ws(l) == m.take(k));
    assert(m.take(k) =~= l.subrange(i, j));
    assert forall|x: int| j <= x < l.len() implies char_whitespace(#[trigger] l[x]) by {
        assert(l[x] == m[x - i]);
    }
    if k > 0 {
        assert(trim_ws(l)[0] == l[i]);
        assert(trim_ws(l).last() == m[k - 1]);
    }
}

/// A text without white space (so without line breaks) is shown as it is.
pub proof fn lemma_plain_text_unchanged(s: Seq<char>)
    requires
        forall|i: int| 0 <= i < s.len() ==> !char_whitespace(#[trigger] s[i]),
    ensures
        spec_error_text(s) == s,
{
    if s.len() > 0 {
        lemma_first_index_bounds(s, '\n', 0);
        let k = first_index(s, '\n', 0);
        if k < s.len() {
            assert(char_whitespace(s[k]));
        }
        assert(split_lines(s) == seq![s]);
        let i = lemma_trim_leading_skip(s);
        if i < s.len() {
        } else if s.len() > 0 {
            assert(char_whitespace(s[0]));
        }
        assert(i == 0);
        assert(s.skip(0) =~= s);
        let k2 = lemma_trim_trailing_take(s);
        if k2 < s.len() {
            assert(char_whitespace(s[k2]));
        }
        assert(s.take(s.len() as int) =~= s);
        assert(trim_ws(s) == s);
        assert(split_lines(s).map_values(|l: Seq<char>| trim_ws(l)) =~= seq![s]);
    } else {
        assert(split_lines(s) == Seq::<Seq<char>>::empty());
        assert(split_lines(s).map_values(|l: Seq<char>| trim_ws(l)) =~= Seq::<Seq<char>>::empty());
    }
}

} // verus!
