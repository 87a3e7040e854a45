use vstd::prelude::*;

use crate::lex::{lemma_lex_lt_irreflexive, lemma_lex_lt_asymmetric, lemma_lex_lt_transitive, lex_compare, lex_lt, strictly_increasing, LexOrder};

verus! {

/// What `char::is_alphanumeric` answers for `c` (Unicode Alphabetic or Numeric property).
pub uninterp spec fn char_alphanumeric(c: char) -> bool;

/// What `char::is_alphabetic` answers for `c` (Unicode Alphabetic property).
pub uninterp spec fn char_alphabetic(c: char) -> bool;

/// An ASCII letter.
pub open spec fn ascii_letter(c: char) -> bool {
    ('a' <= c && c <= 'z') || ('A' <= c && c <= 'Z')
}

/// An ASCII digit.
pub open spec fn ascii_digit(c: char) -> bool {
    '0' <= c && c <= '9'
}

/// Calls `char::is_alphanumeric`; its result is named `char_alphanumeric(c)`.
/// On an ASCII character it holds exactly of the letters and digits, as
/// the Unicode Alphabetic and Numeric properties that std documents give.
#[verifier::external_body]
fn is_alphanumeric(c: char) -> (r: bool)
    ensures
        r == char_alphanumeric(c),
        c <= '\x7f' ==> r == (ascii_letter(c) || ascii_digit(c)),
{
    c.is_alphanumeric()
}

/// Calls `char::is_alphabetic`; its result is named `char_alphabetic(c)`.
/// On an ASCII character it holds exactly of the letters, as the Unicode
/// Alphabetic property that std documents gives.
#[verifier::external_body]
fn is_alphabetic(c: char) -> (r: bool)
    ensures
        r == char_alphabetic(c),
        c <= '\x7f' ==> r == ascii_letter(c),
{
    c.is_alphabetic()
}

/// Whether the character at `k` may continue a class name, where
/// `alnum[k]` tells whether it is alphanumeric.
pub open spec fn is_name_char_at(s: Seq<char>, alnum: Seq<bool>, k: int) -> bool {
    alnum[k] || s[k] == '-' || s[k] == '_'
}

/// The index just past the run of name characters that starts at `k`.
pub open spec fn name_end(s: Seq<char>, alnum: Seq<bool>, k: int) -> int
    decreases s.len() - k,
{
    if 0 <= k < s.len() && is_name_char_at(s, alnum, k) {
        name_end(s, alnum, k + 1)
    } else {
        k
    }
}

pub proof fn lemma_name_end_bounds(s: Seq<char>, alnum: Seq<bool>, k: int)
    requires
        0 <= k,
    ensures
        k <= name_end(s, alnum, k),
        k <= s.len() ==> name_end(s, alnum, k) <= s.len(),
        forall|j: int| k <= j < name_end(s, alnum, k) ==> #[trigger] is_name_char_at(s, alnum, j),
        k < s.len() && name_end(s, alnum, k) < s.len() ==> !is_name_char_at(s, alnum, name_end(s, alnum, k)),
    decreases s.len() - k,
{
    if 0 <= k < s.len() && is_name_char_at(s, alnum, k) {
        lemma_name_end_bounds(s, alnum, k + 1);
    }
}

/// The class names found in `s` from index `i` on, when the scan at `i` is
/// (or is not) inside a `/* ... */` comment, where `alnum[k]` and
/// `alpha[k]` tell whether the character at `k` is alphanumeric and
/// alphabetic. A `/*` opens a comment, a `*/` closes it; outside comments,
/// a `.` followed by a run of name characters records the run when it is
/// non-empty and starts with a letter or `_`.
pub open spec fn classes_from(
    s: Seq<char>,
    alnum: Seq<bool>,
    alpha: Seq<bool>,
    i: int,
    in_comment: bool,
) -> Set<Seq<char>>
    decreases s.len() - i,
{
    if i < 0 || i >= s.len() {
        Set::empty()
    } else if s[i] == '/' && i + 1 < s.len() && s[i + 1] == '*' {
        classes_from(s, alnum, alpha, i + 2, true)
    } else if in_comment {
        if s[i] == '*' && i + 1 < s.len() && s[i + 1] == '/' {
            classes_from(s, alnum, alpha, i + 2, false)
        } else {
            classes_from(s, alnum, alpha, i + 1, true)
        }
    } else if s[i] == '.' {
        proof {
            lemma_name_end_bounds(s, alnum, i + 1);
        }
        let end = name_end(s, alnum, i + 1);
        let rest = classes_from(s, alnum, alpha, end, false);
        if end > i + 1 && (alpha[i + 1] || s[i + 1] == '_') {
            rest.insert(s.subrange(i + 1, end))
        } else {
            rest
        }
    } else {
        classes_from(s, alnum, alpha, i + 1, false)
    }
}

/// The CSS class names of `css`, given which of its characters are
/// alphanumeric (`alnum`) and alphabetic (`alpha`).
pub open spec fn classified_css_classes(css: Seq<char>, alnum: Seq<bool>, alpha: Seq<bool>) -> Set<Seq<char>> {
    classes_from(css, alnum, alpha, 0, false)
}

/// Which characters of `s` are alphanumeric.
pub open spec fn alphanumeric_flags(s: Seq<char>) -> Seq<bool> {
    s.map_values(|c: char| char_alphanumeric(c))
}

/// Which characters of `s` are alphabetic.
pub open spec fn alphabetic_flags(s: Seq<char>) -> Seq<bool> {
    s.map_values(|c: char| char_alphabetic(c))
}

/// Which characters of `s` are ASCII letters or digits.
pub open spec fn ascii_alphanumeric_flags(s: Seq<char>) -> Seq<bool> {
    s.map_values(|c: char| ascii_letter(c) || ascii_digit(c))
}

/// Which characters of `s` are ASCII letters.
pub open spec fn ascii_alphabetic_flags(s: Seq<char>) -> Seq<bool> {
    s.map_values(|c: char| ascii_letter(c))
}

/// Every character of `s` is ASCII.
pub open spec fn all_ascii(s: Seq<char>) -> bool {
    forall|k: int| 0 <= k < s.len() ==> s[k] <= '\x7f'
}

/// The CSS class names that a stylesheet declares.
pub open spec fn css_classes(css: Seq<char>) -> Set<Seq<char>> {
    classified_css_classes(css, alphanumeric_flags(css), alphabetic_flags(css))
}

/// A set of CSS class names, kept in ascending order without repetition.
pub struct CssClasses {
    names: Vec<String>,
}

pub open spec fn string_views(v: Seq<String>) -> Seq<Seq<char>> {
    v.map_values(|s: String| s@)
}

impl CssClasses {
    /// The names in ascending order.
    pub closed spec fn ordered(&self) -> Seq<Seq<char>> {
        string_views(self.names@)
    }

    #[verifier::type_invariant]
    closed spec fn sorted(&self) -> bool {
        strictly_increasing(string_views(self.names@))
    }
}

impl View for CssClasses {
    type V = Set<Seq<char>>;

    closed spec fn view(&self) -> Set<Seq<char>> {
        self.ordered().to_set()
    }
}

proof fn lemma_increasing_no_duplicates(s: Seq<Seq<char>>)
    requires
        strictly_increasing(s),
    ensures
        s.no_duplicates(),
{
    assert forall|i: int, j: int| 0 <= i < s.len() && 0 <= j < s.len() && i != j implies s[i] != s[j] by {
        if i < j {
            assert(lex_lt(s[i], s[j]));
            lemma_lex_lt_irreflexive(s[i]);
        } else {
            assert(lex_lt(s[j], s[i]));
            lemma_lex_lt_irreflexive(s[j]);
        }
    }
}

impl CssClasses {
    /// The number of class names.
    pub fn len(&self) -> (r: usize)
        ensures
            r == self@.len(),
            r == self.ordered().len(),
    {
        proof {
            use_type_invariant(self);
            lemma_increasing_no_duplicates(self.ordered());
            self.ordered().unique_seq_to_set();
        }
        self.names.len()
    }

    /// Whether there is no class name.
    pub fn is_empty(&self) -> (r: bool)
        ensures
            r == (self@.len() == 0),
    {
        self.len() == 0
    }

    /// Whether `name` is one of the class names.
    pub fn contains(&self, name: &str) -> (r: bool)
        ensures
            r == self@.contains(name@),
    {
        let n = self.names.len();
        let mut i: usize = 0;
        while i < n
            invariant
                n == self.names@.len(),
                i <= n,
                forall|j: int| 0 <= j < i ==> self.ordered()[j] != name@,
            decreases n - i,
        {
            if let LexOrder::Equal = lex_compare(self.names[i].as_str(), name) {
                assert(self.ordered()[i as int] == name@);
                return true;
            }
            i += 1;
        }
        proof {
            if self@.contains(name@) {
                let j = choose|j: int| 0 <= j < self.ordered().len() && self.ordered()[j] == name@;
                assert(self.ordered()[j] == name@);
            }
        }
        false
    }

    /// The class names in ascending order.
    pub fn names(&self) -> (r: &Vec<String>)
        ensures
            string_views(r@) == self.ordered(),
            strictly_increasing(self.ordered()),
            self.ordered().to_set() == self@,
    {
        proof {
            use_type_invariant(self);
        }
        &self.names
    }
}

/// Inserts `name` into the ascending sequence `names`, unless it is there.
fn insert_sorted(names: &mut Vec<String>, name: String)
    requires
        strictly_increasing(string_views(old(names)@)),
    ensures
        strictly_increasing(string_views(final(names)@)),
        string_views(final(names)@).to_set() == string_views(old(names)@).to_set().insert(name@),
{
    let ghost old_views = string_views(names@);
    let n = names.len();
    let mut i: usize = 0;
    while i < n
        invariant
            n == names@.len(),
            i <= n,
            names@ == old(names)@,
            old_views == string_views(names@),
            strictly_increasing(old_views),
            forall|j: int| 0 <= j < i ==> lex_lt(#[trigger] old_views[j], name@),
        ensures
            i == n || lex_lt(name@, old_views[i as int]),
        decreases n - i,
    {
        match lex_compare(names[i].as_str(), name.as_str()) {
            LexOrder::Less => {
                i += 1;
            },
            LexOrder::Equal => {
                proof {
                    assert(old_views[i as int] == name@);
                    assert(old_views.to_set().insert(name@) =~= old_views.to_set());
                }
                return;
            },
            LexOrder::Greater => {
                break;
            },
        }
    }
    // Every name before `i` precedes `name`; the one at `i`, if any, follows it.
    proof {
        if i < n {
            assert(lex_lt(name@, old_views[i as int]));
        }
    }
    names.insert(i, name);
    proof {
        let nv = string_views(names@);
        assert(nv =~= old_views.insert(i as int, name@));
        assert forall|a: int, b: int| 0 <= a < b < nv.len() implies lex_lt(#[trigger] nv[a], #[trigger] nv[b]) by {
            if b < i {
            } else if a < i && b == i {
            } else if a < i && b > i {
                assert(nv[b] == old_views[b - 1]);
                if (b - 1) as int == i as int {
                    lemma_lex_lt_transitive(nv[a], name@, old_views[i as int]);
                } else {
                    assert(lex_lt(old_views[i as int], old_views[b - 1]));
                    lemma_lex_lt_transitive(name@, old_views[i as int], old_views[b - 1]);
                    lemma_lex_lt_transitive(nv[a], name@, old_views[b - 1]);
                }
            } else if a == i {
                if b - 1 == i {
                } else {
                    assert(lex_lt(old_views[i as int], old_views[b - 1]));
                    lemma_lex_lt_transitive(name@, old_views[i as int], old_views[b - 1]);
                }
            } else {
                assert(nv[a] == old_views[a - 1]);
                assert(nv[b] == old_views[b - 1]);
            }
        }
        assert(nv.to_set() =~= old_views.to_set().insert(name@)) by {
            assert forall|x: Seq<char>| nv.to_set().contains(x) <==> old_views.to_set().insert(name@).contains(x) by {
                if nv.to_set().contains(x) {
                    let j = choose|j: int| 0 <= j < nv.len() && nv[j] == x;
                    if j < i {
                        assert(old_views[j] == x);
                    } else if j > i {
                        assert(old_views[j - 1] == x);
                    }
                }
                if old_views.to_set().contains(x) {
                    let j = choose|j: int| 0 <= j < old_views.len() && old_views[j] == x;
                    if j < i {
                        assert(nv[j] == x);
                    } else {
                        assert(nv[j + 1] == x);
                    }
                }
                if x == name@ {
                    assert(nv[i as int] == x);
                }
            }
        }
    }
}

} // verus!

verus! {

/// The characters of `s`, in order.
fn chars_of(s: &str) -> (r: Vec<char>)
    ensures
        r@ == s@,
{
    let mut out: Vec<char> = Vec::new();
    for c in it: s.chars()
        invariant
            out@ == it.seq().take(it.index() as int),
    {
        out.push(c);
    }
    assert(out@ =~= s@);
    out
}

} // verus!

verus! {

/// Collects the class names of `css`, where `alphanumeric[k]` and
/// `alphabetic[k]` tell whether its `k`-th character is alphanumeric and
/// alphabetic: every `.name` outside a `/* ... */` comment whose name is
/// non-empty and starts with a letter or `_`.
pub fn extract_classified_css_classes(css: &str, alphanumeric: &Vec<bool>, alphabetic: &Vec<bool>) -> (classes: CssClasses)
    requires
        alphanumeric@.len() == css@.len(),
        alphabetic@.len() == css@.len(),
    ensures
        classes@ == classified_css_classes(css@, alphanumeric@, alphabetic@),
{
    let chars = chars_of(css);
    let n = chars.len();
    let ghost s = css@;
    let ghost alnum = alphanumeric@;
    let ghost alpha = alphabetic@;
    let mut names: Vec<String> = Vec::new();
    let mut in_comment = false;
    let mut i: usize = 0;
    assert(string_views(names@).to_set() =~= Set::<Seq<char>>::empty());
    while i < n
        invariant
            chars@ == s,
            s == css@,
            alnum == alphanumeric@,
            alpha == alphabetic@,
            n == s.len(),
            alnum.len() == n,
            alpha.len() == n,
            i <= n,
            strictly_increasing(string_views(names@)),
            string_views(names@).to_set() + classes_from(s, alnum, alpha, i as int, in_comment)
                == classified_css_classes(s, alnum, alpha),
        decreases n - i,
    {
        let c = chars[i];
        if c == '/' && i + 1 < n && chars[i + 1] == '*' {
            i = i + 2;
            in_comment = true;
        } else if in_comment {
            if c == '*' && i + 1 < n && chars[i + 1] == '/' {
                i = i + 2;
                in_comment = false;
            } else {
                i = i + 1;
            }
        } else if c == '.' {
            let start = i + 1;
            let mut j = start;
            proof {
                lemma_name_end_bounds(s, alnum, start as int);
            }
            while j < n && (alphanumeric[j] || chars[j] == '-' || chars[j] == '_')
                invariant
                    chars@ == s,
                    alnum == alphanumeric@,
                    n == s.len(),
                    alnum.len() == n,
                    start <= j <= n,
                    name_end(s, alnum, j as int) == name_end(s, alnum, start as int),
                decreases n - j,
            {
                j = j + 1;
            }
            let ghost before = string_views(names@).to_set();
            let ghost name = s.subrange(start as int, j as int);
            if j > start && (alphabetic[start] || chars[start] == '_') {
                let class_name = css.substring_char(start, j).to_owned();
                insert_sorted(&mut names, class_name);
                assert(string_views(names@).to_set() + classes_from(s, alnum, alpha, j as int, false)
                    =~= before + classes_from(s, alnum, alpha, j as int, false).insert(name));
            }
            i = j;
            in_comment = false;
        } else {
            i = i + 1;
        }
    }
    CssClasses { names }
}

/// Collects the class names that `css` declares: every `.name` outside a
/// `/* ... */` comment whose name is non-empty and starts with a letter or `_`.
pub fn extract_css_classes(css: &str) -> (classes: CssClasses)
    ensures
        classes@ == css_classes(css@),
        all_ascii(css@) ==> classes@ == classified_css_classes(
            css@,
            ascii_alphanumeric_flags(css@),
            ascii_alphabetic_flags(css@),
        ),
{
    let chars = chars_of(css);
    let n = chars.len();
    let mut alphanumeric: Vec<bool> = Vec::new();
    let mut alphabetic: Vec<bool> = Vec::new();
    let mut i: usize = 0;
    while i < n
        invariant
            chars@ == css@,
            n == chars@.len(),
            i <= n,
            alphanumeric@ == alphanumeric_flags(css@).take(i as int),
            alphabetic@ == alphabetic_flags(css@).take(i as int),
            forall|j: int|
                0 <= j < i && css@[j] <= '\x7f' ==> alphanumeric@[j] == (ascii_letter(css@[j])
                    || ascii_digit(css@[j])) && alphabetic@[j] == ascii_letter(css@[j]),
        decreases n - i,
    {
        alphanumeric.push(is_alphanumeric(chars[i]));
        alphabetic.push(is_alphabetic(chars[i]));
        assert(alphanumeric@ =~= alphanumeric_flags(css@).take(i + 1));
        assert(alphabetic@ =~= alphabetic_flags(css@).take(i + 1));
        i += 1;
    }
    assert(alphanumeric@ =~= alphanumeric_flags(css@));
    assert(alphabetic@ =~= alphabetic_flags(css@));
    proof {
        if all_ascii(css@) {
            assert(alphanumeric@ =~= ascii_alphanumeric_flags(css@));
            assert(alphabetic@ =~= ascii_alphabetic_flags(css@));
        }
    }
    extract_classified_css_classes(css, &alphanumeric, &alphabetic)
}

} // verus!

verus! {

/// `s` holds `x` at `k` and `y` right after it.
pub open spec fn pair_at(s: Seq<char>, k: int, x: char, y: char) -> bool {
    0 <= k && k + 1 < s.len() && s[k] == x && s[k + 1] == y
}

/// `s` holds `x` immediately followed by `y` somewhere.
pub open spec fn has_pair(s: Seq<char>, x: char, y: char) -> bool {
    exists|k: int| pair_at(s, k, x, y)
}

/// The stylesheet `a`, then the comment `/*b*/`, then `c`.
pub open spec fn with_comment(a: Seq<char>, b: Seq<char>, c: Seq<char>) -> Seq<char> {
    a + seq!['/', '*'] + b + seq!['*', '/'] + c
}

proof fn lemma_name_end_prefix(s: Seq<char>, alnum: Seq<bool>, a_len: int, k: int)
    requires
        0 <= k <= a_len < s.len(),
        alnum.len() == s.len(),
        s[a_len] == '/',
        !alnum[a_len],
    ensures
        name_end(s, alnum, k) == name_end(s.take(a_len), alnum.take(a_len), k),
        name_end(s, alnum, k) <= a_len,
    decreases a_len - k,
{
    if k < a_len {
        lemma_name_end_prefix(s, alnum, a_len, k + 1);
    }
}

proof fn lemma_prefix_scan(s: Seq<char>, alnum: Seq<bool>, alpha: Seq<bool>, a_len: int, i: int)
    requires
        0 <= i <= a_len,
        a_len + 1 < s.len(),
        alnum.len() == s.len(),
        alpha.len() == s.len(),
        s[a_len] == '/',
        s[a_len + 1] == '*',
        !alnum[a_len],
        !has_pair(s.take(a_len), '/', '*'),
    ensures
        classes_from(s, alnum, alpha, i, false) == classes_from(
            s.take(a_len),
            alnum.take(a_len),
            alpha.take(a_len),
            i,
            false,
        ) + classes_from(s, alnum, alpha, a_len, false),
    decreases a_len - i,
{
    let t = s.take(a_len);
    let at = alnum.take(a_len);
    let bt = alpha.take(a_len);
    if i == a_len {
        assert(classes_from(t, at, bt, i, false) =~= Set::<Seq<char>>::empty());
        assert(classes_from(s, alnum, alpha, i, false) + Set::<Seq<char>>::empty() =~= classes_from(
            s,
            alnum,
            alpha,
            i,
            false,
        ));
    } else {
        if s[i] == '/' && s[i + 1] == '*' {
            if i + 1 < a_len {
                assert(pair_at(t, i, '/', '*'));
            }
        }
        if s[i] == '.' {
            lemma_name_end_bounds(s, alnum, i + 1);
            lemma_name_end_prefix(s, alnum, a_len, i + 1);
            let end = name_end(s, alnum, i + 1);
            lemma_prefix_scan(s, alnum, alpha, a_len, end);
            assert(s.subrange(i + 1, end) =~= t.subrange(i + 1, end));
            let rest_s = classes_from(s, alnum, alpha, end, false);
            let rest_t = classes_from(t, at, bt, end, false);
            let tail = classes_from(s, alnum, alpha, a_len, false);
            let name = s.subrange(i + 1, end);
            if end > i + 1 && (alpha[i + 1] || s[i + 1] == '_') {
                assert(rest_s.insert(name) =~= rest_t.insert(name) + tail);
            }
        } else {
            lemma_prefix_scan(s, alnum, alpha, a_len, i + 1);
        }
    }
}

proof fn lemma_comment_scan(s: Seq<char>, alnum: Seq<bool>, alpha: Seq<bool>, start: int, close: int, j: int)
    requires
        0 <= start <= j <= close,
        close + 1 < s.len(),
        s[close] == '*',
        s[close + 1] == '/',
        forall|k: int|
            start <= k && k + 1 < close ==> !pair_at(s, k, '/', '*') && !pair_at(s, k, '*', '/'),
        close > start ==> s[close - 1] != '/',
    ensures
        classes_from(s, alnum, alpha, j, true) == classes_from(s, alnum, alpha, close + 2, false),
    decreases close - j,
{
    if j < close {
        assert(!pair_at(s, j, '/', '*') || j + 1 == close);
        assert(!pair_at(s, j, '*', '/') || j + 1 == close);
        lemma_comment_scan(s, alnum, alpha, start, close, j + 1);
    }
}

proof fn lemma_name_end_shift(s: Seq<char>, alnum: Seq<bool>, e: int, k: int)
    requires
        0 <= e <= k,
        e <= s.len(),
        alnum.len() == s.len(),
    ensures
        name_end(s, alnum, k) == e + name_end(s.skip(e), alnum.skip(e), k - e),
    decreases s.len() - k,
{
    if 0 <= k < s.len() && is_name_char_at(s, alnum, k) {
        lemma_name_end_shift(s, alnum, e, k + 1);
    }
}

proof fn lemma_suffix_scan(s: Seq<char>, alnum: Seq<bool>, alpha: Seq<bool>, e: int, i: int, in_comment: bool)
    requires
        0 <= e <= i,
        e <= s.len(),
        alnum.len() == s.len(),
        alpha.len() == s.len(),
    ensures
        classes_from(s, alnum, alpha, i, in_comment) == classes_from(
            s.skip(e),
            alnum.skip(e),
            alpha.skip(e),
            i - e,
            in_comment,
        ),
    decreases s.len() - i,
{
    let u = s.skip(e);
    if i < s.len() {
        if s[i] == '/' && i + 1 < s.len() && s[i + 1] == '*' {
            lemma_suffix_scan(s, alnum, alpha, e, i + 2, true);
        } else if in_comment {
            if s[i] == '*' && i + 1 < s.len() && s[i + 1] == '/' {
                lemma_suffix_scan(s, alnum, alpha, e, i + 2, false);
            } else {
                lemma_suffix_scan(s, alnum, alpha, e, i + 1, true);
            }
        } else if s[i] == '.' {
            lemma_name_end_bounds(s, alnum, i + 1);
            lemma_name_end_shift(s, alnum, e, i + 1);
            let end = name_end(s, alnum, i + 1);
            lemma_suffix_scan(s, alnum, alpha, e, end, false);
            assert(s.subrange(i + 1, end) =~= u.subrange(i + 1 - e, end - e));
        } else {
            lemma_suffix_scan(s, alnum, alpha, e, i + 1, false);
        }
    }
}

/// A closed comment contributes no class and separates the text around it:
/// the classes of `a/*b*/c` are those of `a` and those of `c`, when `a` opens
/// no comment, `b` neither opens nor closes one nor ends in `/`, and the `/`
/// after `a` is not alphanumeric.
pub proof fn lemma_closed_comment_separates(
    a: Seq<char>,
    b: Seq<char>,
    c: Seq<char>,
    alnum: Seq<bool>,
    alpha: Seq<bool>,
)
    requires
        alnum.len() == with_comment(a, b, c).len(),
        alpha.len() == with_comment(a, b, c).len(),
        !alnum[a.len() as int],
        !has_pair(a, '/', '*'),
        !has_pair(b, '/', '*'),
        !has_pair(b, '*', '/'),
        !(b.len() > 0 && b.last() == '/'),
    ensures
        classified_css_classes(with_comment(a, b, c), alnum, alpha) == classified_css_classes(
            a,
            alnum.take(a.len() as int),
            alpha.take(a.len() as int),
        ) + classified_css_classes(
            c,
            alnum.skip((a.len() + b.len() + 4) as int),
            alpha.skip((a.len() + b.len() + 4) as int),
        ),
{
    let s = with_comment(a, b, c);
    let al = a.len() as int;
    let close = al + 2 + b.len();
    let e = close + 2;
    assert(s.take(al) =~= a);
    assert(s.skip(e) =~= c);
    assert(s[al] == '/' && s[al + 1] == '*');
    assert(s[close] == '*' && s[close + 1] == '/');
    lemma_prefix_scan(s, alnum, alpha, al, 0);
    assert forall|k: int|
        al + 2 <= k && k + 1 < close implies !pair_at(s, k, '/', '*') && !pair_at(s, k, '*', '/') by {
        assert(s[k] == b[k - al - 2] && s[k + 1] == b[k + 1 - al - 2]);
        if pair_at(s, k, '/', '*') {
            assert(pair_at(b, k - al - 2, '/', '*'));
        }
        if pair_at(s, k, '*', '/') {
            assert(pair_at(b, k - al - 2, '*', '/'));
        }
    }
    if close > al + 2 {
        assert(s[close - 1] == b.last());
    }
    lemma_comment_scan(s, alnum, alpha, al + 2, close, al + 2);
    lemma_suffix_scan(s, alnum, alpha, e, e, false);
}

/// The same law for stylesheets as `extract_css_classes` reads them, where
/// `/` is not alphanumeric.
pub proof fn lemma_css_closed_comment_separates(a: Seq<char>, b: Seq<char>, c: Seq<char>)
    requires
        !char_alphanumeric('/'),
        !has_pair(a, '/', '*'),
        !has_pair(b, '/', '*'),
        !has_pair(b, '*', '/'),
        !(b.len() > 0 && b.last() == '/'),
    ensures
        css_classes(with_comment(a, b, c)) == css_classes(a) + css_classes(c),
{
    let s = with_comment(a, b, c);
    let al = a.len() as int;
    let e = al + b.len() + 4;
    let alnum = alphanumeric_flags(s);
    let alpha = alphabetic_flags(s);
    assert(s[al] == '/');
    lemma_closed_comment_separates(a, b, c, alnum, alpha);
    assert(s.take(al) =~= a);
    assert(s.skip(e) =~= c);
    assert(alnum.take(al) =~= alphanumeric_flags(a));
    assert(alpha.take(al) =~= alphabetic_flags(a));
    assert(alnum.skip(e) =~= alphanumeric_flags(c));
    assert(alpha.skip(e) =~= alphabetic_flags(c));
}

/// The same law for ASCII stylesheets, whose characters `extract_css_classes`
/// classifies as ASCII letters and digits.
pub proof fn lemma_ascii_closed_comment_separates(a: Seq<char>, b: Seq<char>, c: Seq<char>)
    requires
        !has_pair(a, '/', '*'),
        !has_pair(b, '/', '*'),
        !has_pair(b, '*', '/'),
        !(b.len() > 0 && b.last() == '/'),
    ensures
        classified_css_classes(
            with_comment(a, b, c),
            ascii_alphanumeric_flags(with_comment(a, b, c)),
            ascii_alphabetic_flags(with_comment(a, b, c)),
        ) == classified_css_classes(a, ascii_alphanumeric_flags(a), ascii_alphabetic_flags(a))
            + classified_css_classes(c, ascii_alphanumeric_flags(c), ascii_alphabetic_flags(c)),
{
    let s = with_comment(a, b, c);
    let al = a.len() as int;
    let e = al + b.len() + 4;
    let alnum = ascii_alphanumeric_flags(s);
    let alpha = ascii_alphabetic_flags(s);
    assert(s[al] == '/');
    lemma_closed_comment_separates(a, b, c, alnum, alpha);
    assert(s.take(al) =~= a);
    assert(s.skip(e) =~= c);
    assert(alnum.take(al) =~= ascii_alphanumeric_flags(a));
    assert(alpha.take(al) =~= ascii_alphabetic_flags(a));
    assert(alnum.skip(e) =~= ascii_alphanumeric_flags(c));
    assert(alpha.skip(e) =~= ascii_alphabetic_flags(c));
}

} // verus!
