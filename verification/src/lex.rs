use vstd::prelude::*;

verus! {

/// `a` and `b` agree on their first `k` characters, and at position `k`
/// `a` either ends while `b` goes on, or holds a smaller code point.
pub open spec fn lex_lt_at(a: Seq<char>, b: Seq<char>, k: int) -> bool {
    &&& 0 <= k <= a.len()
    &&& k <= b.len()
    &&& forall|j: int| 0 <= j < k ==> a[j] == b[j]
    &&& if k == a.len() {
        k < b.len()
    } else {
        k < b.len() && (a[k] as u32) < (b[k] as u32)
    }
}

/// Lexicographic order of character sequences by code point: the order of
/// `String`'s `Ord` (UTF-8 byte order coincides with code point order).
pub open spec fn lex_lt(a: Seq<char>, b: Seq<char>) -> bool {
    exists|k: int| lex_lt_at(a, b, k)
}

/// The sequence is strictly increasing in the lexicographic order.
pub open spec fn strictly_increasing(s: Seq<Seq<char>>) -> bool {
    forall|i: int, j: int| 0 <= i < j < s.len() ==> lex_lt(#[trigger] s[i], #[trigger] s[j])
}

/// No sequence precedes itself.
pub proof fn lemma_lex_lt_irreflexive(a: Seq<char>)
    ensures
        !lex_lt(a, a),
{
    if lex_lt(a, a) {
        let k = choose|k: int| lex_lt_at(a, a, k);
    }
}

/// Of two sequences, at most one precedes the other.
pub proof fn lemma_lex_lt_asymmetric(a: Seq<char>, b: Seq<char>)
    ensures
        !(lex_lt(a, b) && lex_lt(b, a)),
{
    if lex_lt(a, b) && lex_lt(b, a) {
        let k1 = choose|k: int| lex_lt_at(a, b, k);
        let k2 = choose|k: int| lex_lt_at(b, a, k);
        if k1 < k2 {
            assert(b[k1] == a[k1]);
        } else if k2 < k1 {
            assert(a[k2] == b[k2]);
        }
    }
}

/// The lexicographic order is transitive.
pub proof fn lemma_lex_lt_transitive(a: Seq<char>, b: Seq<char>, c: Seq<char>)
    requires
        lex_lt(a, b),
        lex_lt(b, c),
    ensures
        lex_lt(a, c),
{
    let k1 = choose|k: int| lex_lt_at(a, b, k);
    let k2 = choose|k: int| lex_lt_at(b, c, k);
    if k1 < k2 {
        assert(b[k1] == c[k1]);
        assert(lex_lt_at(a, c, k1));
    } else if k2 < k1 {
        assert(a[k2] == b[k2]);
        assert(lex_lt_at(a, c, k2));
    } else {
        assert(lex_lt_at(a, c, k1));
    }
}

/// The result of comparing two strings.
#[derive(Debug, Clone, Copy, PartialEq, Eq)]
pub enum LexOrder {
    Less,
    Equal,
    Greater,
}

/// Compares two strings character by character, by code point.
pub fn lex_compare(a: &str, b: &str) -> (r: LexOrder)
    ensures
        (r is Less) <==> lex_lt(a@, b@),
        (r is Equal) <==> a@ == b@,
        (r is Greater) <==> lex_lt(b@, a@),
{
    proof {
        lemma_lex_lt_asymmetric(a@, b@);
        lemma_lex_lt_irreflexive(a@);
    }
    let la = a.unicode_len();
    let lb = b.unicode_len();
    let mut k: usize = 0;
    while k < la && k < lb
        invariant
            la == a@.len(),
            lb == b@.len(),
            k <= la,
            k <= lb,
            forall|j: int| 0 <= j < k ==> a@[j] == b@[j],
        decreases la - k,
    {
        let ca = a.get_char(k);
        let cb = b.get_char(k);
        if (ca as u32) < (cb as u32) {
            assert(lex_lt_at(a@, b@, k as int));
            return LexOrder::Less;
        }
        if (cb as u32) < (ca as u32) {
            assert(lex_lt_at(b@, a@, k as int));
            return LexOrder::Greater;
        }
        assert((ca as u32) == (cb as u32));
        k += 1;
    }
    if la < lb {
        assert(lex_lt_at(a@, b@, k as int));
        LexOrder::Less
    } else if lb < la {
        assert(lex_lt_at(b@, a@, k as int));
        LexOrder::Greater
    } else {
        assert(a@ =~= b@);
        LexOrder::Equal
    }
}

} // verus!
