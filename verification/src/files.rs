use vstd::prelude::*;
use vstd::string::*;

use crate::text::{has_prefix, has_suffix, matches_at};

verus! {

/// `s` with every leading copy of `p` removed, as `str::trim_start_matches` does.
pub open spec fn trim_start(s: Seq<char>, p: Seq<char>) -> Seq<char>
    decreases s.len(),
{
    if p.len() > 0 && has_prefix(s, p) {
        trim_start(s.skip(p.len() as int), p)
    } else {
        s
    }
}

/// `s` with every trailing copy of `p` removed, as `str::trim_end_matches` does.
pub open spec fn trim_end(s: Seq<char>, p: Seq<char>) -> Seq<char>
    decreases s.len(),
{
    if p.len() > 0 && has_suffix(s, p) {
        trim_end(s.take(s.len() - p.len()), p)
    } else {
        s
    }
}

/// Removes every leading copy of `p` from `s`.
pub fn trim_start_matches<'a>(s: &'a str, p: &str) -> (r: &'a str)
    ensures
        r@ == trim_start(s@, p@),
{
    let n = s.unicode_len();
    let m = p.unicode_len();
    if m == 0 {
        return s;
    }
    let mut k: usize = 0;
    assert(s@.skip(0) =~= s@);
    while k <= n && matches_at(s, p, k)
        invariant
            n == s@.len(),
            m == p@.len(),
            m > 0,
            k <= n,
            trim_start(s@.skip(k as int), p@) == trim_start(s@, p@),
        decreases n - k,
    {
        assert(s@.skip(k as int).skip(m as int) =~= s@.skip(k + m));
        k = k + m;
    }
    s.substring_char(k, n)
}

/// Removes every trailing copy of `p` from `s`.
pub fn trim_end_matches<'a>(s: &'a str, p: &str) -> (r: &'a str)
    ensures
        r@ == trim_end(s@, p@),
{
    let n = s.unicode_len();
    let m = p.unicode_len();
    if m == 0 {
        return s;
    }
    let mut k: usize = n;
    assert(s@.take(n as int) =~= s@);
    while k >= m && matches_at(s, p, k - m)
        invariant
            n == s@.len(),
            m == p@.len(),
            m > 0,
            k <= n,
            trim_end(s@.take(k as int), p@) == trim_end(s@, p@),
        decreases k,
    {
        assert(s@.skip(k - m).take(m as int) =~= s@.take(k as int).skip(k - m));
        assert(s@.take(k as int).take(k - m) =~= s@.take(k - m));
        k = k - m;
    }
    proof {
        if k >= m {
            assert(s@.skip(k - m).take(m as int) =~= s@.take(k as int).skip(k - m));
        }
    }
    s.substring_char(0, k)
}

/// The name under which a profile exported as `name` is saved.
pub open spec fn spec_export_file_name(name: Option<Seq<char>>) -> Seq<char> {
    "LACT-profile-"@ + match name {
        Some(n) => n,
        None => "default"@,
    } + ".json"@
}

/// The name of a profile imported from a file named `file_name` (`None`
/// when the file name is not valid UTF-8): the file name without the export
/// prefix and the `.json` extension.
pub open spec fn spec_profile_name(file_name: Option<Seq<char>>) -> Seq<char> {
    let f = match file_name {
        Some(f) => f,
        None => "Imported profile"@,
    };
    trim_end(trim_start(f, "LACT-profile-"@), ".json"@)
}

/// The file name that an exported profile is offered under.
pub fn export_file_name(name: Option<&str>) -> (r: String)
    ensures
        r@ == spec_export_file_name(
            match name {
                Some(n) => Some(n@),
                None => None,
            },
        ),
{
    let mut out = String::from_str("LACT-profile-");
    match name {
        Some(n) => out.append(n),
        None => out.append("default"),
    }
    out.append(".json");
    out
}

/// The name of a profile imported from the file named `file_name`.
pub fn profile_name_from_file_name(file_name: Option<&str>) -> (r: String)
    ensures
        r@ == spec_profile_name(
            match file_name {
                Some(f) => Some(f@),
                None => None,
            },
        ),
{
    let f = match file_name {
        Some(f) => f,
        None => "Imported profile",
    };
    let trimmed = trim_end_matches(trim_start_matches(f, "LACT-profile-"), ".json");
    trimmed.to_owned()
}

/// A profile exported under a name that neither begins with the export
/// prefix nor ends in `.json` is imported back under the same name; one
/// exported without a name comes back as `default`.
pub proof fn lemma_export_import_round_trip(n: Seq<char>)
    requires
        !has_prefix(n, "LACT-profile-"@),
        !has_suffix(n, ".json"@),
    ensures
        spec_profile_name(Some(spec_export_file_name(Some(n)))) == n,
        spec_profile_name(Some(spec_export_file_name(None))) == "default"@,
{
    reveal_strlit("LACT-profile-");
    reveal_strlit(".json");
    reveal_strlit("default");
    let p = "LACT-profile-"@;
    let j = ".json"@;
    lemma_round_trip_one(n, p, j);
    let d = "default"@;
    assert(!has_prefix(d, p));
    assert(!has_suffix(d, j)) by {
        assert(d.skip(d.len() - j.len())[0] != j[0]);
    }
    lemma_round_trip_one(d, p, j);
}

proof fn lemma_round_trip_one(n: Seq<char>, p: Seq<char>, j: Seq<char>)
    requires
        p == "LACT-profile-"@,
        j == ".json"@,
        p.len() == 13,
        j.len() == 5,
        forall|k: int| 0 <= k < 13 ==> p[k] != '.',
        j[0] == '.',
        !has_prefix(n, p),
        !has_suffix(n, j),
    ensures
        trim_end(trim_start(p + n + j, p), j) == n,
{
    let e = p + n + j;
    assert(has_prefix(e, p)) by {
        assert(e.take(13) =~= p);
    }
    assert(e.skip(13) =~= n + j);
    let nj = n + j;
    if has_prefix(nj, p) {
        if n.len() >= 13 {
            assert(nj.take(13) =~= n.take(13));
            assert(false);
        } else {
            assert(nj[n.len() as int] == j[0]);
            assert(nj.take(13)[n.len() as int] == p[n.len() as int]);
            assert(false);
        }
    }
    assert(!has_prefix(nj, p));
    assert(trim_start(nj, p) == nj);
    assert(trim_start(e, p) == trim_start(e.skip(13), p));
    assert(trim_start(e, p) == nj);
    assert(has_suffix(nj, j)) by {
        assert(nj.skip(nj.len() - 5) =~= j);
    }
    assert(nj.take(nj.len() - 5) =~= n);
    assert(trim_end(n, j) == n);
    assert(trim_end(nj, j) == trim_end(nj.take(nj.len() - 5), j));
    assert(trim_end(nj, j) == n);
}

} // verus!

verus! {

/// `s` with every `from` replaced by `to`.
pub open spec fn replace_char(s: Seq<char>, from: char, to: char) -> Seq<char> {
    Seq::new(s.len(), |i: int| if s[i] == from { to } else { s[i] })
}

/// The position of the first `c` in `s` at or after `from`, or `s.len()`.
pub open spec fn first_index(s: Seq<char>, c: char, from: int) -> int
    decreases s.len() - from,
{
    if from < 0 || from >= s.len() {
        s.len() as int
    } else if s[from] == c {
        from
    } else {
        first_index(s, c, from + 1)
    }
}

/// The file name offered for a VBIOS dump of the GPU `gpu_id`: the PCI
/// address before the first `-` of the id, with `:` turned into `_`, then
/// `_vbios_dump.rom` (just the latter when the id has no `-` or no GPU is selected).
pub open spec fn spec_vbios_dump_file_name(gpu_id: Option<Seq<char>>) -> Seq<char> {
    let id = match gpu_id {
        Some(g) => g,
        None => Seq::empty(),
    };
    let dash = first_index(id, '-', 0);
    let prefix = if dash < id.len() {
        replace_char(id.take(dash), ':', '_')
    } else {
        Seq::empty()
    };
    prefix + "_vbios_dump.rom"@
}

proof fn lemma_first_index_is(s: Seq<char>, c: char, from: int, k: int)
    requires
        0 <= from <= k <= s.len(),
        k < s.len() ==> s[k] == c,
        forall|j: int| from <= j < k ==> s[j] != c,
    ensures
        first_index(s, c, from) == k,
    decreases k - from,
{
    if from < k {
        lemma_first_index_is(s, c, from + 1, k);
    }
}

/// The VBIOS dump of a GPU whose id is `a-b` (with no `-` in `a`) is
/// offered as `a` with every `:` made `_`, then `_vbios_dump.rom`; for an
/// id without `-`, or with no GPU selected, just `_vbios_dump.rom`. The
/// name never holds a `:`.
pub proof fn lemma_vbios_dump_file_name(a: Seq<char>, b: Seq<char>, id: Seq<char>, gpu_id: Option<Seq<char>>)
    ensures
        !a.contains('-') ==> spec_vbios_dump_file_name(Some(a + seq!['-'] + b)) == replace_char(a, ':', '_')
            + "_vbios_dump.rom"@,
        !id.contains('-') ==> spec_vbios_dump_file_name(Some(id)) == "_vbios_dump.rom"@,
        spec_vbios_dump_file_name(None) == "_vbios_dump.rom"@,
        !spec_vbios_dump_file_name(gpu_id).contains(':'),
{
    reveal_strlit("_vbios_dump.rom");
    let s = a + seq!['-'] + b;
    if !a.contains('-') {
        assert forall|j: int| 0 <= j < a.len() implies s[j] != '-' by {
            assert(s[j] == a[j]);
            if a[j] == '-' {
                assert(a.contains('-'));
            }
        }
        lemma_first_index_is(s, '-', 0, a.len() as int);
        assert(s.take(a.len() as int) =~= a);
    }
    if !id.contains('-') {
        assert forall|j: int| 0 <= j < id.len() implies id[j] != '-' by {
            if id[j] == '-' {
                assert(id.contains('-'));
            }
        }
        lemma_first_index_is(id, '-', 0, id.len() as int);
    }
    lemma_first_index_is(Seq::<char>::empty(), '-', 0, 0);
    let r = spec_vbios_dump_file_name(gpu_id);
    if r.contains(':') {
        let g = match gpu_id {
            Some(g) => g,
            None => Seq::empty(),
        };
        let dash = first_index(g, '-', 0);
        let prefix = if dash < g.len() {
            replace_char(g.take(dash), ':', '_')
        } else {
            Seq::empty()
        };
        let suffix = "_vbios_dump.rom"@;
        assert(r == prefix + suffix);
        let j = choose|j: int| 0 <= j < r.len() && r[j] == ':';
        if j < prefix.len() {
            assert(r[j] == prefix[j]);
        } else {
            assert(r[j] == suffix[j - prefix.len()]);
        }
    }
}

/// The position of the first `c` in `s`, or `s@.len()`.
pub(crate) fn find_char(s: &str, c: char) -> (r: usize)
    ensures
        r == first_index(s@, c, 0),
        r <= s@.len(),
{
    let n = s.unicode_len();
    let mut i: usize = 0;
    while i < n
        invariant
            n == s@.len(),
            i <= n,
            first_index(s@, c, i as int) == first_index(s@, c, 0),
        decreases n - i,
    {
        if s.get_char(i) == c {
            return i;
        }
        i += 1;
    }
    i
}

/// The file name offered for a VBIOS dump of the GPU `gpu_id`.
pub fn vbios_dump_file_name(gpu_id: Option<&str>) -> (r: String)
    ensures
        r@ == spec_vbios_dump_file_name(
            match gpu_id {
                Some(g) => Some(g@),
                None => None,
            },
        ),
{
    let id = match gpu_id {
        Some(g) => g,
        None => "",
    };
    proof {
        reveal_strlit("");
    }
    let n = id.unicode_len();
    let dash = find_char(id, '-');
    let mut out = String::new();
    if dash < n {
        let ghost target = replace_char(id@.take(dash as int), ':', '_');
        let mut run_start: usize = 0;
        let mut i: usize = 0;
        while i < dash
            invariant
                n == id@.len(),
                dash < n,
                target == replace_char(id@.take(dash as int), ':', '_'),
                run_start <= i <= dash,
                out@ == target.take(run_start as int),
                forall|j: int| run_start <= j < i ==> id@[j] != ':',
            decreases dash - i,
        {
            if id.get_char(i) == ':' {
                out.append(id.substring_char(run_start, i));
                out.append("_");
                proof {
                    reveal_strlit("_");
                    assert(out@ =~= target.take(i + 1));
                }
                run_start = i + 1;
            }
            i += 1;
        }
        out.append(id.substring_char(run_start, dash));
        assert(out@ =~= target);
    }
    out.append("_vbios_dump.rom");
    out
}

} // verus!
