use vstd::prelude::*;

use crate::catalog::Version;
use crate::errors::InstallError;

verus! {

/// A decimal digit.
pub open spec fn is_digit(c: char) -> bool {
    '0' <= c && c <= '9'
}

/// The numeric value of one digit.
pub open spec fn digit_val(c: char) -> int {
    c as int - '0' as int
}

/// Whether every character of the sequence is a decimal digit.
pub open spec fn all_digits(s: Seq<char>) -> bool {
    forall|k: int| 0 <= k < s.len() ==> is_digit(#[trigger] s[k])
}

/// The value of a decimal numeral read left to right.
pub open spec fn dec_val(s: Seq<char>) -> int
    decreases s.len(),
{
    if s.len() == 0 {
        0
    } else {
        dec_val(s.drop_last()) * 10 + digit_val(s.last())
    }
}

/// The first position at or after `from` holding `c`, or the length if none does.
pub open spec fn find_from(s: Seq<char>, c: char, from: int) -> int
    decreases s.len() - from,
{
    if 0 <= from < s.len() {
        if s[from] == c {
            from
        } else {
            find_from(s, c, from + 1)
        }
    } else {
        s.len() as int
    }
}

/// The major, minor and patch numbers of a canonical `vMAJOR.MINOR.PATCH`
/// version string, or nothing when the string is not of that shape or a
/// component does not fit the machine's word.
pub open spec fn spec_key(s: Seq<char>) -> Option<(int, int, int)> {
    let n = s.len() as int;
    let i = find_from(s, '.', 1);
    let j = find_from(s, '.', i + 1);
    if n >= 2 && s[0] == 'v' && 2 <= i && i + 1 < j && j + 1 < n && all_digits(s.subrange(1, i))
        && all_digits(s.subrange(i + 1, j)) && all_digits(s.subrange(j + 1, n)) && dec_val(
        s.subrange(1, i),
    ) <= u64::MAX && dec_val(s.subrange(i + 1, j)) <= u64::MAX && dec_val(s.subrange(j + 1, n))
        <= u64::MAX {
        Some((dec_val(s.subrange(1, i)), dec_val(s.subrange(i + 1, j)), dec_val(s.subrange(j + 1, n))))
    } else {
        None
    }
}

/// The semantic-version order: an unparseable version ranks below every
/// parseable one, and parseable versions compare by major, then minor,
/// then patch, numerically.
pub open spec fn key_lt(a: Option<(int, int, int)>, b: Option<(int, int, int)>) -> bool {
    match (a, b) {
        (None, Some(_)) => true,
        (Some(x), Some(y)) => x.0 < y.0 || (x.0 == y.0 && (x.1 < y.1 || (x.1 == y.1 && x.2
            < y.2))),
        _ => false,
    }
}

/// The key of one catalog entry.
pub open spec fn entry_key(v: Version) -> Option<(int, int, int)> {
    spec_key(v.version@)
}

/// A machine key as a mathematical one.
pub open spec fn lift_key(k: Option<(u64, u64, u64)>) -> Option<(int, int, int)> {
    match k {
        Some(t) => Some((t.0 as int, t.1 as int, t.2 as int)),
        None => None,
    }
}

proof fn lemma_all_digits_drop_last(s: Seq<char>)
    requires
        s.len() > 0,
        all_digits(s),
    ensures
        all_digits(s.drop_last()),
{
    assert forall|k: int| 0 <= k < s.drop_last().len() implies is_digit(#[trigger] s.drop_last()[k]) by {
        assert(s.drop_last()[k] == s[k]);
    }
}

proof fn lemma_dec_val_nonneg(s: Seq<char>)
    requires
        all_digits(s),
    ensures
        dec_val(s) >= 0,
    decreases s.len(),
{
    if s.len() > 0 {
        lemma_all_digits_drop_last(s);
        lemma_dec_val_nonneg(s.drop_last());
        assert(is_digit(s.last()));
    }
}

/// Reading more digits never shrinks the numeral's value.
proof fn lemma_dec_val_prefix_le(s: Seq<char>, k: int)
    requires
        0 <= k <= s.len(),
        all_digits(s),
    ensures
        dec_val(s.subrange(0, k)) <= dec_val(s),
    decreases s.len() - k,
{
    if k == s.len() {
        assert(s.subrange(0, k) =~= s);
    } else {
        let a = s.subrange(0, k);
        let b = s.subrange(0, k + 1);
        assert(b.drop_last() =~= a);
        assert(is_digit(s[k]));
        assert(all_digits(a)) by {
            assert forall|m: int| 0 <= m < a.len() implies is_digit(#[trigger] a[m]) by {
                assert(a[m] == s[m]);
            }
        }
        lemma_dec_val_nonneg(a);
        assert(dec_val(b) == dec_val(a) * 10 + digit_val(s[k]));
        lemma_dec_val_prefix_le(s, k + 1);
    }
}

/// What `find_from` returns: no sought character stands before it, and it
/// points at one unless none remains.
proof fn lemma_find_from_props(s: Seq<char>, c: char, from: int)
    requires
        0 <= from <= s.len(),
    ensures
        from <= find_from(s, c, from) <= s.len(),
        find_from(s, c, from) < s.len() ==> s[find_from(s, c, from)] == c,
        forall|m: int| from <= m < find_from(s, c, from) ==> s[m] != c,
    decreases s.len() - from,
{
    if 0 <= from < s.len() {
        if s[from] != c {
            lemma_find_from_props(s, c, from + 1);
        }
    }
}

/// Parses the digits of `s` between `lo` and `hi`.
fn parse_number(s: &str, lo: usize, hi: usize) -> (r: Option<u64>)
    requires
        lo <= hi <= s@.len(),
    ensures
        r matches Some(v) ==> all_digits(s@.subrange(lo as int, hi as int)) && v as int == dec_val(
            s@.subrange(lo as int, hi as int),
        ),
        r is None ==> !all_digits(s@.subrange(lo as int, hi as int)) || dec_val(
            s@.subrange(lo as int, hi as int),
        ) > u64::MAX,
{
    let ghost seg = s@.subrange(lo as int, hi as int);
    let mut val: u64 = 0;
    let mut k: usize = lo;
    while k < hi
        invariant
            lo <= k <= hi <= s@.len(),
            seg == s@.subrange(lo as int, hi as int),
            all_digits(seg.subrange(0, k - lo)),
            val as int == dec_val(seg.subrange(0, k - lo)),
        decreases hi - k,
    {
        let c = s.get_char(k);
        proof {
            assert(seg[k - lo] == s@[k as int]);
        }
        if c < '0' || c > '9' {
            proof {
                assert(!is_digit(seg[k - lo]));
            }
            return None;
        }
        let d: u64 = (c as u32 as u64) - 48;
        proof {
            assert(is_digit(seg[k - lo]));
            assert(d as int == digit_val(seg[k - lo]));
        }
        if val > (u64::MAX - d) / 10 {
            proof {
                let done = seg.subrange(0, k - lo);
                let next = seg.subrange(0, k + 1 - lo);
                assert(next.drop_last() =~= done);
                assert(next.last() == seg[k - lo]);
                assert(dec_val(next) == dec_val(done) * 10 + digit_val(seg[k - lo]));
                assert(val as int * 10 + d as int > u64::MAX) by {
                    assert(val as int > (u64::MAX - d) as int / 10);
                };
                assert(all_digits(next)) by {
                    assert forall|m: int| 0 <= m < next.len() implies is_digit(
                        #[trigger] next[m],
                    ) by {
                        assert(next[m] == done.push(seg[k - lo])[m]);
                    }
                }
                if all_digits(seg) {
                    lemma_dec_val_prefix_le(seg, k + 1 - lo);
                    assert(dec_val(seg) > u64::MAX);
                } else {
                    assert(!all_digits(seg));
                }
            }
            return None;
        }
        proof {
            assert(val as int * 10 + d as int <= u64::MAX) by {
                assert(val as int <= (u64::MAX - d) as int / 10);
            };
        }
        let new_val = val * 10 + d;
        proof {
            let done = seg.subrange(0, k - lo);
            let next = seg.subrange(0, k + 1 - lo);
            assert(next.drop_last() =~= done);
            assert(next.last() == seg[k - lo]);
            assert(all_digits(next)) by {
                assert forall|m: int| 0 <= m < next.len() implies is_digit(#[trigger] next[m]) by {
                    assert(next[m] == done.push(seg[k - lo])[m]);
                }
            }
        }
        val = new_val;
        k = k + 1;
    }
    proof {
        assert(seg.subrange(0, (hi - lo) as int) =~= seg);
    }
    Some(val)
}

/// Finds the first `.` at or after `from`.
fn find_dot(s: &str, from: usize) -> (r: usize)
    requires
        from <= s@.len(),
    ensures
        r as int == find_from(s@, '.', from as int),
        from <= r <= s@.len(),
{
    let n = s.unicode_len();
    let mut k: usize = from;
    while k < n
        invariant
            from <= k <= n,
            n == s@.len(),
            forall|m: int| from <= m < k ==> s@[m] != '.',
        decreases n - k,
    {
        if s.get_char(k) == '.' {
            proof {
                lemma_find_from_step(s@, '.', from as int, k as int);
            }
            return k;
        }
        k = k + 1;
    }
    proof {
        lemma_find_from_step(s@, '.', from as int, n as int);
    }
    n
}

/// If no sought character stands in `[from, k)` and `k` holds one or is the
/// end, then `find_from` lands exactly on `k`.
proof fn lemma_find_from_step(s: Seq<char>, c: char, from: int, k: int)
    requires
        0 <= from <= k <= s.len(),
        forall|m: int| from <= m < k ==> s[m] != c,
        k < s.len() ==> s[k] == c,
    ensures
        find_from(s, c, from) == k,
    decreases k - from,
{
    if from < k {
        lemma_find_from_step(s, c, from + 1, k);
    }
}

/// Reads the major, minor and patch numbers out of a canonical
/// `vMAJOR.MINOR.PATCH` version string; any other shape, or a component
/// beyond the machine's word, yields nothing.
pub fn parse_version_key(s: &str) -> (r: Option<(u64, u64, u64)>)
    ensures
        lift_key(r) == spec_key(s@),
{
    let n = s.unicode_len();
    if n < 2 {
        return None;
    }
    if !(s.get_char(0) == 'v') {
        return None;
    }
    let i = find_dot(s, 1);
    proof {
        lemma_find_from_props(s@, '.', 1);
    }
    if i < 2 || i >= n {
        return None;
    }
    let j = find_dot(s, i + 1);
    proof {
        lemma_find_from_props(s@, '.', i + 1);
    }
    if j <= i + 1 || j >= n - 1 {
        return None;
    }
    let major = match parse_number(s, 1, i) {
        Some(v) => v,
        None => {
            return None;
        },
    };
    let minor = match parse_number(s, i + 1, j) {
        Some(v) => v,
        None => {
            return None;
        },
    };
    let patch = match parse_number(s, j + 1, n) {
        Some(v) => v,
        None => {
            return None;
        },
    };
    Some((major, minor, patch))
}

/// Decides the strict semantic-version order between two machine keys.
pub fn key_less(a: Option<(u64, u64, u64)>, b: Option<(u64, u64, u64)>) -> (r: bool)
    ensures
        r == key_lt(lift_key(a), lift_key(b)),
{
    match (a, b) {
        (None, Some(_)) => true,
        (Some(x), Some(y)) => x.0 < y.0 || (x.0 == y.0 && (x.1 < y.1 || (x.1 == y.1 && x.2
            < y.2))),
        _ => false,
    }
}

/// Whether one entry passes the channel selector: the `lts` selector keeps
/// the entries whose normalized LTS field is not the sentinel, and any other
/// selector keeps the entries whose version equals it exactly.
pub open spec fn entry_matches(v: Version, selector: Seq<char>) -> bool {
    if selector == "lts"@ {
        v.lts@ != "false"@
    } else {
        v.version@ == selector
    }
}

/// The catalog entries that pass the selector, in catalog order.
pub open spec fn spec_filter(catalog: Seq<Version>, selector: Seq<char>) -> Seq<Version> {
    catalog.filter(|v: Version| entry_matches(v, selector))
}

/// Yields the catalog entries that pass the selector, preserving catalog
/// order; zero matches is a valid, empty result.
pub fn filter_versions<'a>(catalog: &'a Vec<Version>, filter: &str) -> (r: Vec<&'a Version>)
    ensures
        r@.map_values(|p: &Version| *p) == spec_filter(catalog@, filter@),
{
    broadcast use vstd::seq_lib::group_filter_ensures;

    let is_lts = filter_selector_is_lts(filter);
    let filter_string = String::from_str(filter);
    let sentinel = String::from_str("false");
    let mut out: Vec<&'a Version> = Vec::new();
    let mut i: usize = 0;
    while i < catalog.len()
        invariant
            i <= catalog@.len(),
            is_lts == (filter_string@ == "lts"@),
            filter_string@ == filter@,
            sentinel@ == "false"@,
            out@.map_values(|p: &Version| *p) == spec_filter(catalog@.take(i as int), filter@),
        decreases catalog@.len() - i,
    {
        let v = &catalog[i];
        let keep = if is_lts {
            !(v.lts == sentinel)
        } else {
            v.version == filter_string
        };
        proof {
            assert(keep == entry_matches(catalog@[i as int], filter@));
        }
        if keep {
            out.push(v);
        }
        proof {
            reveal(Seq::filter);
            let pred = |w: Version| entry_matches(w, filter@);
            assert(catalog@.take(i + 1 as int).drop_last() =~= catalog@.take(i as int));
            assert(catalog@.take(i + 1 as int).last() == catalog@[i as int]);
            if pred(catalog@[i as int]) {
                assert(spec_filter(catalog@.take(i + 1 as int), filter@) == spec_filter(
                    catalog@.take(i as int),
                    filter@,
                ).push(catalog@[i as int]));
            } else {
                assert(spec_filter(catalog@.take(i + 1 as int), filter@) == spec_filter(
                    catalog@.take(i as int),
                    filter@,
                ));
            }
            assert(out@.map_values(|p: &Version| *p) =~= spec_filter(
                catalog@.take(i + 1 as int),
                filter@,
            ));
        }
        i = i + 1;
    }
    proof {
        assert(catalog@.take(catalog@.len() as int) =~= catalog@);
    }
    out
}

/// Decides whether the selector asks for the long-term-support channel.
fn filter_selector_is_lts(filter: &str) -> (r: bool)
    ensures
        r == (filter@ == "lts"@),
{
    let f = String::from_str(filter);
    let lts = String::from_str("lts");
    f == lts
}

/// The first entry carrying the greatest semantic version of the candidate
/// set.
pub open spec fn is_first_max(s: Seq<&Version>, i: int) -> bool {
    &&& 0 <= i < s.len()
    &&& forall|j: int| 0 <= j < s.len() ==> !key_lt(entry_key(*s[i]), entry_key(*#[trigger] s[j]))
    &&& forall|j: int| 0 <= j < i ==> key_lt(entry_key(*#[trigger] s[j]), entry_key(*s[i]))
}

/// Selects the entry with the greatest semantic version among the
/// candidates, comparing major, then minor, then patch numerically; an
/// empty candidate set is a contract violation and fails.
pub fn highest_version<'a>(versions: Vec<&'a Version>) -> (r: Result<&'a Version, InstallError>)
    ensures
        versions@.len() == 0 ==> (r matches Err(e) && e is NoCandidates),
        versions@.len() > 0 ==> (r matches Ok(v) && exists|i: int|
            #[trigger] is_first_max(versions@, i) && v == versions@[i]),
{
    if versions.len() == 0 {
        return Err(InstallError::NoCandidates);
    }
    let mut best: &Version = versions[0];
    let mut best_key = parse_version_key(best.version.as_str());
    let ghost mut best_idx: int = 0;
    let mut i: usize = 1;
    while i < versions.len()
        invariant
            1 <= i <= versions@.len(),
            0 <= best_idx < i,
            best == versions@[best_idx],
            lift_key(best_key) == entry_key(*versions@[best_idx]),
            forall|j: int| 0 <= j < i ==> !key_lt(
                entry_key(*versions@[best_idx]),
                entry_key(*#[trigger] versions@[j]),
            ),
            forall|j: int| 0 <= j < best_idx ==> key_lt(
                entry_key(*#[trigger] versions@[j]),
                entry_key(*versions@[best_idx]),
            ),
        decreases versions@.len() - i,
    {
        let cur_key = parse_version_key(versions[i].version.as_str());
        if key_less(best_key, cur_key) {
            best = versions[i];
            best_key = cur_key;
            proof {
                best_idx = i as int;
            }
        }
        i = i + 1;
    }
    proof {
        assert(is_first_max(versions@, best_idx));
    }
    Ok(best)
}

/// Versions are unique within one catalog snapshot.
pub open spec fn versions_unique(catalog: Seq<Version>) -> bool {
    forall|a: int, b: int|
        0 <= a < catalog.len() && 0 <= b < catalog.len() && a != b ==> (#[trigger] catalog[a]).version@
            != (#[trigger] catalog[b]).version@
}

/// Under the catalog's uniqueness invariant, an exact-version selector
/// matches at most one entry.
/// Every element of a filtered sequence stands somewhere in the original.
proof fn lemma_filter_element_in<A>(s: Seq<A>, pred: spec_fn(A) -> bool, i: int)
    requires
        0 <= i < s.filter(pred).len(),
    ensures
        exists|k: int| 0 <= k < s.len() && s[k] == s.filter(pred)[i],
    decreases s.len(),
{
    reveal(Seq::filter);
    if s.len() > 0 {
        let sub = s.drop_last().filter(pred);
        if pred(s.last()) && i == sub.len() {
            assert(s[s.len() - 1] == s.filter(pred)[i]);
        } else {
            lemma_filter_element_in(s.drop_last(), pred, i);
            let k = choose|k: int| 0 <= k < s.drop_last().len() && s.drop_last()[k] == sub[i];
            assert(s[k] == s.filter(pred)[i]);
        }
    }
}

pub proof fn lemma_exact_filter_at_most_one(catalog: Seq<Version>, selector: Seq<char>)
    requires
        versions_unique(catalog),
        selector != "lts"@,
    ensures
        spec_filter(catalog, selector).len() <= 1,
    decreases catalog.len(),
{
    reveal(Seq::filter);
    let pred = |v: Version| entry_matches(v, selector);
    if catalog.len() > 0 {
        let t = catalog.drop_last();
        assert(versions_unique(t)) by {
            assert forall|a: int, b: int|
                0 <= a < t.len() && 0 <= b < t.len() && a != b implies (#[trigger] t[a]).version@
                != (#[trigger] t[b]).version@ by {
                assert(t[a] == catalog[a] && t[b] == catalog[b]);
            }
        }
        lemma_exact_filter_at_most_one(t, selector);
        if pred(catalog.last()) {
            if t.filter(pred).len() > 0 {
                let x = t.filter(pred)[0];
                t.lemma_filter_pred(pred, 0);
                lemma_filter_element_in(t, pred, 0);
                let k = choose|k: int| 0 <= k < t.len() && t[k] == x;
                assert(catalog[k].version@ == selector);
                assert(catalog[catalog.len() - 1].version@ == selector);
                assert(false);
            }
        }
    }
}

} // verus!
