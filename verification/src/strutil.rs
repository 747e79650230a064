//! Character-level string utilities shared by the parser and the builder.
//!
//! Every executable function here carries an exact contract phrased over
//! `Seq<char>` views; the spec functions in this module are the vocabulary
//! that the rest of the library's contracts are written in.

use vstd::prelude::*;
use vstd::string::StrSliceExecFns;
use vstd::string::StringExecFns;

verus! {

/// The whitespace characters recognised when lines are trimmed.
pub open spec fn is_space(c: char) -> bool {
    c == ' ' || c == '\t' || c == '\r' || c == '\n'
}

pub open spec fn trim_start_spec(s: Seq<char>) -> Seq<char>
    decreases s.len(),
{
    if s.len() > 0 && is_space(s[0]) {
        trim_start_spec(s.drop_first())
    } else {
        s
    }
}

pub open spec fn trim_end_spec(s: Seq<char>) -> Seq<char>
    decreases s.len(),
{
    if s.len() > 0 && is_space(s[s.len() - 1]) {
        trim_end_spec(s.drop_last())
    } else {
        s
    }
}

/// A string with leading and trailing whitespace removed.
pub open spec fn trim_spec(s: Seq<char>) -> Seq<char> {
    trim_end_spec(trim_start_spec(s))
}

proof fn lemma_trim_start_skip(s: Seq<char>, i: int)
    requires
        0 <= i <= s.len(),
        forall|k: int| 0 <= k < i ==> is_space(s[k]),
        i < s.len() ==> !is_space(s[i]),
    ensures
        trim_start_spec(s) == s.skip(i),
    decreases i,
{
    if i == 0 {
        assert(s.skip(0) =~= s);
    } else {
        assert(is_space(s[0]));
        let t = s.drop_first();
        assert(t =~= s.skip(1));
        assert(forall|k: int| 0 <= k < i - 1 ==> is_space(t[k]));
        lemma_trim_start_skip(t, i - 1);
        assert(t.skip(i - 1) =~= s.skip(i));
    }
}

proof fn lemma_trim_end_take(s: Seq<char>, j: int)
    requires
        0 <= j <= s.len(),
        forall|k: int| j <= k < s.len() ==> is_space(s[k]),
        j > 0 ==> !is_space(s[j - 1]),
    ensures
        trim_end_spec(s) == s.take(j),
    decreases s.len() - j,
{
    if j == s.len() {
        assert(s.take(j) =~= s);
    } else {
        assert(is_space(s[s.len() - 1]));
        let t = s.drop_last();
        assert(forall|k: int| j <= k < t.len() ==> is_space(t[k]));
        lemma_trim_end_take(t, j);
        assert(t.take(j) =~= s.take(j));
    }
}

proof fn lemma_trim_start_no_lead(s: Seq<char>)
    ensures
        trim_start_spec(s).len() > 0 ==> !is_space(trim_start_spec(s)[0]),
    decreases s.len(),
{
    if s.len() > 0 && is_space(s[0]) {
        lemma_trim_start_no_lead(s.drop_first());
    }
}

proof fn lemma_trim_end_no_trail(s: Seq<char>)
    ensures
        trim_end_spec(s).len() > 0 ==> !is_space(trim_end_spec(s)[trim_end_spec(s).len() - 1]),
    decreases s.len(),
{
    if s.len() > 0 && is_space(s[s.len() - 1]) {
        lemma_trim_end_no_trail(s.drop_last());
    }
}

proof fn lemma_trim_end_is_prefix(s: Seq<char>)
    ensures
        trim_end_spec(s).len() <= s.len(),
        forall|i: int| 0 <= i < trim_end_spec(s).len() ==> trim_end_spec(s)[i] == s[i],
    decreases s.len(),
{
    if s.len() > 0 && is_space(s[s.len() - 1]) {
        lemma_trim_end_is_prefix(s.drop_last());
        assert forall|i: int| 0 <= i < trim_end_spec(s).len() implies trim_end_spec(s)[i]
            == s[i] by {
            assert(trim_end_spec(s) == trim_end_spec(s.drop_last()));
            assert(s.drop_last()[i] == s[i]);
        }
    }
}

/// Trimming an already-trimmed string changes nothing.
pub proof fn lemma_trim_idempotent(s: Seq<char>)
    ensures
        trim_spec(trim_spec(s)) == trim_spec(s),
{
    let a = trim_start_spec(s);
    let t = trim_end_spec(a);
    if t.len() > 0 {
        lemma_trim_start_no_lead(s);
        lemma_trim_end_is_prefix(a);
        assert(t[0] == a[0]);
        assert(!is_space(t[0]));
        assert(trim_start_spec(t) == t);
        lemma_trim_end_no_trail(a);
        assert(trim_end_spec(t) == t);
    } else {
        assert(trim_start_spec(t) == t);
        assert(trim_end_spec(t) == t);
    }
}

pub fn is_space_char(c: char) -> (r: bool)
    ensures
        r == is_space(c),
{
    c == ' ' || c == '\t' || c == '\r' || c == '\n'
}

/// Removes leading and trailing whitespace.
pub fn trim(s: &str) -> (r: String)
    ensures
        r@ == trim_spec(s@),
{
    let n = s.unicode_len();
    let mut i: usize = 0;
    while i < n && is_space_char(s.get_char(i))
        invariant
            i <= n,
            n == s@.len(),
            forall|k: int| 0 <= k < i ==> is_space(s@[k]),
        decreases n - i,
    {
        i = i + 1;
    }
    if i == n {
        proof {
            lemma_trim_start_skip(s@, i as int);
            assert(s@.skip(n as int) =~= Seq::<char>::empty());
        }
        return String::new();
    }
    let mut j: usize = n;
    while j > i && is_space_char(s.get_char(j - 1))
        invariant
            i <= j <= n,
            n == s@.len(),
            i < n,
            !is_space(s@[i as int]),
            forall|k: int| j <= k < n ==> is_space(s@[k]),
        decreases j,
    {
        j = j - 1;
    }
    let sub = s.substring_char(i, j);
    let r = String::from_str(sub);
    proof {
        lemma_trim_start_skip(s@, i as int);
        let t = s@.skip(i as int);
        assert(forall|k: int| (j - i) <= k < t.len() ==> is_space(t[k]));
        assert(j > i);
        assert(t[j - i - 1] == s@[j - 1]);
        assert(!is_space(t[j - i - 1]));
        lemma_trim_end_take(t, j - i);
        assert(t.take(j - i) =~= s@.subrange(i as int, j as int));
    }
    r
}

/// `p` is a prefix of `s`.
pub open spec fn has_prefix(s: Seq<char>, p: Seq<char>) -> bool {
    p.len() <= s.len() && forall|i: int| 0 <= i < p.len() ==> s[i] == p[i]
}

pub fn starts_with(s: &str, p: &str) -> (r: bool)
    ensures
        r == has_prefix(s@, p@),
{
    let sn = s.unicode_len();
    let pn = p.unicode_len();
    if pn > sn {
        return false;
    }
    let mut i: usize = 0;
    while i < pn
        invariant
            i <= pn,
            pn <= sn,
            sn == s@.len(),
            pn == p@.len(),
            forall|k: int| 0 <= k < i ==> s@[k] == p@[k],
        decreases pn - i,
    {
        if s.get_char(i) != p.get_char(i) {
            return false;
        }
        i = i + 1;
    }
    true
}

pub fn str_eq(a: &str, b: &str) -> (r: bool)
    ensures
        r == (a@ == b@),
{
    let an = a.unicode_len();
    let bn = b.unicode_len();
    if an != bn {
        return false;
    }
    let mut i: usize = 0;
    while i < an
        invariant
            i <= an,
            an == a@.len(),
            an == b@.len(),
            forall|k: int| 0 <= k < i ==> a@[k] == b@[k],
        decreases an - i,
    {
        if a.get_char(i) != b.get_char(i) {
            return false;
        }
        i = i + 1;
    }
    proof {
        assert(a@ =~= b@);
    }
    true
}

/// Index of the first occurrence of `c` in `s` at a position `>= from`,
/// or `s.len()` if there is none.
pub open spec fn idx_of_from(s: Seq<char>, from: int, c: char) -> int
    decreases s.len() - from,
{
    if from < 0 || from >= s.len() {
        s.len() as int
    } else if s[from] == c {
        from
    } else {
        idx_of_from(s, from + 1, c)
    }
}

pub proof fn lemma_idx_of_from(s: Seq<char>, from: int, c: char)
    requires
        0 <= from <= s.len(),
    ensures
        from <= idx_of_from(s, from, c) <= s.len(),
        idx_of_from(s, from, c) < s.len() ==> s[idx_of_from(s, from, c)] == c,
        forall|k: int| from <= k < idx_of_from(s, from, c) ==> s[k] != c,
    decreases s.len() - from,
{
    if from < s.len() && s[from] != c {
        lemma_idx_of_from(s, from + 1, c);
    }
}

pub fn find_from(s: &str, from: usize, c: char) -> (r: usize)
    requires
        from <= s@.len(),
    ensures
        r == idx_of_from(s@, from as int, c),
{
    let n = s.unicode_len();
    let mut i: usize = from;
    while i < n
        invariant
            from <= i <= n,
            n == s@.len(),
            idx_of_from(s@, from as int, c) == idx_of_from(s@, i as int, c),
        decreases n - i,
    {
        if s.get_char(i) == c {
            return i;
        }
        i = i + 1;
    }
    n
}

/// A copy of `s[from..to]` (in characters) as an owned string.
pub fn substr(s: &str, from: usize, to: usize) -> (r: String)
    requires
        from <= to <= s@.len(),
    ensures
        r@ == s@.subrange(from as int, to as int),
{
    String::from_str(s.substring_char(from, to))
}

/// A trimmed copy of `s[from..to]`.
pub fn substr_trim(s: &str, from: usize, to: usize) -> (r: String)
    requires
        from <= to <= s@.len(),
    ensures
        r@ == trim_spec(s@.subrange(from as int, to as int)),
{
    let sub = s.substring_char(from, to);
    trim(sub)
}

pub open spec fn is_digit(c: char) -> bool {
    '0' <= c && c <= '9'
}

pub open spec fn digit_val(c: char) -> int {
    (c as u32) as int - 48
}

pub open spec fn all_digits(s: Seq<char>) -> bool {
    forall|i: int| 0 <= i < s.len() ==> is_digit(s[i])
}

/// The value of a digit string, most significant digit first.
pub open spec fn digits_val(s: Seq<char>) -> int
    decreases s.len(),
{
    if s.len() == 0 {
        0
    } else {
        digits_val(s.drop_last()) * 10 + digit_val(s.last())
    }
}

/// What parsing `s` as a `u16` yields: defined exactly when `s` is a
/// non-empty digit string whose value fits.
pub open spec fn spec_parse_u16(s: Seq<char>) -> Option<u16> {
    if s.len() > 0 && all_digits(s) && digits_val(s) <= 65535 {
        Some(digits_val(s) as u16)
    } else {
        None
    }
}

proof fn lemma_digits_val_nonneg(s: Seq<char>)
    requires
        all_digits(s),
    ensures
        digits_val(s) >= 0,
    decreases s.len(),
{
    if s.len() > 0 {
        assert(all_digits(s.drop_last()));
        lemma_digits_val_nonneg(s.drop_last());
        assert(is_digit(s.last()));
    }
}

proof fn lemma_digits_val_prefix(s: Seq<char>, k: int)
    requires
        all_digits(s),
        0 <= k <= s.len(),
    ensures
        digits_val(s.take(k)) <= digits_val(s),
    decreases s.len() - k,
{
    if k < s.len() {
        let t = s.take(k + 1);
        assert(t.drop_last() =~= s.take(k));
        assert(all_digits(t));
        lemma_digits_val_nonneg(s.take(k));
        assert(is_digit(t.last()));
        assert(digits_val(t) == digits_val(s.take(k)) * 10 + digit_val(t.last()));
        assert(digits_val(s.take(k)) <= digits_val(t));
        lemma_digits_val_prefix(s, k + 1);
        assert(s.take(k + 1) == t);
    } else {
        assert(s.take(k) =~= s);
    }
}

/// Parses a non-empty all-digit string as a `u16`; any other input is
/// rejected, as is a value over `u16::MAX`.
pub fn parse_u16(s: &str) -> (r: Option<u16>)
    ensures
        r == spec_parse_u16(s@),
{
    let n = s.unicode_len();
    if n == 0 {
        return None;
    }
    let mut acc: u32 = 0;
    let mut i: usize = 0;
    while i < n
        invariant
            i <= n,
            n == s@.len(),
            n > 0,
            all_digits(s@.take(i as int)),
            acc == digits_val(s@.take(i as int)),
            acc <= 65535,
        decreases n - i,
    {
        let c = s.get_char(i);
        if c < '0' || c > '9' {
            assert(!is_digit(s@[i as int]));
            return None;
        }
        let d: u32 = (c as u32) - 48;
        proof {
            let t = s@.take(i + 1);
            assert(t.drop_last() =~= s@.take(i as int));
            assert(t.last() == s@[i as int]);
        }
        if acc > 6553 || (acc == 6553 && d > 5) {
            proof {
                if all_digits(s@) && digits_val(s@) <= 65535 {
                    lemma_digits_val_prefix(s@, i + 1);
                    assert(digits_val(s@.take(i + 1)) <= digits_val(s@));
                    assert(digits_val(s@.take(i + 1)) == acc * 10 + d);
                }
            }
            return None;
        }
        acc = acc * 10 + d;
        i = i + 1;
    }
    proof {
        assert(s@.take(n as int) =~= s@);
    }
    Some(acc as u16)
}

/// Strips one layer of surrounding double quotes, if both are present.
pub open spec fn unquote(s: Seq<char>) -> Seq<char> {
    if s.len() >= 2 && s[0] == '"' && s[s.len() - 1] == '"' {
        s.subrange(1, s.len() - 1)
    } else {
        s
    }
}

pub fn unquote_string(s: &str) -> (r: String)
    ensures
        r@ == unquote(s@),
{
    let n = s.unicode_len();
    if n >= 2 && s.get_char(0) == '"' && s.get_char(n - 1) == '"' {
        substr(s, 1, n - 1)
    } else {
        String::from_str(s)
    }
}

/// The lines joined with a single separator character between them.
pub open spec fn join_sep(ls: Seq<Seq<char>>, sep: char) -> Seq<char>
    decreases ls.len(),
{
    if ls.len() == 0 {
        Seq::empty()
    } else if ls.len() == 1 {
        ls[0]
    } else {
        join_sep(ls.drop_last(), sep) + seq![sep] + ls.last()
    }
}

pub proof fn lemma_join_sep_push(ls: Seq<Seq<char>>, sep: char, x: Seq<char>)
    ensures
        ls.len() == 0 ==> join_sep(ls.push(x), sep) == x,
        ls.len() > 0 ==> join_sep(ls.push(x), sep) == join_sep(ls, sep) + seq![sep] + x,
{
    let p = ls.push(x);
    assert(p.drop_last() =~= ls);
    assert(p.last() == x);
    if ls.len() == 0 {
        assert(p.len() == 1);
        assert(p[0] == x);
    }
}

/// The scan position after the last `::` separator at or right of `i`,
/// scanning left to right without overlap; `found` carries the position
/// after the last separator seen so far.
pub open spec fn scan_last_sep(s: Seq<char>, i: int, found: int) -> int
    decreases s.len() - i,
{
    if i < 0 || i + 2 > s.len() {
        found
    } else if s[i] == ':' && s[i + 1] == ':' {
        scan_last_sep(s, i + 2, i + 2)
    } else {
        scan_last_sep(s, i + 1, found)
    }
}

/// The suffix after the last `::` separator; the whole string when none
/// occurs.
pub open spec fn after_last_sep(s: Seq<char>) -> Seq<char> {
    s.skip(scan_last_sep(s, 0, 0))
}

proof fn lemma_scan_last_sep_bounds(s: Seq<char>, i: int, found: int)
    requires
        0 <= found <= s.len(),
        0 <= i,
    ensures
        found <= scan_last_sep(s, i, found) || scan_last_sep(s, i, found) >= i,
        0 <= scan_last_sep(s, i, found) <= s.len(),
    decreases s.len() - i,
{
    if i + 2 > s.len() {
    } else if s[i] == ':' && s[i + 1] == ':' {
        lemma_scan_last_sep_bounds(s, i + 2, i + 2);
    } else {
        lemma_scan_last_sep_bounds(s, i + 1, found);
    }
}

/// The suffix of `s` after its last `::`, as an owned string.
pub fn suffix_after_last_sep(s: &str) -> (r: String)
    ensures
        r@ == after_last_sep(s@),
{
    let n = s.unicode_len();
    let mut i: usize = 0;
    let mut found: usize = 0;
    while i < n && i + 1 < n
        invariant
            i <= n + 1,
            found <= n,
            n == s@.len(),
            scan_last_sep(s@, 0, 0) == scan_last_sep(s@, i as int, found as int),
        decreases n - i,
    {
        if s.get_char(i) == ':' && s.get_char(i + 1) == ':' {
            i = i + 2;
            found = i;
        } else {
            i = i + 1;
        }
    }
    proof {
        assert(scan_last_sep(s@, i as int, found as int) == found as int);
        lemma_scan_last_sep_bounds(s@, 0, 0);
    }
    substr(s, found, n)
}

/// `s` with every occurrence of `p` removed, scanning left to right
/// without overlap.
pub open spec fn remove_all(s: Seq<char>, p: Seq<char>) -> Seq<char>
    decreases s.len(),
{
    if p.len() == 0 || s.len() < p.len() {
        s
    } else if s.subrange(0, p.len() as int) == p {
        remove_all(s.skip(p.len() as int), p)
    } else {
        seq![s[0]] + remove_all(s.drop_first(), p)
    }
}

/// Whether `p` occurs in `s` starting at position `at`.
fn matches_at(s: &str, at: usize, p: &str) -> (r: bool)
    requires
        at <= s@.len(),
    ensures
        r == (at + p@.len() <= s@.len() && s@.subrange(at as int, at as int + p@.len()) == p@),
{
    let n = s.unicode_len();
    let pn = p.unicode_len();
    if pn > n - at {
        return false;
    }
    let mut k: usize = 0;
    while k < pn
        invariant
            k <= pn,
            at + pn <= n,
            n == s@.len(),
            pn == p@.len(),
            forall|j: int| 0 <= j < k ==> s@[at + j] == p@[j],
        decreases pn - k,
    {
        if s.get_char(at + k) != p.get_char(k) {
            proof {
                assert(s@.subrange(at as int, at as int + pn) != p@) by {
                    assert(s@.subrange(at as int, at as int + pn)[k as int] != p@[k as int]);
                }
            }
            return false;
        }
        k = k + 1;
    }
    proof {
        assert(s@.subrange(at as int, at as int + pn) =~= p@);
    }
    true
}

/// `s` with every occurrence of `pat` removed.
pub fn remove_all_str(s: &str, pat: &str) -> (r: String)
    requires
        pat@.len() > 0,
    ensures
        r@ == remove_all(s@, pat@),
{
    let n = s.unicode_len();
    let pn = pat.unicode_len();
    let mut r = String::new();
    let mut i: usize = 0;
    proof {
        assert(s@.skip(0) =~= s@);
    }
    while i < n
        invariant
            i <= n,
            n == s@.len(),
            pn == pat@.len(),
            pn > 0,
            r@ + remove_all(s@.skip(i as int), pat@) == remove_all(s@, pat@),
        decreases n - i,
    {
        let ghost pre = r@;
        let ghost sv = s@;
        if matches_at(s, i, pat) {
            proof {
                assert(sv.skip(i as int).subrange(0, pn as int) =~= sv.subrange(
                    i as int,
                    i as int + pn,
                ));
                assert(sv.skip(i as int).skip(pn as int) =~= sv.skip(i as int + pn));
                assert(remove_all(sv.skip(i as int), pat@) == remove_all(
                    sv.skip(i as int + pn),
                    pat@,
                ));
            }
            i = i + pn;
        } else {
            append_sub(&mut r, s, i, i + 1);
            proof {
                assert(sv.subrange(i as int, i as int + 1) =~= seq![sv[i as int]]);
                assert(sv.skip(i as int).drop_first() =~= sv.skip(i as int + 1));
                assert(sv.skip(i as int)[0] == sv[i as int]);
                if sv.skip(i as int).len() >= pn {
                    assert(sv.skip(i as int).subrange(0, pn as int) =~= sv.subrange(
                        i as int,
                        i as int + pn,
                    ));
                }
                assert(remove_all(sv.skip(i as int), pat@) == seq![sv[i as int]] + remove_all(
                    sv.skip(i as int + 1),
                    pat@,
                ));
                assert(r@ + remove_all(sv.skip(i as int + 1), pat@) =~= pre + remove_all(
                    sv.skip(i as int),
                    pat@,
                ));
            }
            i = i + 1;
        }
    }
    proof {
        assert(s@.skip(n as int) =~= Seq::<char>::empty());
    }
    r
}

/// Appends `piece` to `dst`.
pub fn append_str(dst: &mut String, piece: &str)
    ensures
        final(dst)@ == old(dst)@ + piece@,
{
    dst.append(piece);
}

/// Appends the character range `s[from..to]` to `dst`.
pub fn append_sub(dst: &mut String, s: &str, from: usize, to: usize)
    requires
        from <= to <= s@.len(),
    ensures
        final(dst)@ == old(dst)@ + s@.subrange(from as int, to as int),
{
    dst.append(s.substring_char(from, to));
}

} // verus!
