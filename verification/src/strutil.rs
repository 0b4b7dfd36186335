//! Verified character-level string utilities used throughout the
//! library: prefix/suffix tests, substring search, splitting,
//! replacement and decimal rendering.

use vstd::prelude::*;

verus! {

/// Joins two path fragments with a single separator.
pub open spec fn joined(a: Seq<char>, b: Seq<char>) -> Seq<char> {
    a + "/"@ + b
}

/// Builds the path `a/b`.
pub fn path_join(a: &str, b: &str) -> (r: String)
    ensures
        r@ == joined(a@, b@),
{
    let mut s = a.to_owned();
    s.append("/");
    s.append(b);
    s
}

/// `p` occurs in `s` at position `i`.
pub open spec fn occurs_at(s: Seq<char>, p: Seq<char>, i: int) -> bool {
    0 <= i && i + p.len() <= s.len() && s.subrange(i, i + p.len()) == p
}

/// `p` occurs somewhere in `s`.
pub open spec fn contains_seq(s: Seq<char>, p: Seq<char>) -> bool {
    exists|i: int| occurs_at(s, p, i)
}

/// `s` starts with `p`.
pub open spec fn starts_with_seq(s: Seq<char>, p: Seq<char>) -> bool {
    p.len() <= s.len() && s.subrange(0, p.len() as int) == p
}

/// `s` ends with `p`.
pub open spec fn ends_with_seq(s: Seq<char>, p: Seq<char>) -> bool {
    p.len() <= s.len() && s.subrange(s.len() - p.len(), s.len() as int) == p
}

/// Compares two string slices character by character.
pub fn str_eq(a: &str, b: &str) -> (r: bool)
    ensures
        r == (a@ == b@),
{
    let alen = a.unicode_len();
    let blen = b.unicode_len();
    if alen != blen {
        assert(a@ != b@);
        return false;
    }
    let mut i: usize = 0;
    while i < alen
        invariant
            i <= alen,
            alen == a@.len(),
            alen == b@.len(),
            forall|j: int| 0 <= j < i ==> a@[j] == b@[j],
        decreases alen - i,
    {
        if a.get_char(i) != b.get_char(i) {
            return false;
        }
        i += 1;
    }
    proof {
        assert(a@ =~= b@);
    }
    true
}

/// Tests whether `s` starts with `p`.
pub fn starts_with(s: &str, p: &str) -> (r: bool)
    ensures
        r == starts_with_seq(s@, p@),
{
    let slen = s.unicode_len();
    let plen = p.unicode_len();
    if plen > slen {
        return false;
    }
    let head = s.substring_char(0, plen);
    str_eq(head, p)
}

/// Tests whether `s` ends with `p`.
pub fn ends_with(s: &str, p: &str) -> (r: bool)
    ensures
        r == ends_with_seq(s@, p@),
{
    let slen = s.unicode_len();
    let plen = p.unicode_len();
    if plen > slen {
        return false;
    }
    let tail = s.substring_char(slen - plen, slen);
    str_eq(tail, p)
}

/// Tests whether `p` occurs in `s` starting at `i`.
pub fn occurs_at_exec(s: &str, p: &str, i: usize) -> (r: bool)
    requires
        i + p@.len() <= s@.len(),
    ensures
        r == occurs_at(s@, p@, i as int),
{
    let slen = s.unicode_len();
    let plen = p.unicode_len();
    let part = s.substring_char(i, i + plen);
    str_eq(part, p)
}

/// Finds the first occurrence of `p` in `s`.
pub fn find_sub(s: &str, p: &str) -> (r: Option<usize>)
    ensures
        match r {
            Some(i) => occurs_at(s@, p@, i as int) && forall|j: int|
                0 <= j < i ==> !occurs_at(s@, p@, j),
            None => !contains_seq(s@, p@),
        },
{
    let slen = s.unicode_len();
    let plen = p.unicode_len();
    if plen > slen {
        proof {
            assert(forall|i: int| !occurs_at(s@, p@, i));
        }
        return None;
    }
    if plen == 0 {
        proof {
            assert(s@.subrange(0, 0) =~= p@);
        }
        return Some(0);
    }
    let mut i: usize = 0;
    while i <= slen - plen
        invariant
            plen == p@.len(),
            slen == s@.len(),
            1 <= plen <= slen,
            i <= slen - plen + 1,
            forall|j: int| 0 <= j < i ==> !occurs_at(s@, p@, j),
        decreases slen - plen + 1 - i,
    {
        if occurs_at_exec(s, p, i) {
            return Some(i);
        }
        i += 1;
    }
    proof {
        assert(forall|j: int| 0 <= j ==> j + p@.len() > s@.len() || j < i ==> !occurs_at(
            s@,
            p@,
            j,
        ));
        assert(forall|j: int| #[trigger] occurs_at(s@, p@, j) ==> 0 <= j && j + p@.len()
            <= s@.len());
        assert(forall|j: int| !occurs_at(s@, p@, j));
    }
    None
}

/// Tests whether `p` occurs anywhere in `s`.
pub fn contains_sub(s: &str, p: &str) -> (r: bool)
    ensures
        r == contains_seq(s@, p@),
{
    match find_sub(s, p) {
        Some(i) => {
            proof {
                assert(occurs_at(s@, p@, i as int));
            }
            true
        },
        None => false,
    }
}

/// `s` with every occurrence of `pat` replaced by `rep`, scanning
/// left to right over non-overlapping occurrences.
pub open spec fn replace_all_seq(s: Seq<char>, pat: Seq<char>, rep: Seq<char>) -> Seq<char>
    decreases s.len(),
{
    if pat.len() == 0 || s.len() < pat.len() {
        s
    } else if s.subrange(0, pat.len() as int) == pat {
        rep + replace_all_seq(s.skip(pat.len() as int), pat, rep)
    } else {
        seq![s[0]] + replace_all_seq(s.skip(1), pat, rep)
    }
}

/// Replaces every occurrence of `pat` in `s` by `rep`.
pub fn replace_all(s: &str, pat: &str, rep: &str) -> (r: String)
    ensures
        r@ == replace_all_seq(s@, pat@, rep@),
    decreases s@.len(),
{
    let slen = s.unicode_len();
    let plen = pat.unicode_len();
    if plen == 0 || slen < plen {
        s.to_owned()
    } else if starts_with(s, pat) {
        let rest = s.substring_char(plen, slen);
        proof {
            assert(rest@ =~= s@.skip(plen as int));
        }
        let mut out = rep.to_owned();
        let tail = replace_all(rest, pat, rep);
        out.append(tail.as_str());
        out
    } else {
        let mut out = s.substring_char(0, 1).to_owned();
        proof {
            assert(out@ =~= seq![s@[0]]);
        }
        let rest = s.substring_char(1, slen);
        proof {
            assert(rest@ =~= s@.skip(1));
        }
        let tail = replace_all(rest, pat, rep);
        out.append(tail.as_str());
        out
    }
}

/// `s` with trailing copies of `pat` removed, one after another.
pub open spec fn trim_end_all_seq(s: Seq<char>, pat: Seq<char>) -> Seq<char>
    decreases s.len(),
{
    if pat.len() == 0 {
        s
    } else if ends_with_seq(s, pat) {
        trim_end_all_seq(s.take(s.len() - pat.len()), pat)
    } else {
        s
    }
}

/// Removes every trailing copy of `pat` from `s`.
pub fn trim_end_all(s: &str, pat: &str) -> (r: String)
    ensures
        r@ == trim_end_all_seq(s@, pat@),
    decreases s@.len(),
{
    let slen = s.unicode_len();
    let plen = pat.unicode_len();
    if plen == 0 {
        s.to_owned()
    } else if ends_with(s, pat) {
        let head = s.substring_char(0, slen - plen);
        proof {
            assert(head@ =~= s@.take(s@.len() - pat@.len()));
        }
        trim_end_all(head, pat)
    } else {
        s.to_owned()
    }
}

/// The segments of `s` between occurrences of `sep`; always at least
/// one segment, as with the standard splitting iterator.
pub open spec fn split_sep(s: Seq<char>, sep: char) -> Seq<Seq<char>>
    decreases s.len(),
{
    if s.len() == 0 {
        seq![Seq::<char>::empty()]
    } else if s[0] == sep {
        seq![Seq::<char>::empty()] + split_sep(s.skip(1), sep)
    } else {
        let r = split_sep(s.skip(1), sep);
        seq![seq![s[0]] + r[0]] + r.skip(1)
    }
}

/// Splitting always yields at least one segment.
pub proof fn lemma_split_sep_len(s: Seq<char>, sep: char)
    ensures
        split_sep(s, sep).len() >= 1,
    decreases s.len(),
{
    if s.len() != 0 {
        lemma_split_sep_len(s.skip(1), sep);
    }
}

/// A separator-free text is a single segment.
proof fn lemma_split_sep_free(s: Seq<char>, sep: char)
    requires
        forall|i: int| 0 <= i < s.len() ==> s[i] != sep,
    ensures
        split_sep(s, sep) == seq![s],
    decreases s.len(),
{
    if s.len() == 0 {
        assert(s =~= Seq::<char>::empty());
        assert(split_sep(s, sep) =~~= seq![s]);
    } else {
        lemma_split_sep_free(s.skip(1), sep);
        assert(split_sep(s.skip(1), sep).skip(1) =~~= Seq::<Seq<char>>::empty());
        assert(seq![s[0]] + s.skip(1) =~= s);
        assert(split_sep(s, sep) =~~= seq![s]);
    }
}

/// Splitting a text whose head segment is separator-free peels that
/// segment off.
proof fn lemma_split_sep_peel(a: Seq<char>, sep: char, b: Seq<char>)
    requires
        forall|i: int| 0 <= i < a.len() ==> a[i] != sep,
    ensures
        split_sep(a + seq![sep] + b, sep) == seq![a] + split_sep(b, sep),
    decreases a.len(),
{
    let s = a + seq![sep] + b;
    if a.len() == 0 {
        assert(s =~= seq![sep] + b);
        assert(s[0] == sep);
        assert(s.skip(1) =~= b);
        assert(split_sep(s, sep) =~~= seq![a] + split_sep(b, sep));
    } else {
        assert(s[0] == a[0]);
        assert(s[0] != sep);
        assert(s.skip(1) =~= a.skip(1) + seq![sep] + b);
        lemma_split_sep_peel(a.skip(1), sep, b);
        let r = split_sep(s.skip(1), sep);
        lemma_split_sep_len(b, sep);
        assert(r[0] == a.skip(1));
        assert(seq![a[0]] + a.skip(1) =~= a);
        assert(r.skip(1) =~~= split_sep(b, sep));
        assert(split_sep(s, sep) =~~= seq![a] + split_sep(b, sep));
    }
}

/// The first separator at or after `from`, when one exists.
fn find_sep_from(s: &str, sep: char, from: usize) -> (r: Option<usize>)
    requires
        from <= s@.len(),
    ensures
        match r {
            Some(j) => from <= j < s@.len() && s@[j as int] == sep && forall|k: int|
                from <= k < j ==> s@[k] != sep,
            None => forall|k: int| from <= k < s@.len() ==> s@[k] != sep,
        },
{
    let slen = s.unicode_len();
    let mut j: usize = from;
    while j < slen
        invariant
            from <= j <= slen,
            slen == s@.len(),
            forall|k: int| from <= k < j ==> s@[k] != sep,
        decreases slen - j,
    {
        if s.get_char(j) == sep {
            return Some(j);
        }
        j += 1;
    }
    None
}

/// Splits `s` at every occurrence of `sep`.
pub fn split_char(s: &str, sep: char) -> (r: Vec<String>)
    ensures
        r.deep_view() == split_sep(s@, sep),
        r.len() >= 1,
{
    let slen = s.unicode_len();
    let mut out: Vec<String> = Vec::new();
    let mut start: usize = 0;
    proof {
        assert(s@.skip(0) =~= s@);
    }
    loop
        invariant_except_break
            start <= slen,
            slen == s@.len(),
            split_sep(s@, sep) == out.deep_view() + split_sep(s@.skip(start as int), sep),
        ensures
            out.deep_view() == split_sep(s@, sep),
        decreases slen - start,
    {
        match find_sep_from(s, sep, start) {
            None => {
                let tail = s.substring_char(start, slen).to_owned();
                proof {
                    assert(tail@ =~= s@.skip(start as int));
                    lemma_split_sep_free(s@.skip(start as int), sep);
                }
                out.push(tail);
                proof {
                    assert(out.deep_view() =~~= split_sep(s@, sep));
                }
                break;
            },
            Some(j) => {
                let token = s.substring_char(start, j).to_owned();
                proof {
                    let a = s@.subrange(start as int, j as int);
                    let b = s@.skip(j + 1);
                    assert(token@ =~= a);
                    assert(s@.skip(start as int) =~= a + seq![sep] + b);
                    lemma_split_sep_peel(a, sep, b);
                }
                let ghost before = out.deep_view();
                out.push(token);
                proof {
                    assert(out.deep_view() =~~= before.push(s@.subrange(
                        start as int,
                        j as int,
                    )));
                    assert(out.deep_view() + split_sep(s@.skip(j + 1), sep) =~~= split_sep(
                        s@,
                        sep,
                    ));
                }
                start = j + 1;
            },
        }
    }
    proof {
        lemma_split_sep_len(s@, sep);
    }
    out
}

/// The text after the last occurrence of `sep`, or all of `s` when
/// `sep` does not occur.
pub fn last_segment(s: &str, sep: char) -> (r: String)
    ensures
        r@ == split_sep(s@, sep).last(),
{
    let parts = split_char(s, sep);
    let n = parts.len();
    let r = parts[n - 1].clone();
    proof {
        assert(parts.deep_view()[n - 1] == parts[n - 1 as int]@);
    }
    r
}

/// The index of the last occurrence of `c` in `s`, or a negative
/// value when `c` does not occur.
pub open spec fn last_index_of(s: Seq<char>, c: char) -> int
    decreases s.len(),
{
    if s.len() == 0 {
        -1
    } else if s.last() == c {
        s.len() - 1
    } else {
        last_index_of(s.drop_last(), c)
    }
}

/// Everything before the last separator: the parent directory of a
/// path, or empty when the path has a single component.
pub open spec fn spec_parent_dir(s: Seq<char>) -> Seq<char> {
    if last_index_of(s, '/') < 0 {
        Seq::<char>::empty()
    } else {
        s.take(last_index_of(s, '/'))
    }
}

proof fn lemma_last_index_found(s: Seq<char>, c: char, k: int)
    requires
        0 <= k < s.len(),
        s[k] == c,
        forall|j: int| k < j < s.len() ==> s[j] != c,
    ensures
        last_index_of(s, c) == k,
    decreases s.len(),
{
    if s.last() == c {
        assert(k == s.len() - 1);
    } else {
        assert(k < s.len() - 1);
        lemma_last_index_found(s.drop_last(), c, k);
    }
}

proof fn lemma_last_index_absent(s: Seq<char>, c: char)
    requires
        forall|j: int| 0 <= j < s.len() ==> s[j] != c,
    ensures
        last_index_of(s, c) < 0,
    decreases s.len(),
{
    if s.len() > 0 {
        lemma_last_index_absent(s.drop_last(), c);
    }
}

/// The parent directory of a path: everything before the last
/// separator, or empty when there is none.
pub fn parent_dir(s: &str) -> (r: String)
    ensures
        r@ == spec_parent_dir(s@),
{
    let slen = s.unicode_len();
    let mut i: usize = slen;
    while i > 0
        invariant
            i <= slen,
            slen == s@.len(),
            forall|j: int| i <= j < slen ==> s@[j] != '/',
        decreases i,
    {
        if s.get_char(i - 1) == '/' {
            proof {
                lemma_last_index_found(s@, '/', i - 1);
            }
            return s.substring_char(0, i - 1).to_owned();
        }
        i -= 1;
    }
    proof {
        lemma_last_index_absent(s@, '/');
    }
    String::new()
}

/// The non-empty segments of a segment list, in order.
pub open spec fn keep_nonempty(ts: Seq<Seq<char>>) -> Seq<Seq<char>>
    decreases ts.len(),
{
    if ts.len() == 0 {
        Seq::<Seq<char>>::empty()
    } else {
        keep_nonempty(ts.drop_last()) + if ts.last().len() > 0 {
            seq![ts.last()]
        } else {
            Seq::<Seq<char>>::empty()
        }
    }
}

/// Splits `s` at `sep` and keeps the non-empty tokens.
pub fn split_nonempty(s: &str, sep: char) -> (r: Vec<String>)
    ensures
        r.deep_view() == keep_nonempty(split_sep(s@, sep)),
{
    let parts = split_char(s, sep);
    let n = parts.len();
    let mut out: Vec<String> = Vec::new();
    proof {
        assert(out.deep_view() =~~= keep_nonempty(parts.deep_view().take(0)));
    }
    let mut i: usize = 0;
    while i < n
        invariant
            i <= n,
            n == parts@.len(),
            parts.deep_view() == split_sep(s@, sep),
            out.deep_view() == keep_nonempty(parts.deep_view().take(i as int)),
        decreases n - i,
    {
        proof {
            assert(parts.deep_view().take(i + 1).drop_last() =~~= parts.deep_view().take(
                i as int,
            ));
            assert(parts.deep_view().take(i + 1).last() == parts.deep_view()[i as int]);
        }
        if parts[i].as_str().unicode_len() > 0 {
            let t = parts[i].clone();
            out.push(t);
        }
        proof {
            assert(out.deep_view() =~~= keep_nonempty(parts.deep_view().take(i + 1)));
        }
        i += 1;
    }
    proof {
        assert(parts.deep_view().take(n as int) =~~= parts.deep_view());
    }
    out
}

/// A text that holds the separator splits into at least two
/// segments.
pub proof fn lemma_split_contains(s: Seq<char>, sep: char)
    requires
        exists|i: int| 0 <= i < s.len() && s[i] == sep,
    ensures
        split_sep(s, sep).len() >= 2,
    decreases s.len(),
{
    let i = choose|i: int| 0 <= i < s.len() && s[i] == sep;
    if s[0] == sep {
        lemma_split_sep_len(s.skip(1), sep);
    } else {
        assert(s.skip(1)[i - 1] == sep);
        lemma_split_contains(s.skip(1), sep);
    }
}

/// A trailing carriage return stripped from a segment that a line
/// feed terminated.
pub open spec fn strip_cr(l: Seq<char>, terminated: bool) -> Seq<char> {
    if terminated && l.len() > 0 && l.last() == '\r' {
        l.drop_last()
    } else {
        l
    }
}

/// The lines of a text, as the standard line iterator yields them:
/// split at line feeds, the optional final line ending dropped, and a
/// carriage return before a line feed not part of the line.
pub open spec fn lines_of(s: Seq<char>) -> Seq<Seq<char>> {
    if s.len() == 0 {
        Seq::<Seq<char>>::empty()
    } else {
        let parts = split_sep(s, '\n');
        let kept = if s.last() == '\n' {
            parts.drop_last()
        } else {
            parts
        };
        Seq::new(kept.len(), |i: int| strip_cr(kept[i], i < kept.len() - 1 || s.last() == '\n'))
    }
}

/// Splits a text into its lines.
pub fn lines(s: &str) -> (r: Vec<String>)
    ensures
        r.deep_view() == lines_of(s@),
{
    let slen = s.unicode_len();
    let mut out: Vec<String> = Vec::new();
    if slen == 0 {
        proof {
            assert(out.deep_view() =~~= lines_of(s@));
        }
        return out;
    }
    let mut parts = split_char(s, '\n');
    let terminated_all = s.get_char(slen - 1) == '\n';
    if terminated_all {
        proof {
            lemma_split_sep_len(s@, '\n');
        }
        parts.pop();
    }
    let ghost kept = if s@.last() == '\n' {
        split_sep(s@, '\n').drop_last()
    } else {
        split_sep(s@, '\n')
    };
    proof {
        assert(parts.deep_view() =~~= kept);
        assert(lines_of(s@).len() == kept.len());
    }
    let n = parts.len();
    let mut i: usize = 0;
    while i < n
        invariant
            i <= n,
            n == parts@.len(),
            parts.deep_view() == kept,
            slen == s@.len(),
            slen > 0,
            terminated_all == (s@.last() == '\n'),
            lines_of(s@) == Seq::new(
                kept.len(),
                |j: int| strip_cr(kept[j], j < kept.len() - 1 || s@.last() == '\n'),
            ),
            out.deep_view() == lines_of(s@).take(i as int),
        decreases n - i,
    {
        let l = &parts[i];
        proof {
            assert(parts.deep_view()[i as int] == parts@[i as int]@);
        }
        let terminated = terminated_all || i < n - 1;
        let llen = l.as_str().unicode_len();
        let stripped: String;
        if terminated && llen > 0 && l.as_str().get_char(llen - 1) == '\r' {
            stripped = l.as_str().substring_char(0, llen - 1).to_owned();
            proof {
                assert(stripped@ =~= kept[i as int].drop_last());
            }
        } else {
            stripped = l.clone();
        }
        proof {
            assert(stripped@ == strip_cr(kept[i as int], terminated));
            assert(lines_of(s@)[i as int] == stripped@);
        }
        let ghost od = out.deep_view();
        out.push(stripped);
        proof {
            assert(out.deep_view() =~~= od.push(lines_of(s@)[i as int]));
            assert(lines_of(s@).take(i + 1) =~~= lines_of(s@).take(i as int).push(
                lines_of(s@)[i as int],
            ));
            assert(out.deep_view() =~~= lines_of(s@).take(i + 1));
        }
        i += 1;
    }
    proof {
        assert(lines_of(s@).take(n as int) =~~= lines_of(s@));
    }
    out
}

/// The decimal digit character for a value below ten.
pub open spec fn digit_char(d: nat) -> char {
    if d == 0 {
        '0'
    } else if d == 1 {
        '1'
    } else if d == 2 {
        '2'
    } else if d == 3 {
        '3'
    } else if d == 4 {
        '4'
    } else if d == 5 {
        '5'
    } else if d == 6 {
        '6'
    } else if d == 7 {
        '7'
    } else if d == 8 {
        '8'
    } else {
        '9'
    }
}

/// The decimal rendering of `n`, most significant digit first.
pub open spec fn dec_digits(n: nat) -> Seq<char>
    decreases n,
{
    if n < 10 {
        seq![digit_char(n)]
    } else {
        dec_digits(n / 10) + seq![digit_char(n % 10)]
    }
}

fn push_digit(s: &mut String, d: u64)
    requires
        d < 10,
    ensures
        final(s)@ == old(s)@ + seq![digit_char(d as nat)],
{
    proof {
        reveal_strlit("0");
        reveal_strlit("1");
        reveal_strlit("2");
        reveal_strlit("3");
        reveal_strlit("4");
        reveal_strlit("5");
        reveal_strlit("6");
        reveal_strlit("7");
        reveal_strlit("8");
        reveal_strlit("9");
    }
    if d == 0 {
        s.append("0");
    } else if d == 1 {
        s.append("1");
    } else if d == 2 {
        s.append("2");
    } else if d == 3 {
        s.append("3");
    } else if d == 4 {
        s.append("4");
    } else if d == 5 {
        s.append("5");
    } else if d == 6 {
        s.append("6");
    } else if d == 7 {
        s.append("7");
    } else if d == 8 {
        s.append("8");
    } else {
        s.append("9");
    }
}

/// Renders `n` in decimal.
pub fn u64_to_dec(n: u64) -> (r: String)
    ensures
        r@ == dec_digits(n as nat),
    decreases n,
{
    if n < 10 {
        let mut s = String::new();
        push_digit(&mut s, n);
        s
    } else {
        let mut s = u64_to_dec(n / 10);
        push_digit(&mut s, n % 10);
        s
    }
}

} // verus!
