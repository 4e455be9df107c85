//! Character- and sequence-level text utilities: whitespace trimming,
//! case-insensitive containment, and literal substring replacement.
//!
//! Everything here is specified over `Seq<char>` views; the executable
//! functions work on `Vec<char>` buffers converted from `&str`.

use vstd::prelude::*;

verus! {

/// The characters that `str::trim` removes (the Unicode whitespace set).
pub open spec fn is_ws_char(c: char) -> bool {
    let x = c as u32;
    (9 <= x && x <= 13) || x == 32 || x == 0x85 || x == 0xA0 || x == 0x1680 || (0x2000 <= x
        && x <= 0x200A) || x == 0x2028 || x == 0x2029 || x == 0x202F || x == 0x205F || x == 0x3000
}

pub(crate) fn is_whitespace_char(c: char) -> (r: bool)
    ensures
        r == is_ws_char(c),
{
    let x = c as u32;
    (9 <= x && x <= 13) || x == 32 || x == 0x85 || x == 0xA0 || x == 0x1680 || (0x2000 <= x
        && x <= 0x200A) || x == 0x2028 || x == 0x2029 || x == 0x202F || x == 0x205F || x == 0x3000
}

/// The scalar value of a character with an ASCII upper-case letter folded to
/// its lower-case counterpart; the unit of case-insensitive comparison.
pub open spec fn lower_code(c: char) -> u32 {
    if 65 <= c as u32 && c as u32 <= 90 {
        (c as u32 + 32) as u32
    } else {
        c as u32
    }
}

pub(crate) fn lower_code_of(c: char) -> (r: u32)
    ensures
        r == lower_code(c),
{
    let x = c as u32;
    if 65 <= x && x <= 90 {
        x + 32
    } else {
        x
    }
}

pub open spec fn seq_has_suffix(s: Seq<char>, p: Seq<char>) -> bool {
    p.len() <= s.len() && s.subrange(s.len() - p.len(), s.len() as int) == p
}

/// The pattern `p` occurs at position `i` of `s`, compared case-insensitively.
pub open spec fn ci_match_at(s: Seq<char>, p: Seq<char>, i: int) -> bool {
    forall|j: int| 0 <= j < p.len() ==> lower_code(s[i + j]) == lower_code(p[j])
}

/// The pattern `p` occurs somewhere in `s`, compared case-insensitively.
pub open spec fn seq_contains_ci(s: Seq<char>, p: Seq<char>) -> bool {
    exists|i: int| 0 <= i && i + p.len() <= s.len() && ci_match_at(s, p, i)
}

pub open spec fn trim_start_spec(s: Seq<char>) -> Seq<char>
    decreases s.len(),
{
    if s.len() == 0 {
        s
    } else if is_ws_char(s[0]) {
        trim_start_spec(s.drop_first())
    } else {
        s
    }
}

pub open spec fn trim_end_spec(s: Seq<char>) -> Seq<char>
    decreases s.len(),
{
    if s.len() == 0 {
        s
    } else if is_ws_char(s[s.len() - 1]) {
        trim_end_spec(s.drop_last())
    } else {
        s
    }
}

/// What `str::trim` returns: the sequence with leading and trailing
/// whitespace removed.
pub open spec fn trim_spec(s: Seq<char>) -> Seq<char> {
    trim_end_spec(trim_start_spec(s))
}

/// `str::replace` semantics: every occurrence of `pat`, found left to right
/// without overlap, replaced by `rep`.
pub open spec fn replace_spec(s: Seq<char>, pat: Seq<char>, rep: Seq<char>) -> Seq<char>
    decreases s.len(),
{
    if s.len() == 0 {
        s
    } else if 0 < pat.len() <= s.len() && s.subrange(0, pat.len() as int) == pat {
        rep + replace_spec(s.skip(pat.len() as int), pat, rep)
    } else {
        seq![s[0]] + replace_spec(s.drop_first(), pat, rep)
    }
}

/// The characters of a string, in order, as a vector.
pub fn char_vec(s: &str) -> (v: Vec<char>)
    ensures
        v@ == s@,
{
    let n = s.unicode_len();
    let mut v: Vec<char> = Vec::new();
    let mut i: usize = 0;
    while i < n
        invariant
            i <= n,
            n == s@.len(),
            v@ == s@.subrange(0, i as int),
        decreases n - i,
    {
        let c = s.get_char(i);
        v.push(c);
        assert(v@ =~= s@.subrange(0, i as int + 1));
        i = i + 1;
    }
    assert(v@ =~= s@);
    v
}

/// Relies on `String::push`: appends exactly the one character.
#[verifier::external_body]
fn push_char(s: &mut String, c: char)
    ensures
        final(s)@ == old(s)@.push(c),
{
    s.push(c);
}

/// The string holding exactly the given characters.
pub fn string_from_chars(v: &Vec<char>) -> (s: String)
    ensures
        s@ == v@,
{
    let mut s = String::new();
    let mut i: usize = 0;
    while i < v.len()
        invariant
            i <= v@.len(),
            s@ == v@.subrange(0, i as int),
        decreases v@.len() - i,
    {
        push_char(&mut s, v[i]);
        assert(s@ =~= v@.subrange(0, i as int + 1));
        i = i + 1;
    }
    assert(s@ =~= v@);
    s
}

/// Appends all of `src` to `dst`.
pub(crate) fn extend_chars(dst: &mut Vec<char>, src: &Vec<char>)
    ensures
        final(dst)@ == old(dst)@ + src@,
{
    let ghost prior = dst@;
    let mut i: usize = 0;
    while i < src.len()
        invariant
            i <= src@.len(),
            dst@ == prior + src@.subrange(0, i as int),
        decreases src@.len() - i,
    {
        dst.push(src[i]);
        assert(dst@ =~= prior + src@.subrange(0, i as int + 1));
        i = i + 1;
    }
    assert(dst@ =~= prior + src@);
}

pub(crate) fn eq_chars(a: &Vec<char>, b: &Vec<char>) -> (r: bool)
    ensures
        r == (a@ == b@),
{
    if a.len() != b.len() {
        return false;
    }
    let mut i: usize = 0;
    while i < a.len()
        invariant
            i <= a@.len(),
            a@.len() == b@.len(),
            forall|j: int| 0 <= j < i ==> a@[j] == b@[j],
        decreases a@.len() - i,
    {
        if a[i] != b[i] {
            return false;
        }
        i = i + 1;
    }
    assert(a@ =~= b@);
    true
}

/// Whether `pat` occurs at position `i` of `s`, compared exactly.
pub(crate) fn pattern_at(s: &Vec<char>, pat: &Vec<char>, i: usize) -> (r: bool)
    requires
        i + pat@.len() <= s@.len(),
    ensures
        r == (s@.subrange(i as int, i + pat@.len()) == pat@),
{
    let slen = s.len();
    let mut j: usize = 0;
    while j < pat.len()
        invariant
            j <= pat@.len(),
            i + pat@.len() <= s@.len(),
            slen == s@.len(),
            forall|k: int| 0 <= k < j ==> s@[i + k] == pat@[k],
        decreases pat@.len() - j,
    {
        assert(i + j < s@.len());
        if s[i + j] != pat[j] {
            assert(s@.subrange(i as int, i + pat@.len())[j as int] != pat@[j as int]);
            return false;
        }
        j = j + 1;
    }
    assert(s@.subrange(i as int, i + pat@.len()) =~= pat@);
    true
}

/// `s` with every occurrence of `pat` replaced by `rep`, scanning left to
/// right without overlap, as `str::replace` does.
pub fn replace_chars(s: &Vec<char>, pat: &Vec<char>, rep: &Vec<char>) -> (r: Vec<char>)
    requires
        pat@.len() > 0,
    ensures
        r@ == replace_spec(s@, pat@, rep@),
{
    let mut out: Vec<char> = Vec::new();
    let mut i: usize = 0;
    assert(s@.skip(0) =~= s@);
    assert(Seq::<char>::empty() + replace_spec(s@, pat@, rep@) =~= replace_spec(s@, pat@, rep@));
    while i < s.len()
        invariant
            i <= s@.len(),
            replace_spec(s@, pat@, rep@) == out@ + replace_spec(s@.skip(i as int), pat@, rep@),
        decreases s@.len() - i,
    {
        if s.len() - i >= pat.len() && pattern_at(s, pat, i) {
            let ghost prior = out@;
            proof {
                let tail = s@.skip(i as int);
                assert(tail.subrange(0, pat@.len() as int) =~= s@.subrange(
                    i as int,
                    i + pat@.len(),
                ));
                assert(tail.skip(pat@.len() as int) =~= s@.skip(i + pat@.len()));
                assert(replace_spec(tail, pat@, rep@) == rep@ + replace_spec(
                    s@.skip(i + pat@.len()),
                    pat@,
                    rep@,
                ));
            }
            let mut j: usize = 0;
            while j < rep.len()
                invariant
                    j <= rep@.len(),
                    out@ == prior + rep@.subrange(0, j as int),
                decreases rep@.len() - j,
            {
                out.push(rep[j]);
                assert(out@ =~= prior + rep@.subrange(0, j as int + 1));
                j = j + 1;
            }
            assert(out@ =~= prior + rep@);
            assert((prior + rep@) + replace_spec(s@.skip(i + pat@.len()), pat@, rep@) =~= prior + (
            rep@ + replace_spec(s@.skip(i + pat@.len()), pat@, rep@)));
            i = i + pat.len();
        } else {
            let ghost prior = out@;
            proof {
                let tail = s@.skip(i as int);
                assert(tail[0] == s@[i as int]);
                assert(tail.drop_first() =~= s@.skip(i as int + 1));
                if pat@.len() <= tail.len() {
                    assert(tail.subrange(0, pat@.len() as int) =~= s@.subrange(
                        i as int,
                        i + pat@.len(),
                    ));
                }
                assert(replace_spec(tail, pat@, rep@) == seq![s@[i as int]] + replace_spec(
                    s@.skip(i as int + 1),
                    pat@,
                    rep@,
                ));
                assert((prior + seq![s@[i as int]]) + replace_spec(s@.skip(i as int + 1), pat@, rep@)
                    =~= prior + (seq![s@[i as int]] + replace_spec(
                    s@.skip(i as int + 1),
                    pat@,
                    rep@,
                )));
            }
            out.push(s[i]);
            assert(out@ =~= prior + seq![s@[i as int]]);
            i = i + 1;
        }
    }
    assert(s@.skip(i as int) =~= Seq::<char>::empty());
    assert(out@ + Seq::<char>::empty() =~= out@);
    out
}

/// Whether `p` is an exact suffix of `s`.
pub(crate) fn suffix_chars(s: &Vec<char>, p: &Vec<char>) -> (r: bool)
    ensures
        r == seq_has_suffix(s@, p@),
{
    if p.len() > s.len() {
        return false;
    }
    let start = s.len() - p.len();
    let mut j: usize = 0;
    while j < p.len()
        invariant
            j <= p@.len(),
            start == s@.len() - p@.len(),
            forall|k: int| 0 <= k < j ==> s@[start + k] == p@[k],
        decreases p@.len() - j,
    {
        if s[start + j] != p[j] {
            assert(s@.subrange(s@.len() - p@.len(), s@.len() as int)[j as int] != p@[j as int]);
            return false;
        }
        j = j + 1;
    }
    assert(s@.subrange(s@.len() - p@.len(), s@.len() as int) =~= p@);
    true
}

proof fn lemma_trim_start_skip(s: Seq<char>, k: int)
    requires
        0 <= k <= s.len(),
        forall|j: int| 0 <= j < k ==> is_ws_char(s[j]),
        k < s.len() ==> !is_ws_char(s[k]),
    ensures
        trim_start_spec(s) == s.skip(k),
    decreases k,
{
    if k == 0 {
        assert(s.skip(0) =~= s);
    } else {
        assert(is_ws_char(s[0]));
        lemma_trim_start_skip(s.drop_first(), k - 1);
        assert(s.drop_first().skip(k - 1) =~= s.skip(k));
    }
}

proof fn lemma_trim_end_take(s: Seq<char>, k: int)
    requires
        0 <= k <= s.len(),
        forall|j: int| k <= j < s.len() ==> is_ws_char(s[j]),
        k > 0 ==> !is_ws_char(s[k - 1]),
    ensures
        trim_end_spec(s) == s.take(k),
    decreases s.len(),
{
    if k == s.len() {
        assert(s.take(k) =~= s);
    } else {
        assert(is_ws_char(s[s.len() - 1]));
        lemma_trim_end_take(s.drop_last(), k);
        assert(s.drop_last().take(k) =~= s.take(k));
    }
}

/// The line with leading and trailing whitespace removed, as `str::trim`.
pub(crate) fn trim_chars(v: &Vec<char>) -> (r: Vec<char>)
    ensures
        r@ == trim_spec(v@),
{
    let n = v.len();
    let mut lo: usize = 0;
    while lo < n && is_whitespace_char(v[lo])
        invariant
            lo <= n,
            n == v@.len(),
            forall|j: int| 0 <= j < lo ==> is_ws_char(v@[j]),
        decreases n - lo,
    {
        lo = lo + 1;
    }
    proof {
        lemma_trim_start_skip(v@, lo as int);
    }
    if lo == n {
        proof {
            assert(v@.skip(lo as int) =~= Seq::<char>::empty());
        }
        let r: Vec<char> = Vec::new();
        assert(r@ =~= trim_spec(v@));
        return r;
    }
    let mut hi: usize = n;
    while hi > lo + 1 && is_whitespace_char(v[hi - 1])
        invariant
            lo < hi <= n,
            n == v@.len(),
            forall|j: int| hi <= j < n ==> is_ws_char(v@[j]),
        decreases hi,
    {
        hi = hi - 1;
    }
    proof {
        let tail = v@.skip(lo as int);
        assert(forall|j: int| hi - lo <= j < tail.len() ==> is_ws_char(tail[j]));
        assert(!is_ws_char(tail[hi - lo - 1]));
        lemma_trim_end_take(tail, hi - lo);
        assert(tail.take(hi - lo) =~= v@.subrange(lo as int, hi as int));
    }
    let mut r: Vec<char> = Vec::new();
    let mut i: usize = lo;
    while i < hi
        invariant
            lo <= i <= hi <= n,
            n == v@.len(),
            r@ == v@.subrange(lo as int, i as int),
        decreases hi - i,
    {
        r.push(v[i]);
        assert(r@ =~= v@.subrange(lo as int, i as int + 1));
        i = i + 1;
    }
    assert(r@ =~= v@.subrange(lo as int, hi as int));
    r
}

/// The views of a sequence of strings.
pub open spec fn views_of(v: Seq<String>) -> Seq<Seq<char>> {
    v.map_values(|s: String| s@)
}

/// The position of the first newline in `s`, or `s.len()` if there is none.
pub open spec fn nl_index(s: Seq<char>) -> int
    decreases s.len(),
{
    if s.len() == 0 {
        0
    } else if s[0] == '\n' {
        0
    } else {
        1 + nl_index(s.drop_first())
    }
}

/// One line with a single trailing carriage return removed, as `str::lines`
/// treats the end of each line.
pub open spec fn strip_cr_spec(l: Seq<char>) -> Seq<char> {
    if l.len() > 0 && l[l.len() - 1] == '\r' {
        l.drop_last()
    } else {
        l
    }
}

/// What `str::lines` yields: the text split at newlines, each piece with one
/// trailing carriage return removed, and no empty final piece.
pub open spec fn split_lines_spec(s: Seq<char>) -> Seq<Seq<char>>
    decreases s.len(),
{
    if s.len() == 0 {
        Seq::empty()
    } else {
        let i = nl_index(s);
        if 0 <= i < s.len() {
            seq![strip_cr_spec(s.subrange(0, i))] + split_lines_spec(s.skip(i + 1))
        } else {
            seq![strip_cr_spec(s)]
        }
    }
}

proof fn lemma_nl_index(s: Seq<char>, k: int)
    requires
        0 <= k <= s.len(),
        forall|j: int| 0 <= j < k ==> s[j] != '\n',
        k < s.len() ==> s[k] == '\n',
    ensures
        nl_index(s) == k,
    decreases k,
{
    if k == 0 {
        if s.len() > 0 && s[0] != '\n' {
            assert(k < s.len());
        }
    } else {
        lemma_nl_index(s.drop_first(), k - 1);
    }
}

/// Splits rendered text into its lines, as `str::lines` does.
pub fn split_lines(s: &str) -> (r: Vec<String>)
    ensures
        views_of(r@) == split_lines_spec(s@),
{
    let v = char_vec(s);
    let n = v.len();
    let mut out: Vec<String> = Vec::new();
    let mut p: usize = 0;
    assert(s@.skip(0) =~= s@);
    assert(Seq::<Seq<char>>::empty() + split_lines_spec(s@) =~= split_lines_spec(s@));
    while p < n
        invariant
            p <= n,
            n == v@.len(),
            v@ == s@,
            split_lines_spec(s@) == views_of(out@) + split_lines_spec(s@.skip(p as int)),
        decreases n - p,
    {
        let ghost prior = out@;
        let ghost tail = s@.skip(p as int);
        let mut j: usize = p;
        while j < n && v[j] != '\n'
            invariant
                p <= j <= n,
                forall|k: int| p <= k < j ==> v@[k] != '\n',
            decreases n - j,
        {
            j = j + 1;
        }
        proof {
            assert(forall|k: int| 0 <= k < j - p ==> tail[k] != '\n');
            lemma_nl_index(tail, j - p);
        }
        let end: usize = if j > p && v[j - 1] == '\r' {
            j - 1
        } else {
            j
        };
        let mut lc: Vec<char> = Vec::new();
        let mut i: usize = p;
        while i < end
            invariant
                p <= i <= end <= n,
                n == v@.len(),
                lc@ == v@.subrange(p as int, i as int),
            decreases end - i,
        {
            lc.push(v[i]);
            assert(lc@ =~= v@.subrange(p as int, i as int + 1));
            i = i + 1;
        }
        proof {
            assert(lc@ =~= v@.subrange(p as int, end as int));
            assert(tail.subrange(0, j - p) =~= v@.subrange(p as int, j as int));
            assert(strip_cr_spec(tail.subrange(0, j - p)) =~= v@.subrange(p as int, end as int));
        }
        let line = string_from_chars(&lc);
        out.push(line);
        proof {
            assert(views_of(out@) =~= views_of(prior) + seq![v@.subrange(p as int, end as int)]);
            if j < n {
                assert(tail.skip(j - p + 1) =~= s@.skip(j as int + 1));
                assert(split_lines_spec(tail) == seq![strip_cr_spec(tail.subrange(0, j - p))]
                    + split_lines_spec(s@.skip(j as int + 1)));
                assert((views_of(prior) + seq![v@.subrange(p as int, end as int)])
                    + split_lines_spec(s@.skip(j as int + 1)) =~= views_of(prior) + (seq![
                    strip_cr_spec(tail.subrange(0, j - p)),
                ] + split_lines_spec(s@.skip(j as int + 1))));
            } else {
                assert(nl_index(tail) == tail.len());
                assert(tail.subrange(0, j - p) =~= tail);
                assert(split_lines_spec(tail) == seq![strip_cr_spec(tail)]);
                assert(s@.skip(n as int) =~= Seq::<char>::empty());
                assert((views_of(prior) + seq![v@.subrange(p as int, end as int)])
                    + split_lines_spec(s@.skip(n as int)) =~= views_of(prior) + seq![
                    strip_cr_spec(tail),
                ]);
            }
        }
        if j < n {
            p = j + 1;
        } else {
            p = n;
        }
    }
    assert(s@.skip(n as int) =~= Seq::<char>::empty());
    assert(views_of(out@) + Seq::<Seq<char>>::empty() =~= views_of(out@));
    out
}

/// The pattern `p` occurs somewhere in `s`, compared exactly.
pub open spec fn seq_contains_seq(s: Seq<char>, p: Seq<char>) -> bool {
    exists|i: int| 0 <= i && i + p.len() <= s.len() && #[trigger] s.subrange(i, i + p.len()) == p
}

/// Whether `needle` occurs anywhere in `hay`, compared exactly.
pub(crate) fn contains_chars(hay: &Vec<char>, needle: &Vec<char>) -> (r: bool)
    ensures
        r == seq_contains_seq(hay@, needle@),
{
    if needle.len() > hay.len() {
        return false;
    }
    if needle.len() == 0 {
        assert(hay@.subrange(0, 0 + needle@.len() as int) =~= needle@);
        return true;
    }
    let mut i: usize = 0;
    while i <= hay.len() - needle.len()
        invariant
            0 < needle@.len() <= hay@.len(),
            i <= hay@.len() - needle@.len() + 1,
            forall|k: int|
                0 <= k < i ==> #[trigger] hay@.subrange(k, k + needle@.len()) != needle@,
        decreases hay@.len() - needle@.len() - i + 1,
    {
        if pattern_at(hay, needle, i) {
            return true;
        }
        i = i + 1;
    }
    false
}

/// Whether `needle` occurs anywhere in `hay`, compared case-insensitively.
pub(crate) fn contains_ci_chars(hay: &Vec<char>, needle: &Vec<char>) -> (r: bool)
    ensures
        r == seq_contains_ci(hay@, needle@),
{
    if needle.len() > hay.len() {
        return false;
    }
    let mut i: usize = 0;
    while i <= hay.len() - needle.len()
        invariant
            needle@.len() <= hay@.len(),
            i <= hay@.len() - needle@.len() + 1,
            forall|k: int| 0 <= k < i ==> !ci_match_at(hay@, needle@, k),
        decreases hay@.len() - needle@.len() - i + 1,
    {
        let mut j: usize = 0;
        let mut ok = true;
        while j < needle.len()
            invariant
                j <= needle@.len(),
                i + needle@.len() <= hay@.len(),
                ok ==> forall|k: int| 0 <= k < j ==> lower_code(hay@[i + k]) == lower_code(
                    needle@[k],
                ),
                !ok ==> !ci_match_at(hay@, needle@, i as int),
            decreases needle@.len() - j,
        {
            if lower_code_of(hay[i + j]) != lower_code_of(needle[j]) {
                ok = false;
                assert(!ci_match_at(hay@, needle@, i as int));
                j = needle.len();
            } else {
                j = j + 1;
            }
        }
        if ok {
            assert(ci_match_at(hay@, needle@, i as int));
            return true;
        }
        i = i + 1;
    }
    false
}

} // verus!
