//! Chapter-title normalization: maps a raw page identifier (usually a source
//! filename from the archive's spine) to a human-readable chapter label.

use vstd::prelude::*;

use crate::text::{
    char_vec, ci_match_at, eq_chars, extend_chars, lower_code, lower_code_of, seq_has_suffix,
    string_from_chars, suffix_chars,
};

verus! {

/// Case-insensitive equality of two character sequences.
pub open spec fn seq_eq_ci(a: Seq<char>, b: Seq<char>) -> bool {
    a.len() == b.len() && ci_match_at(a, b, 0)
}

/// Case-insensitive prefix test.
pub open spec fn seq_prefix_ci(s: Seq<char>, p: Seq<char>) -> bool {
    p.len() <= s.len() && ci_match_at(s, p, 0)
}

pub open spec fn is_digit_char(c: char) -> bool {
    48 <= c as u32 <= 57
}

/// The ASCII digits of `s`, in order.
pub open spec fn digits_of(s: Seq<char>) -> Seq<char>
    decreases s.len(),
{
    if s.len() == 0 {
        Seq::empty()
    } else if is_digit_char(s[0]) {
        seq![s[0]] + digits_of(s.drop_first())
    } else {
        digits_of(s.drop_first())
    }
}

/// `s` without its leading zero characters.
pub open spec fn trim_zeros(s: Seq<char>) -> Seq<char>
    decreases s.len(),
{
    if s.len() > 0 && s[0] == '0' {
        trim_zeros(s.drop_first())
    } else {
        s
    }
}

/// The label for a two-part positional identifier `x<part>_<chapter>…`:
/// character 1 is the part number, character 3 the chapter number.
pub open spec fn secret_history_spec(raw: Seq<char>) -> Seq<char> {
    "Part "@ + seq![raw[1]] + ", Chapter "@ + seq![raw[3]]
}

/// The fixed per-identifier lookup for day-numbered chapters, with the
/// identifier itself as the fallback label.
pub open spec fn map_by_hand_spec(raw: Seq<char>) -> Seq<char> {
    if raw == "Prologue.html"@ {
        "Prologue"@
    } else if raw == "Day_02.html"@ {
        "Day Two"@
    } else if raw == "Day_03.html"@ {
        "Day Three"@
    } else if raw == "Day_05.html"@ {
        "Day Five"@
    } else if raw == "Day_12.html"@ {
        "Day Twelve"@
    } else if raw == "Day_17.html"@ {
        "Day Seventeen"@
    } else if raw == "Day_30.html"@ {
        "Day Thirty"@
    } else if raw == "Day_42.html"@ {
        "Day Forty-Two"@
    } else if raw == "Day_58.html"@ {
        "Day Fifty-Eight"@
    } else if raw == "Day_59.html"@ {
        "Day Fifty-Nine"@
    } else if raw == "Day_70.html"@ {
        "Day Seventy"@
    } else if raw == "Day_76.html"@ {
        "Day Seventy-Six"@
    } else if raw == "Day_85.html"@ {
        "Day Eighty-Five"@
    } else if raw == "Day_97.html"@ {
        "Day Ninety-Seven"@
    } else if raw == "Day_98.html"@ {
        "Day Ninety-Eight"@
    } else if raw == "Epilogue.html"@ {
        "Epilogue: Day One Hundred and One"@
    } else {
        raw
    }
}

/// The normalized chapter label, evaluated in the fixed precedence: the
/// title-suppressed book, prologue/epilogue keywords, a `chapter` prefix with
/// embedded digits, the positional two-part scheme, then the hand lookup.
pub open spec fn pretty_chapter_spec(book_title: Seq<char>, raw: Seq<char>) -> Seq<char> {
    if seq_eq_ci(book_title, "The Hope of Elantris"@) {
        Seq::empty()
    } else if seq_eq_ci(raw, "prologue"@) {
        "Prologue"@
    } else if seq_eq_ci(raw, "epilogue"@) {
        "Epilogue"@
    } else if seq_prefix_ci(raw, "chapter"@) {
        "Chapter "@ + trim_zeros(digits_of(raw))
    } else if raw.len() > 0 && raw[0] == 'x' && seq_has_suffix(raw, ".html"@) {
        secret_history_spec(raw)
    } else {
        map_by_hand_spec(raw)
    }
}

fn eq_ci_chars(a: &Vec<char>, b: &Vec<char>) -> (r: bool)
    ensures
        r == seq_eq_ci(a@, b@),
{
    if a.len() != b.len() {
        return false;
    }
    let mut i: usize = 0;
    while i < a.len()
        invariant
            i <= a@.len(),
            a@.len() == b@.len(),
            forall|j: int| 0 <= j < i ==> lower_code(a@[j]) == lower_code(b@[j]),
        decreases a@.len() - i,
    {
        if lower_code_of(a[i]) != lower_code_of(b[i]) {
            return false;
        }
        i = i + 1;
    }
    true
}

fn prefix_ci_chars(s: &Vec<char>, p: &Vec<char>) -> (r: bool)
    ensures
        r == seq_prefix_ci(s@, p@),
{
    if p.len() > s.len() {
        return false;
    }
    let mut i: usize = 0;
    while i < p.len()
        invariant
            i <= p@.len(),
            p@.len() <= s@.len(),
            forall|j: int| 0 <= j < i ==> lower_code(s@[j]) == lower_code(p@[j]),
        decreases p@.len() - i,
    {
        if lower_code_of(s[i]) != lower_code_of(p[i]) {
            return false;
        }
        i = i + 1;
    }
    true
}

fn digit_chars(v: &Vec<char>) -> (r: Vec<char>)
    ensures
        r@ == digits_of(v@),
{
    let mut out: Vec<char> = Vec::new();
    let mut i: usize = 0;
    assert(v@.skip(0) =~= v@);
    assert(Seq::<char>::empty() + digits_of(v@) =~= digits_of(v@));
    while i < v.len()
        invariant
            i <= v@.len(),
            digits_of(v@) == out@ + digits_of(v@.skip(i as int)),
        decreases v@.len() - i,
    {
        let ghost prior = out@;
        let ghost tail = v@.skip(i as int);
        proof {
            assert(tail[0] == v@[i as int]);
            assert(tail.drop_first() =~= v@.skip(i as int + 1));
        }
        let c = v[i];
        let x = c as u32;
        if 48 <= x && x <= 57 {
            out.push(c);
            assert(out@ =~= prior + seq![v@[i as int]]);
            assert((prior + seq![v@[i as int]]) + digits_of(v@.skip(i as int + 1)) =~= prior + (
            seq![v@[i as int]] + digits_of(v@.skip(i as int + 1))));
        }
        i = i + 1;
    }
    assert(v@.skip(v@.len() as int) =~= Seq::<char>::empty());
    assert(out@ + Seq::<char>::empty() =~= out@);
    out
}

proof fn lemma_trim_zeros_skip(s: Seq<char>, k: int)
    requires
        0 <= k <= s.len(),
        forall|j: int| 0 <= j < k ==> s[j] == '0',
        k < s.len() ==> s[k] != '0',
    ensures
        trim_zeros(s) == s.skip(k),
    decreases k,
{
    if k == 0 {
        assert(s.skip(0) =~= s);
    } else {
        lemma_trim_zeros_skip(s.drop_first(), k - 1);
        assert(s.drop_first().skip(k - 1) =~= s.skip(k));
    }
}

fn trim_zero_chars(v: &Vec<char>) -> (r: Vec<char>)
    ensures
        r@ == trim_zeros(v@),
{
    let n = v.len();
    let mut k: usize = 0;
    while k < n && v[k] == '0'
        invariant
            k <= n,
            n == v@.len(),
            forall|j: int| 0 <= j < k ==> v@[j] == '0',
        decreases n - k,
    {
        k = k + 1;
    }
    proof {
        lemma_trim_zeros_skip(v@, k as int);
    }
    let mut out: Vec<char> = Vec::new();
    let mut i: usize = k;
    while i < n
        invariant
            k <= i <= n,
            n == v@.len(),
            out@ == v@.subrange(k as int, i as int),
        decreases n - i,
    {
        out.push(v[i]);
        assert(out@ =~= v@.subrange(k as int, i as int + 1));
        i = i + 1;
    }
    assert(out@ =~= v@.skip(k as int));
    out
}

/// The label for the positional two-part naming scheme; the identifier must
/// be long enough to carry the part and chapter characters.
pub fn handle_secret_history_chapter(raw_chapter: &str) -> (r: String)
    requires
        raw_chapter@.len() >= 4,
    ensures
        r@ == secret_history_spec(raw_chapter@),
{
    let part = raw_chapter.get_char(1);
    let chap = raw_chapter.get_char(3);
    let mut out = char_vec("Part ");
    out.push(part);
    let mid = char_vec(", Chapter ");
    extend_chars(&mut out, &mid);
    out.push(chap);
    proof {
        assert(out@ =~= ("Part "@ + seq![raw_chapter@[1]] + ", Chapter "@ + seq![
            raw_chapter@[3],
        ]));
    }
    string_from_chars(&out)
}

/// The fixed per-identifier lookup table, with the identifier itself as the
/// fallback label.
pub fn map_by_hand<'a>(raw_chapter: &'a str) -> (r: &'a str)
    ensures
        r@ == map_by_hand_spec(raw_chapter@),
{
    let v = char_vec(raw_chapter);
    if eq_chars(&v, &char_vec("Prologue.html")) {
        "Prologue"
    } else if eq_chars(&v, &char_vec("Day_02.html")) {
        "Day Two"
    } else if eq_chars(&v, &char_vec("Day_03.html")) {
        "Day Three"
    } else if eq_chars(&v, &char_vec("Day_05.html")) {
        "Day Five"
    } else if eq_chars(&v, &char_vec("Day_12.html")) {
        "Day Twelve"
    } else if eq_chars(&v, &char_vec("Day_17.html")) {
        "Day Seventeen"
    } else if eq_chars(&v, &char_vec("Day_30.html")) {
        "Day Thirty"
    } else if eq_chars(&v, &char_vec("Day_42.html")) {
        "Day Forty-Two"
    } else if eq_chars(&v, &char_vec("Day_58.html")) {
        "Day Fifty-Eight"
    } else if eq_chars(&v, &char_vec("Day_59.html")) {
        "Day Fifty-Nine"
    } else if eq_chars(&v, &char_vec("Day_70.html")) {
        "Day Seventy"
    } else if eq_chars(&v, &char_vec("Day_76.html")) {
        "Day Seventy-Six"
    } else if eq_chars(&v, &char_vec("Day_85.html")) {
        "Day Eighty-Five"
    } else if eq_chars(&v, &char_vec("Day_97.html")) {
        "Day Ninety-Seven"
    } else if eq_chars(&v, &char_vec("Day_98.html")) {
        "Day Ninety-Eight"
    } else if eq_chars(&v, &char_vec("Epilogue.html")) {
        "Epilogue: Day One Hundred and One"
    } else {
        raw_chapter
    }
}

/// Maps a raw page identifier to its display label for the given book.
pub fn pretty_chapter(book_title: &str, raw_chapter: &str) -> (r: String)
    ensures
        r@ == pretty_chapter_spec(book_title@, raw_chapter@),
{
    let bt = char_vec(book_title);
    let raw = char_vec(raw_chapter);
    if eq_ci_chars(&bt, &char_vec("The Hope of Elantris")) {
        String::new()
    } else if eq_ci_chars(&raw, &char_vec("prologue")) {
        "Prologue".to_owned()
    } else if eq_ci_chars(&raw, &char_vec("epilogue")) {
        "Epilogue".to_owned()
    } else if prefix_ci_chars(&raw, &char_vec("chapter")) {
        let digits = digit_chars(&raw);
        let num = trim_zero_chars(&digits);
        let mut label = char_vec("Chapter ");
        extend_chars(&mut label, &num);
        string_from_chars(&label)
    } else if raw.len() > 0 && suffix_chars(&raw, &char_vec(".html")) && raw[0] == 'x' {
        proof {
            reveal_strlit(".html");
        }
        handle_secret_history_chapter(raw_chapter)
    } else {
        map_by_hand(raw_chapter).to_owned()
    }
}

} // verus!
