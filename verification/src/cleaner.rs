//! Line classification and normalization: which rendered lines are structural
//! noise, which are scene borders, and how punctuation artifacts are cleaned
//! before windowing.

use vstd::prelude::*;

use crate::text::{
    char_vec, eq_chars, replace_chars, replace_spec, seq_has_suffix, string_from_chars,
    suffix_chars, trim_chars, trim_spec, views_of,
};

verus! {

/// The `alt` text given to every image tag before rendering; an image-only
/// scene divider then surfaces as a line holding exactly this sentinel.
pub fn image_alt_sentinel() -> (r: &'static str)
    ensures
        r@ == "795f88d2-e400-42f0-bb88-d84cf308de1b"@,
{
    "795f88d2-e400-42f0-bb88-d84cf308de1b"
}

/// A line that is structural noise: blank, a leaked markdown header, or a
/// box-drawing separator artifact.
pub open spec fn is_ignorable_spec(line: Seq<char>) -> bool {
    let t = trim_spec(line);
    t.len() == 0 || t[0] == '#' || t[0] == '│' || (t.len() >= 2 && t[0] == '─' && (t[1] == '┴'
        || t[1] == '┬'))
}

pub fn is_ignorable_line(line: &str) -> (r: bool)
    ensures
        r == is_ignorable_spec(line@),
{
    let v = char_vec(line);
    let t = trim_chars(&v);
    if t.len() == 0 {
        return true;
    }
    let c0 = t[0];
    if c0 == '#' || c0 == '│' {
        return true;
    }
    t.len() >= 2 && c0 == '─' && (t[1] == '┴' || t[1] == '┬')
}

/// A line that marks a scene break: exactly one of the sentinel strings.
pub open spec fn is_border_spec(line: Seq<char>) -> bool {
    line == "* * *"@ || line == "~"@ || line == "795f88d2-e400-42f0-bb88-d84cf308de1b"@
}

pub fn is_scene_border(line: &str) -> (r: bool)
    ensures
        r == is_border_spec(line@),
{
    let v = char_vec(line);
    let stars = char_vec("* * *");
    let tilde = char_vec("~");
    let sentinel = char_vec(image_alt_sentinel());
    eq_chars(&v, &stars) || eq_chars(&v, &tilde) || eq_chars(&v, &sentinel)
}

/// A surviving line after punctuation cleanup: residual bold markers dropped,
/// spelled-out and space-prefixed ellipses collapsed to the ellipsis character.
pub open spec fn normalize_spec(line: Seq<char>) -> Seq<char> {
    replace_spec(
        replace_spec(replace_spec(line, "**"@, Seq::empty()), ". . ."@, "…"@),
        " …"@,
        "…"@,
    )
}

pub fn normalize_line(line: &str) -> (r: String)
    ensures
        r@ == normalize_spec(line@),
{
    proof {
        reveal_strlit("**");
        reveal_strlit(". . .");
        reveal_strlit(" …");
    }
    let v = char_vec(line);
    let empty: Vec<char> = Vec::new();
    let stars = char_vec("**");
    let dots = char_vec(". . .");
    let spaced = char_vec(" …");
    let ellipsis = char_vec("…");
    let step1 = replace_chars(&v, &stars, &empty);
    let step2 = replace_chars(&step1, &dots, &ellipsis);
    let step3 = replace_chars(&step2, &spaced, &ellipsis);
    string_from_chars(&step3)
}

/// A cleaned line survives when it is not noise and does not duplicate the
/// tail of the chapter's own identifier.
pub open spec fn keep_spec(line: Seq<char>, chapter_title: Seq<char>) -> bool {
    !is_ignorable_spec(line) && !seq_has_suffix(chapter_title, line)
}

/// The Cleaned Line Sequence: surviving lines, in order, normalized.
pub open spec fn clean_spec(lines: Seq<Seq<char>>, chapter_title: Seq<char>) -> Seq<Seq<char>>
    decreases lines.len(),
{
    if lines.len() == 0 {
        Seq::empty()
    } else {
        let rest = clean_spec(lines.drop_first(), chapter_title);
        if keep_spec(lines[0], chapter_title) {
            seq![normalize_spec(lines[0])] + rest
        } else {
            rest
        }
    }
}

/// Filters and normalizes one rendered page's lines.
pub fn clean_lines(lines: &Vec<String>, chapter_title: &str) -> (r: Vec<String>)
    ensures
        views_of(r@) == clean_spec(views_of(lines@), chapter_title@),
{
    let title_chars = char_vec(chapter_title);
    let mut out: Vec<String> = Vec::new();
    let mut k: usize = 0;
    assert(views_of(lines@).skip(0) =~= views_of(lines@));
    assert(Seq::<Seq<char>>::empty() + clean_spec(views_of(lines@), chapter_title@) =~= clean_spec(
        views_of(lines@),
        chapter_title@,
    ));
    while k < lines.len()
        invariant
            k <= lines@.len(),
            title_chars@ == chapter_title@,
            clean_spec(views_of(lines@), chapter_title@) == views_of(out@) + clean_spec(
                views_of(lines@).skip(k as int),
                chapter_title@,
            ),
        decreases lines@.len() - k,
    {
        let ghost prior = out@;
        let ghost tail = views_of(lines@).skip(k as int);
        proof {
            assert(tail[0] == lines@[k as int]@);
            assert(tail.drop_first() =~= views_of(lines@).skip(k as int + 1));
        }
        let line: &String = &lines[k];
        let line_chars = char_vec(line.as_str());
        let ignorable = is_ignorable_line(line.as_str());
        let dup_title = suffix_chars(&title_chars, &line_chars);
        if !ignorable && !dup_title {
            let cleaned = normalize_line(line.as_str());
            out.push(cleaned);
            proof {
                assert(views_of(out@) =~= views_of(prior).push(normalize_spec(tail[0])));
                assert(views_of(prior).push(normalize_spec(tail[0])) =~= views_of(prior) + seq![
                    normalize_spec(tail[0]),
                ]);
                assert((views_of(prior) + seq![normalize_spec(tail[0])]) + clean_spec(
                    tail.drop_first(),
                    chapter_title@,
                ) =~= views_of(prior) + (seq![normalize_spec(tail[0])] + clean_spec(
                    tail.drop_first(),
                    chapter_title@,
                )));
            }
        }
        k = k + 1;
    }
    assert(views_of(lines@).skip(lines@.len() as int) =~= Seq::<Seq<char>>::empty());
    assert(views_of(out@) + Seq::<Seq<char>>::empty() =~= views_of(out@));
    out
}

} // verus!
