//! The fixed literal substitutions applied to a page's raw markup before
//! rendering: italic tags normalized to the emphasis pair, a sentinel `alt`
//! attribute inserted into every image tag so image-only scene dividers
//! surface as text, and two book-specific duplicated fragments deleted.

use vstd::prelude::*;

use crate::text::{char_vec, replace_chars, replace_spec, string_from_chars};

verus! {

/// What the preprocessor returns: the markup after the five substitutions,
/// applied in order.
pub open spec fn preprocess_spec(s: Seq<char>) -> Seq<char> {
    let s1 = replace_spec(s, "<i>"@, "<em>"@);
    let s2 = replace_spec(s1, "</i>"@, "</em>"@);
    let s3 = replace_spec(s2, "<img"@, "<img alt=\"795f88d2-e400-42f0-bb88-d84cf308de1b\""@);
    let s4 = replace_spec(
        s3,
        "<p class=\"Part-Title-pt\"><a href=\"contents.xhtml#c_pt3\"><span class=\"ePub-SC\">THE</span><br/>HOPE<br/><span class=\"ePub-SC\">OF</span><br/>ELANTRIS</a></p>"@,
        Seq::empty(),
    );
    replace_spec(
        s4,
        "<p class=\"Design-Note-dn\"><span class=\"R1\">This story takes place after and contains major spoilers for</span> <span class=\"ePub-I\">Elantris.</span></p>"@,
        Seq::empty(),
    )
}

/// Applies the pre-render substitutions to one page's decoded markup.
pub fn preprocess_markup(page: &str) -> (r: String)
    ensures
        r@ == preprocess_spec(page@),
{
    proof {
        reveal_strlit("<i>");
        reveal_strlit("</i>");
        reveal_strlit("<img");
        reveal_strlit(
            "<p class=\"Part-Title-pt\"><a href=\"contents.xhtml#c_pt3\"><span class=\"ePub-SC\">THE</span><br/>HOPE<br/><span class=\"ePub-SC\">OF</span><br/>ELANTRIS</a></p>",
        );
        reveal_strlit(
            "<p class=\"Design-Note-dn\"><span class=\"R1\">This story takes place after and contains major spoilers for</span> <span class=\"ePub-I\">Elantris.</span></p>",
        );
    }
    let v = char_vec(page);
    let empty: Vec<char> = Vec::new();
    let s1 = replace_chars(&v, &char_vec("<i>"), &char_vec("<em>"));
    let s2 = replace_chars(&s1, &char_vec("</i>"), &char_vec("</em>"));
    let s3 = replace_chars(
        &s2,
        &char_vec("<img"),
        &char_vec("<img alt=\"795f88d2-e400-42f0-bb88-d84cf308de1b\""),
    );
    let s4 = replace_chars(
        &s3,
        &char_vec(
            "<p class=\"Part-Title-pt\"><a href=\"contents.xhtml#c_pt3\"><span class=\"ePub-SC\">THE</span><br/>HOPE<br/><span class=\"ePub-SC\">OF</span><br/>ELANTRIS</a></p>",
        ),
        &empty,
    );
    let s5 = replace_chars(
        &s4,
        &char_vec(
            "<p class=\"Design-Note-dn\"><span class=\"R1\">This story takes place after and contains major spoilers for</span> <span class=\"ePub-I\">Elantris.</span></p>",
        ),
        &empty,
    );
    string_from_chars(&s5)
}

} // verus!
