//! Laws relating the pipeline's pieces, proved once for all inputs.

use vstd::prelude::*;

use crate::catalog::{arcanum_spec, book_matches_spec};
use crate::chapter::{digits_of, pretty_chapter_spec, seq_eq_ci, seq_prefix_ci, trim_zeros};
use crate::cleaner::is_border_spec;
use crate::text::{lower_code, seq_contains_seq};
use crate::window::{page_records_spec, records_from, strip_em_spec, window_record_spec};

verus! {

/// A line is a scene border exactly when it equals one of the three sentinel
/// strings; any other line, whatever it contains, is not.
pub proof fn lemma_scene_border_sentinels(line: Seq<char>)
    ensures
        is_border_spec(line) <==> (line == "* * *"@ || line == "~"@ || line
            == "795f88d2-e400-42f0-bb88-d84cf308de1b"@),
{
}

/// An identifier with the case-insensitive prefix `chapter` is labeled
/// `Chapter {n}`: its embedded ASCII digits with leading zeros dropped. This
/// holds for every book except the title-suppressed one, whose labels are
/// empty by design.
pub proof fn lemma_chapter_prefix_label(book_title: Seq<char>, raw: Seq<char>)
    requires
        !seq_eq_ci(book_title, "The Hope of Elantris"@),
        seq_prefix_ci(raw, "chapter"@),
    ensures
        pretty_chapter_spec(book_title, raw) == "Chapter "@ + trim_zeros(digits_of(raw)),
{
    reveal_strlit("chapter");
    reveal_strlit("prologue");
    reveal_strlit("epilogue");
    assert(("chapter"@)[0] == 'c');
    assert(lower_code(raw[0int + 0int]) == lower_code(("chapter"@)[0]));
    if seq_eq_ci(raw, "prologue"@) {
        assert(("prologue"@)[0] == 'p');
        assert(lower_code(raw[0int + 0int]) == lower_code(("prologue"@)[0]));
        assert(false);
    }
    if seq_eq_ci(raw, "epilogue"@) {
        assert(("epilogue"@)[0] == 'e');
        assert(lower_code(raw[0int + 0int]) == lower_code(("epilogue"@)[0]));
        assert(false);
    }
}

/// An identifier that is `prologue` up to ASCII case is labeled `Prologue`,
/// for every book except the title-suppressed one.
pub proof fn lemma_prologue_label(book_title: Seq<char>, raw: Seq<char>)
    requires
        !seq_eq_ci(book_title, "The Hope of Elantris"@),
        seq_eq_ci(raw, "prologue"@),
    ensures
        pretty_chapter_spec(book_title, raw) == "Prologue"@,
{
}

/// An identifier that is `epilogue` up to ASCII case is labeled `Epilogue`,
/// for every book except the title-suppressed one.
pub proof fn lemma_epilogue_label(book_title: Seq<char>, raw: Seq<char>)
    requires
        !seq_eq_ci(book_title, "The Hope of Elantris"@),
        seq_eq_ci(raw, "epilogue"@),
    ensures
        pretty_chapter_spec(book_title, raw) == "Epilogue"@,
{
    reveal_strlit("prologue");
    reveal_strlit("epilogue");
    if seq_eq_ci(raw, "prologue"@) {
        assert(("prologue"@)[0] == 'p');
        assert(lower_code(raw[0int + 0int]) == lower_code(("prologue"@)[0]));
        assert(("epilogue"@)[0] == 'e');
        assert(lower_code(raw[0int + 0int]) == lower_code(("epilogue"@)[0]));
        assert(false);
    }
}

/// A declared title that names the anthology matches the descriptor of every
/// piece collected in it.
pub proof fn lemma_anthology_matches(epub_title: Seq<char>, book_title: Seq<char>)
    requires
        seq_contains_seq(epub_title, "Arcanum Unbounded"@),
        arcanum_spec(book_title),
    ensures
        book_matches_spec(epub_title, book_title),
{
}

/// The emphasis-stripped interior non-border lines from index `i` on: what a
/// page's searchable texts must amount to.
pub open spec fn interior_searchables(lines: Seq<Seq<char>>, i: int) -> Seq<Seq<char>>
    decreases lines.len() - i,
{
    if i < 1 || i + 1 >= lines.len() {
        Seq::empty()
    } else {
        let rest = interior_searchables(lines, i + 1);
        if is_border_spec(lines[i]) {
            rest
        } else {
            seq![strip_em_spec(lines[i])] + rest
        }
    }
}

proof fn lemma_searchable_from(book: Seq<char>, chapter: Seq<char>, lines: Seq<Seq<char>>, i: int)
    ensures
        records_from(book, chapter, lines, i).len() == interior_searchables(lines, i).len(),
        forall|k: int|
            0 <= k < records_from(book, chapter, lines, i).len() ==> #[trigger] records_from(
                book,
                chapter,
                lines,
                i,
            )[k].searchable_text == interior_searchables(lines, i)[k],
    decreases lines.len() - i,
{
    if i < 1 || i + 1 >= lines.len() {
    } else {
        lemma_searchable_from(book, chapter, lines, i + 1);
        let rf = records_from(book, chapter, lines, i);
        let se = interior_searchables(lines, i);
        let rf1 = records_from(book, chapter, lines, i + 1);
        let is1 = interior_searchables(lines, i + 1);
        if !is_border_spec(lines[i]) {
            let w = window_record_spec(book, chapter, lines[i - 1], lines[i], lines[i + 1]);
            assert(rf == seq![w] + rf1);
            assert(se == seq![strip_em_spec(lines[i])] + is1);
            assert forall|k: int| 0 <= k < rf.len() implies #[trigger] rf[k].searchable_text
                == se[k] by {
                if k == 0 {
                    assert(rf[0] == w);
                    assert(se[0] == strip_em_spec(lines[i]));
                } else {
                    assert(rf[k] == rf1[k - 1]);
                    assert(se[k] == is1[k - 1]);
                }
            }
        }
    }
}

/// Round trip from cleaned lines to the output stream: a page's records carry
/// as searchable text exactly the page's interior non-border cleaned lines,
/// in order, each with its emphasis markers removed — no line lost, none
/// duplicated.
pub proof fn lemma_searchable_round_trip(book: Seq<char>, chapter: Seq<char>, lines: Seq<Seq<char>>)
    ensures
        page_records_spec(book, chapter, lines).len() == interior_searchables(lines, 1).len(),
        forall|k: int|
            0 <= k < page_records_spec(book, chapter, lines).len() ==> #[trigger] page_records_spec(
                book,
                chapter,
                lines,
            )[k].searchable_text == interior_searchables(lines, 1)[k],
{
    lemma_searchable_from(book, chapter, lines, 1);
}

} // verus!
