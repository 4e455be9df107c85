//! The context-window assembler: slides a three-line window over a page's
//! cleaned lines and produces one output record per eligible window, plus the
//! whole per-page pipeline from rendered text to records.

use vstd::prelude::*;

use crate::chapter::{pretty_chapter, pretty_chapter_spec};
use crate::cleaner::{
    clean_lines, clean_spec, is_border_spec, is_ignorable_line, is_ignorable_spec, is_scene_border,
    normalize_spec,
};
use crate::text::{
    char_vec, extend_chars, replace_chars, replace_spec, split_lines, split_lines_spec,
    string_from_chars, views_of,
};

verus! {

/// One record of the output stream, one per emitted context window.
pub struct OutputSchema {
    pub book_title: String,
    pub chapter_title: String,
    pub searchable_text: String,
    pub display_text: String,
}

/// The mathematical content of one output record.
pub ghost struct RecordView {
    pub book_title: Seq<char>,
    pub chapter_title: Seq<char>,
    pub searchable_text: Seq<char>,
    pub display_text: Seq<char>,
}

impl View for OutputSchema {
    type V = RecordView;

    open spec fn view(&self) -> RecordView {
        RecordView {
            book_title: self.book_title@,
            chapter_title: self.chapter_title@,
            searchable_text: self.searchable_text@,
            display_text: self.display_text@,
        }
    }
}

/// The views of a sequence of records.
pub open spec fn record_views(v: Seq<OutputSchema>) -> Seq<RecordView> {
    v.map_values(|o: OutputSchema| o@)
}

/// A line with the inline emphasis markers removed; what is indexed for
/// search.
pub open spec fn strip_em_spec(l: Seq<char>) -> Seq<char> {
    replace_spec(replace_spec(l, "<em>"@, Seq::empty()), "</em>"@, Seq::empty())
}

/// The leading context fragment: empty when the previous line is a scene
/// border or noise, otherwise that line closing its paragraph.
pub open spec fn prev_fragment_spec(prev: Seq<char>) -> Seq<char> {
    if is_border_spec(prev) || is_ignorable_spec(prev) {
        Seq::empty()
    } else {
        prev + "</p><p>"@
    }
}

/// The trailing context fragment, symmetric to the leading one.
pub open spec fn next_fragment_spec(next: Seq<char>) -> Seq<char> {
    if is_border_spec(next) || is_ignorable_spec(next) {
        Seq::empty()
    } else {
        "</p><p>"@ + next
    }
}

/// The record emitted for one window.
pub open spec fn window_record_spec(
    book: Seq<char>,
    chapter: Seq<char>,
    prev: Seq<char>,
    curr: Seq<char>,
    next: Seq<char>,
) -> RecordView {
    RecordView {
        book_title: book,
        chapter_title: chapter,
        searchable_text: strip_em_spec(curr),
        display_text: prev_fragment_spec(prev) + curr + next_fragment_spec(next),
    }
}

/// The records emitted for the windows centered at `i` and beyond: one per
/// center line that is not a scene border.
pub open spec fn records_from(
    book: Seq<char>,
    chapter: Seq<char>,
    lines: Seq<Seq<char>>,
    i: int,
) -> Seq<RecordView>
    decreases lines.len() - i,
{
    if i < 1 || i + 1 >= lines.len() {
        Seq::empty()
    } else {
        let rest = records_from(book, chapter, lines, i + 1);
        if is_border_spec(lines[i]) {
            rest
        } else {
            seq![window_record_spec(book, chapter, lines[i - 1], lines[i], lines[i + 1])] + rest
        }
    }
}

/// All records emitted for one page's cleaned lines.
pub open spec fn page_records_spec(book: Seq<char>, chapter: Seq<char>, lines: Seq<Seq<char>>) -> Seq<
    RecordView,
> {
    records_from(book, chapter, lines, 1)
}

/// Removes the inline emphasis markers from one line.
pub fn strip_emphasis(line: &str) -> (r: String)
    ensures
        r@ == strip_em_spec(line@),
{
    proof {
        reveal_strlit("<em>");
        reveal_strlit("</em>");
    }
    let v = char_vec(line);
    let empty: Vec<char> = Vec::new();
    let open_tag = char_vec("<em>");
    let close_tag = char_vec("</em>");
    let step1 = replace_chars(&v, &open_tag, &empty);
    let step2 = replace_chars(&step1, &close_tag, &empty);
    string_from_chars(&step2)
}

/// Slides the three-line window over the cleaned lines and emits one record
/// per window whose center is not a scene border.
pub fn assemble_windows(book_title: &str, chapter_title: &String, lines: &Vec<String>) -> (r: Vec<
    OutputSchema,
>)
    ensures
        record_views(r@) == page_records_spec(book_title@, chapter_title@, views_of(lines@)),
{
    let ghost gl = views_of(lines@);
    let mut out: Vec<OutputSchema> = Vec::new();
    let n = lines.len();
    if n < 3 {
        assert(records_from(book_title@, chapter_title@, gl, 1) =~= Seq::<RecordView>::empty());
        assert(record_views(out@) =~= Seq::<RecordView>::empty());
        return out;
    }
    let mut i: usize = 1;
    assert(record_views(out@) + records_from(book_title@, chapter_title@, gl, 1) =~= records_from(
        book_title@,
        chapter_title@,
        gl,
        1,
    ));
    while i < n - 1
        invariant
            1 <= i,
            i + 1 <= n,
            n == lines@.len(),
            gl == views_of(lines@),
            records_from(book_title@, chapter_title@, gl, 1) == record_views(out@) + records_from(
                book_title@,
                chapter_title@,
                gl,
                i as int,
            ),
        decreases lines@.len() - i,
    {
        let ghost prior = out@;
        let prev = &lines[i - 1];
        let curr = &lines[i];
        let next = &lines[i + 1];
        proof {
            assert(gl[i as int] == lines@[i as int]@);
            assert(gl[i as int - 1] == lines@[i as int - 1]@);
            assert(gl[i as int + 1] == lines@[i as int + 1]@);
        }
        if !is_scene_border(curr.as_str()) {
            let mut display: Vec<char> = Vec::new();
            let marker = char_vec("</p><p>");
            if !is_scene_border(prev.as_str()) && !is_ignorable_line(prev.as_str()) {
                let pv = char_vec(prev.as_str());
                extend_chars(&mut display, &pv);
                extend_chars(&mut display, &marker);
            }
            let cv = char_vec(curr.as_str());
            extend_chars(&mut display, &cv);
            if !is_scene_border(next.as_str()) && !is_ignorable_line(next.as_str()) {
                extend_chars(&mut display, &marker);
                let nv = char_vec(next.as_str());
                extend_chars(&mut display, &nv);
            }
            proof {
                assert(display@ =~= prev_fragment_spec(gl[i as int - 1]) + gl[i as int]
                    + next_fragment_spec(gl[i as int + 1]));
            }
            let record = OutputSchema {
                book_title: book_title.to_owned(),
                chapter_title: chapter_title.clone(),
                searchable_text: strip_emphasis(curr.as_str()),
                display_text: string_from_chars(&display),
            };
            out.push(record);
            proof {
                assert(record_views(out@) =~= record_views(prior) + seq![
                    window_record_spec(
                        book_title@,
                        chapter_title@,
                        gl[i as int - 1],
                        gl[i as int],
                        gl[i as int + 1],
                    ),
                ]);
                assert((record_views(prior) + seq![
                    window_record_spec(
                        book_title@,
                        chapter_title@,
                        gl[i as int - 1],
                        gl[i as int],
                        gl[i as int + 1],
                    ),
                ]) + records_from(book_title@, chapter_title@, gl, i as int + 1) =~= record_views(
                    prior,
                ) + (seq![
                    window_record_spec(
                        book_title@,
                        chapter_title@,
                        gl[i as int - 1],
                        gl[i as int],
                        gl[i as int + 1],
                    ),
                ] + records_from(book_title@, chapter_title@, gl, i as int + 1)));
            }
        }
        i = i + 1;
    }
    proof {
        assert(records_from(book_title@, chapter_title@, gl, i as int) =~= Seq::<
            RecordView,
        >::empty());
        assert(record_views(out@) + Seq::<RecordView>::empty() =~= record_views(out@));
    }
    out
}

/// What one page contributes to the output stream, from its rendered text.
pub open spec fn page_pipeline_spec(
    book_title: Seq<char>,
    raw_chapter: Seq<char>,
    rendered: Seq<char>,
) -> Seq<RecordView> {
    page_records_spec(
        book_title,
        pretty_chapter_spec(book_title, raw_chapter),
        clean_spec(split_lines_spec(rendered), raw_chapter),
    )
}

/// Runs the whole per-page pipeline: split the rendered text into lines,
/// drop noise and the chapter's own title line, normalize punctuation, and
/// assemble the context windows.
pub fn process_page(book_title: &str, raw_chapter: &str, rendered: &str) -> (r: Vec<OutputSchema>)
    ensures
        record_views(r@) == page_pipeline_spec(book_title@, raw_chapter@, rendered@),
{
    let lines = split_lines(rendered);
    let cleaned = clean_lines(&lines, raw_chapter);
    let pretty = pretty_chapter(book_title, raw_chapter);
    assemble_windows(book_title, &pretty, &cleaned)
}

} // verus!
