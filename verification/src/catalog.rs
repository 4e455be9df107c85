//! The book catalog: the hand-curated descriptors for the shelf, the matcher
//! that pairs an archive's declared title with a descriptor, and the list of
//! page indices a descriptor asks to visit.

use vstd::prelude::*;

use crate::text::{
    char_vec, contains_chars, contains_ci_chars, eq_chars, seq_contains_ci, seq_contains_seq,
    seq_has_suffix, suffix_chars,
};

verus! {

/// One catalog entry: a recognizable title substring and the hand-tuned page
/// range and skip list for that book.
#[derive(Debug)]
pub struct IndexableBook {
    pub title: String,
    pub first_chapter_index: usize,
    pub last_chapter_index: usize,
    pub skippable_chapters: Vec<usize>,
}

/// The titles of the pieces collected in the Arcanum Unbounded anthology.
pub open spec fn arcanum_spec(title: Seq<char>) -> bool {
    title == "The Hope of Elantris"@ || title == "The Eleventh Metal"@ || title
        == "Allomancer Jak and the Pits of Eltania"@ || title == "White Sand"@ || title
        == "Shadows for Silence in the Forests of Hell"@ || title == "Sixth of the Dusk"@ || title
        == "Edgedancer"@
}

/// Whether the title names a piece collected in the Arcanum Unbounded
/// anthology.
pub fn is_in_arcanum_unbounded(title: &str) -> (r: bool)
    ensures
        r == arcanum_spec(title@),
{
    let v = char_vec(title);
    eq_chars(&v, &char_vec("The Hope of Elantris")) || eq_chars(
        &v,
        &char_vec("The Eleventh Metal"),
    ) || eq_chars(&v, &char_vec("Allomancer Jak and the Pits of Eltania")) || eq_chars(
        &v,
        &char_vec("White Sand"),
    ) || eq_chars(&v, &char_vec("Shadows for Silence in the Forests of Hell")) || eq_chars(
        &v,
        &char_vec("Sixth of the Dusk"),
    ) || eq_chars(&v, &char_vec("Edgedancer"))
}

/// A descriptor matches a declared title when its own title occurs in it
/// case-insensitively, or when the declared title names the anthology and the
/// descriptor is one of the anthology's pieces.
pub open spec fn book_matches_spec(epub_title: Seq<char>, book_title: Seq<char>) -> bool {
    seq_contains_ci(epub_title, book_title) || (seq_contains_seq(epub_title, "Arcanum Unbounded"@)
        && arcanum_spec(book_title))
}

/// Whether one descriptor matches the declared title of an opened archive.
pub fn book_matches(epub_title: &str, book: &IndexableBook) -> (r: bool)
    ensures
        r == book_matches_spec(epub_title@, book.title@),
{
    let et = char_vec(epub_title);
    let bt = char_vec(book.title.as_str());
    contains_ci_chars(&et, &bt) || (contains_chars(&et, &char_vec("Arcanum Unbounded"))
        && is_in_arcanum_unbounded(book.title.as_str()))
}

/// The first catalog entry matching the declared title, if any; catalog order
/// is the tie-break.
pub fn find_matching_book(epub_title: &str, books: &Vec<IndexableBook>) -> (r: Option<usize>)
    ensures
        match r {
            Some(i) => i < books@.len() && book_matches_spec(epub_title@, books@[i as int].title@)
                && forall|j: int|
                0 <= j < i ==> !book_matches_spec(epub_title@, books@[j].title@),
            None => forall|j: int|
                0 <= j < books@.len() ==> !book_matches_spec(epub_title@, books@[j].title@),
        },
{
    let mut i: usize = 0;
    while i < books.len()
        invariant
            i <= books@.len(),
            forall|j: int| 0 <= j < i ==> !book_matches_spec(epub_title@, books@[j].title@),
        decreases books@.len() - i,
    {
        if book_matches(epub_title, &books[i]) {
            return Some(i);
        }
        i = i + 1;
    }
    None
}

/// Whether a directory entry's name ends with the archive suffix the
/// pipeline indexes.
pub fn is_epub_filename(name: &str) -> (r: bool)
    ensures
        r == seq_has_suffix(name@, "epub"@),
{
    let v = char_vec(name);
    let ext = char_vec("epub");
    suffix_chars(&v, &ext)
}

/// The static catalog, in match-precedence order: seven known books with
/// their hand-tuned content-page ranges and skip lists.
pub fn all_books() -> (r: Vec<IndexableBook>)
    ensures
        r@.len() == 7,
        r@[0].title@ == "The Alloy of Law"@,
        r@[0].first_chapter_index == 7 && r@[0].last_chapter_index == 32,
        r@[0].skippable_chapters@ == seq![10usize, 16usize, 22usize, 26usize],
        r@[1].title@ == "Shadows of Self"@,
        r@[1].first_chapter_index == 7 && r@[1].last_chapter_index == 37,
        r@[1].skippable_chapters@ == seq![8usize, 13usize, 31usize],
        r@[2].title@ == "The Bands of Mourning"@,
        r@[2].first_chapter_index == 7 && r@[2].last_chapter_index == 42,
        r@[2].skippable_chapters@ == seq![8usize, 13usize, 26usize],
        r@[3].title@ == "Secret History"@,
        r@[3].first_chapter_index == 5 && r@[3].last_chapter_index == 35,
        r@[3].skippable_chapters@ == seq![7usize, 12usize, 16usize, 21usize, 25usize],
        r@[4].title@ == "Warbreaker"@,
        r@[4].first_chapter_index == 5 && r@[4].last_chapter_index == 65,
        r@[4].skippable_chapters@ == Seq::<usize>::empty(),
        r@[5].title@ == "The Emperor's Soul"@,
        r@[5].first_chapter_index == 3 && r@[5].last_chapter_index == 18,
        r@[5].skippable_chapters@ == Seq::<usize>::empty(),
        r@[6].title@ == "The Hope of Elantris"@,
        r@[6].first_chapter_index == 28 && r@[6].last_chapter_index == 28,
        r@[6].skippable_chapters@ == Seq::<usize>::empty(),
{
    let mut books: Vec<IndexableBook> = Vec::new();
    books.push(
        IndexableBook {
            title: "The Alloy of Law".to_owned(),
            first_chapter_index: 7,
            last_chapter_index: 32,
            skippable_chapters: make_skips4(10, 16, 22, 26),
        },
    );
    books.push(
        IndexableBook {
            title: "Shadows of Self".to_owned(),
            first_chapter_index: 7,
            last_chapter_index: 37,
            skippable_chapters: make_skips3(8, 13, 31),
        },
    );
    books.push(
        IndexableBook {
            title: "The Bands of Mourning".to_owned(),
            first_chapter_index: 7,
            last_chapter_index: 42,
            skippable_chapters: make_skips3(8, 13, 26),
        },
    );
    books.push(
        IndexableBook {
            title: "Secret History".to_owned(),
            first_chapter_index: 5,
            last_chapter_index: 35,
            skippable_chapters: make_skips5(7, 12, 16, 21, 25),
        },
    );
    books.push(
        IndexableBook {
            title: "Warbreaker".to_owned(),
            first_chapter_index: 5,
            last_chapter_index: 65,
            skippable_chapters: Vec::new(),
        },
    );
    books.push(
        IndexableBook {
            title: "The Emperor's Soul".to_owned(),
            first_chapter_index: 3,
            last_chapter_index: 18,
            skippable_chapters: Vec::new(),
        },
    );
    books.push(
        IndexableBook {
            title: "The Hope of Elantris".to_owned(),
            first_chapter_index: 28,
            last_chapter_index: 28,
            skippable_chapters: Vec::new(),
        },
    );
    books
}

fn make_skips3(a: usize, b: usize, c: usize) -> (r: Vec<usize>)
    ensures
        r@ == seq![a, b, c],
{
    let mut v: Vec<usize> = Vec::new();
    v.push(a);
    v.push(b);
    v.push(c);
    assert(v@ =~= seq![a, b, c]);
    v
}

fn make_skips4(a: usize, b: usize, c: usize, d: usize) -> (r: Vec<usize>)
    ensures
        r@ == seq![a, b, c, d],
{
    let mut v: Vec<usize> = Vec::new();
    v.push(a);
    v.push(b);
    v.push(c);
    v.push(d);
    assert(v@ =~= seq![a, b, c, d]);
    v
}

fn make_skips5(a: usize, b: usize, c: usize, d: usize, e: usize) -> (r: Vec<usize>)
    ensures
        r@ == seq![a, b, c, d, e],
{
    let mut v: Vec<usize> = Vec::new();
    v.push(a);
    v.push(b);
    v.push(c);
    v.push(d);
    v.push(e);
    assert(v@ =~= seq![a, b, c, d, e]);
    v
}

/// Whether the vector holds the value.
pub(crate) fn contains_usize(v: &Vec<usize>, x: usize) -> (r: bool)
    ensures
        r == v@.contains(x),
{
    let mut i: usize = 0;
    while i < v.len()
        invariant
            i <= v@.len(),
            forall|j: int| 0 <= j < i ==> v@[j] != x,
        decreases v@.len() - i,
    {
        if v[i] == x {
            return true;
        }
        i = i + 1;
    }
    false
}

/// The page indices the descriptor asks to visit: its inclusive range in
/// ascending order, with the skip-listed pages left out.
pub fn pages_to_visit(book: &IndexableBook) -> (r: Vec<usize>)
    requires
        book.last_chapter_index < usize::MAX,
    ensures
        forall|k: int|
            0 <= k < r@.len() ==> book.first_chapter_index <= #[trigger] r@[k]
                <= book.last_chapter_index && !book.skippable_chapters@.contains(r@[k]),
        forall|k1: int, k2: int| 0 <= k1 < k2 < r@.len() ==> r@[k1] < r@[k2],
        forall|p: usize|
            book.first_chapter_index <= p <= book.last_chapter_index
                && !book.skippable_chapters@.contains(p) ==> r@.contains(p),
{
    let mut out: Vec<usize> = Vec::new();
    let mut p: usize = book.first_chapter_index;
    while p <= book.last_chapter_index
        invariant
            book.first_chapter_index <= p,
            p <= book.last_chapter_index + 1 || p == book.first_chapter_index,
            book.last_chapter_index < usize::MAX,
            forall|k: int|
                0 <= k < out@.len() ==> book.first_chapter_index <= #[trigger] out@[k] < p
                    && !book.skippable_chapters@.contains(out@[k]),
            forall|k1: int, k2: int| 0 <= k1 < k2 < out@.len() ==> out@[k1] < out@[k2],
            forall|q: usize|
                book.first_chapter_index <= q < p && !(#[trigger] book.skippable_chapters@.contains(
                    q,
                )) ==> out@.contains(q),
        decreases book.last_chapter_index + 1 - p,
    {
        if !contains_usize(&book.skippable_chapters, p) {
            let ghost prior = out@;
            out.push(p);
            proof {
                assert(out@[out@.len() - 1] == p);
                assert(out@.contains(p));
                assert forall|q: usize| prior.contains(q) implies out@.contains(q) by {
                    let j = choose|j: int| 0 <= j < prior.len() && prior[j] == q;
                    assert(out@[j] == q);
                }
            }
        }
        p = p + 1;
    }
    out
}

} // verus!
