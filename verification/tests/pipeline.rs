use book_indexer::catalog::{all_books, book_matches, find_matching_book, is_epub_filename, is_in_arcanum_unbounded, pages_to_visit, IndexableBook};
use book_indexer::chapter::{handle_secret_history_chapter, map_by_hand, pretty_chapter};
use book_indexer::cleaner::{clean_lines, image_alt_sentinel, is_ignorable_line, is_scene_border, normalize_line};
use book_indexer::decorator::MyDecorator;
use book_indexer::markup::preprocess_markup;
use book_indexer::text::split_lines;
use book_indexer::window::{assemble_windows, process_page, strip_emphasis};

#[test]
fn scene_border_sentinels() {
    assert!(is_scene_border("* * *"));
    assert!(is_scene_border("~"));
    assert!(is_scene_border("795f88d2-e400-42f0-bb88-d84cf308de1b"));
    assert_eq!(image_alt_sentinel(), "795f88d2-e400-42f0-bb88-d84cf308de1b");
    assert!(is_scene_border(image_alt_sentinel()));
}

#[test]
fn scene_border_requires_exact_match() {
    assert!(!is_scene_border("* * * "));
    assert!(!is_scene_border(" ~"));
    assert!(!is_scene_border("* * * *"));
    assert!(!is_scene_border("~~"));
    assert!(!is_scene_border("A quiet evening"));
    assert!(!is_scene_border(""));
}

#[test]
fn ignorable_lines() {
    assert!(is_ignorable_line(""));
    assert!(is_ignorable_line("   "));
    assert!(is_ignorable_line("\t"));
    assert!(is_ignorable_line("# Leaked header"));
    assert!(is_ignorable_line("  # indented header"));
    assert!(is_ignorable_line("│ boxed cell"));
    assert!(is_ignorable_line("─┴─────"));
    assert!(is_ignorable_line("─┬─────"));
    assert!(!is_ignorable_line("Ordinary narrative text."));
    assert!(!is_ignorable_line("── plain dashes without a joint"));
    assert!(!is_ignorable_line("* * *"));
}

#[test]
fn normalization_rules() {
    assert_eq!(normalize_line("**bold** words"), "bold words");
    assert_eq!(normalize_line("wait. . ."), "wait…");
    assert_eq!(normalize_line("wait …"), "wait…");
    assert_eq!(normalize_line("plain"), "plain");
}

#[test]
fn normalization_order_asterisks_before_ellipses() {
    // The bold markers around the spelled-out ellipsis must be stripped
    // first, or the ellipsis would not collapse.
    assert_eq!(normalize_line("**. . .**"), "…");
}

#[test]
fn strip_emphasis_markers() {
    assert_eq!(strip_emphasis("<em>Vin</em> paused"), "Vin paused");
    assert_eq!(strip_emphasis("no markers"), "no markers");
    assert_eq!(strip_emphasis("<em></em>"), "");
}

#[test]
fn chapter_prefix_labels() {
    assert_eq!(pretty_chapter("Warbreaker", "Chapter07.html"), "Chapter 7");
    assert_eq!(pretty_chapter("Warbreaker", "CHAPTER012"), "Chapter 12");
    assert_eq!(pretty_chapter("Warbreaker", "chapter3"), "Chapter 3");
}

#[test]
fn prologue_and_epilogue_labels() {
    assert_eq!(pretty_chapter("Warbreaker", "prologue"), "Prologue");
    assert_eq!(pretty_chapter("Warbreaker", "PROLOGUE"), "Prologue");
    assert_eq!(pretty_chapter("Warbreaker", "Epilogue"), "Epilogue");
    assert_eq!(pretty_chapter("Warbreaker", "ePiLoGuE"), "Epilogue");
}

#[test]
fn hand_mapped_labels() {
    assert_eq!(pretty_chapter("Warbreaker", "Prologue.html"), "Prologue");
    assert_eq!(map_by_hand("Day_02.html"), "Day Two");
    assert_eq!(map_by_hand("Day_98.html"), "Day Ninety-Eight");
    assert_eq!(
        map_by_hand("Epilogue.html"),
        "Epilogue: Day One Hundred and One"
    );
    assert_eq!(map_by_hand("unknown_page.html"), "unknown_page.html");
}

#[test]
fn title_suppressed_book_has_empty_labels() {
    assert_eq!(pretty_chapter("The Hope of Elantris", "Chapter01"), "");
    assert_eq!(pretty_chapter("the hope of elantris", "prologue"), "");
}

#[test]
fn secret_history_positional_labels() {
    assert_eq!(handle_secret_history_chapter("x2_3.html"), "Part 2, Chapter 3");
    assert_eq!(pretty_chapter("Secret History", "x1_5.html"), "Part 1, Chapter 5");
}

#[test]
fn arcanum_unbounded_pieces() {
    assert!(is_in_arcanum_unbounded("The Hope of Elantris"));
    assert!(is_in_arcanum_unbounded("The Eleventh Metal"));
    assert!(is_in_arcanum_unbounded("Allomancer Jak and the Pits of Eltania"));
    assert!(is_in_arcanum_unbounded("White Sand"));
    assert!(is_in_arcanum_unbounded("Shadows for Silence in the Forests of Hell"));
    assert!(is_in_arcanum_unbounded("Sixth of the Dusk"));
    assert!(is_in_arcanum_unbounded("Edgedancer"));
    assert!(!is_in_arcanum_unbounded("Warbreaker"));
    assert!(!is_in_arcanum_unbounded("the hope of elantris"));
}

#[test]
fn anthology_title_matches_collected_piece() {
    let books = all_books();
    let declared = "Arcanum Unbounded: The Cosmere Collection";
    for book in &books {
        if is_in_arcanum_unbounded(&book.title) {
            assert!(book_matches(declared, book));
        }
    }
    let found = find_matching_book(declared, &books);
    assert_eq!(found, Some(6));
    assert_eq!(books[6].title, "The Hope of Elantris");
}

#[test]
fn catalog_match_is_case_insensitive_substring() {
    let books = all_books();
    assert_eq!(
        find_matching_book("Brandon Sanderson - THE ALLOY OF LAW (Mistborn)", &books),
        Some(0)
    );
    assert_eq!(find_matching_book("An Unrelated Novel", &books), None);
}

#[test]
fn catalog_first_match_wins() {
    let books = all_books();
    let declared = "Shadows of Self and The Bands of Mourning";
    assert_eq!(find_matching_book(declared, &books), Some(1));
}

#[test]
fn shadows_of_self_visits_its_range_without_skipped_pages() {
    let books = all_books();
    let idx = find_matching_book("Shadows of Self", &books).unwrap();
    let book = &books[idx];
    assert_eq!(book.first_chapter_index, 7);
    assert_eq!(book.last_chapter_index, 37);
    let visits = pages_to_visit(book);
    assert_eq!(visits.len(), 31 - 3);
    for p in 7..=37 {
        if p == 8 || p == 13 || p == 31 {
            assert!(!visits.contains(&p));
        } else {
            assert!(visits.contains(&p));
        }
    }
}

#[test]
fn skip_list_may_name_the_last_page() {
    let book = IndexableBook {
        title: String::from("Example"),
        first_chapter_index: 1,
        last_chapter_index: 5,
        skippable_chapters: vec![5],
    };
    let visits = pages_to_visit(&book);
    assert_eq!(visits, vec![1, 2, 3, 4]);
}

#[test]
fn epub_filename_filter() {
    assert!(is_epub_filename("warbreaker.epub"));
    assert!(is_epub_filename("epub"));
    assert!(!is_epub_filename("warbreaker.epub.bak"));
    assert!(!is_epub_filename("notes.txt"));
}

#[test]
fn catalog_holds_seven_books() {
    let books = all_books();
    assert_eq!(books.len(), 7);
    assert_eq!(books[3].title, "Secret History");
    assert_eq!(books[3].first_chapter_index, 5);
    assert_eq!(books[3].last_chapter_index, 35);
    assert_eq!(books[3].skippable_chapters, vec![7, 12, 16, 21, 25]);
    assert_eq!(books[4].skippable_chapters, Vec::<usize>::new());
}

#[test]
fn split_lines_matches_std() {
    let text = "first\nsecond\r\nthird\n";
    let lines = split_lines(text);
    assert_eq!(lines, vec!["first", "second", "third"]);
    assert_eq!(split_lines(""), Vec::<String>::new());
    assert_eq!(split_lines("\n"), vec![""]);
    assert_eq!(split_lines("a"), vec!["a"]);
}

#[test]
fn windowing_scene_break_example() {
    let lines: Vec<String> = vec!["A", "* * *", "B", "C", "D"]
        .into_iter()
        .map(String::from)
        .collect();
    let records = assemble_windows("Book", &String::from("Ch"), &lines);
    // Window centered on the border is skipped; "B" loses its leading
    // fragment; "C" keeps both.
    assert_eq!(records.len(), 2);
    assert_eq!(records[0].searchable_text, "B");
    assert_eq!(records[0].display_text, "B</p><p>C");
    assert_eq!(records[1].searchable_text, "C");
    assert_eq!(records[1].display_text, "B</p><p>C</p><p>D");
    assert_eq!(records[0].book_title, "Book");
    assert_eq!(records[0].chapter_title, "Ch");
}

#[test]
fn windowing_needs_three_lines() {
    let lines: Vec<String> = vec!["A", "B"].into_iter().map(String::from).collect();
    let records = assemble_windows("Book", &String::from("Ch"), &lines);
    assert!(records.is_empty());
}

#[test]
fn searchable_round_trip_on_fixed_page() {
    let rendered = "# header\n\nA\n* * *\nB\nC\nD\n";
    let records = process_page("Warbreaker", "Chapter01.html", rendered);
    // Cleaned lines are [A, * * *, B, C, D]; the interior non-border lines
    // are exactly B and C, once each.
    let searchable: Vec<&str> = records.iter().map(|r| r.searchable_text.as_str()).collect();
    assert_eq!(searchable, vec!["B", "C"]);
    assert_eq!(records[0].chapter_title, "Chapter 1");
    assert_eq!(records[0].book_title, "Warbreaker");
}

#[test]
fn chapter_title_line_is_dropped() {
    let lines: Vec<String> = vec!["Chapter One", "body text", "more text"]
        .into_iter()
        .map(String::from)
        .collect();
    // The raw identifier ends with the first line's text, so it is dropped.
    let cleaned = clean_lines(&lines, "page Chapter One");
    assert_eq!(cleaned, vec!["body text", "more text"]);
}

#[test]
fn cleaning_drops_noise_and_normalizes() {
    let lines: Vec<String> = vec!["", "# h", "keep **this**", "│ box", "also. . ."]
        .into_iter()
        .map(String::from)
        .collect();
    let cleaned = clean_lines(&lines, "ch.html");
    assert_eq!(cleaned, vec!["keep this", "also…"]);
}

#[test]
fn emphasis_markers_survive_cleaning_for_display() {
    let rendered = "x\n<em>inner</em> voice\ny\nz\n";
    let records = process_page("Warbreaker", "Chapter02.html", rendered);
    // Center lines: "<em>inner</em> voice" and "y".
    assert_eq!(records.len(), 2);
    assert_eq!(records[0].searchable_text, "inner voice");
    assert!(records[0].display_text.contains("<em>inner</em> voice"));
}

#[test]
fn preprocess_normalizes_italics_and_images() {
    assert_eq!(preprocess_markup("<i>x</i>"), "<em>x</em>");
    assert_eq!(
        preprocess_markup("<img src=\"border.png\"/>"),
        "<img alt=\"795f88d2-e400-42f0-bb88-d84cf308de1b\" src=\"border.png\"/>"
    );
    assert_eq!(preprocess_markup("plain"), "plain");
}

#[test]
fn preprocess_deletes_duplicated_fragments() {
    let title_block = "<p class=\"Part-Title-pt\"><a href=\"contents.xhtml#c_pt3\"><span class=\"ePub-SC\">THE</span><br/>HOPE<br/><span class=\"ePub-SC\">OF</span><br/>ELANTRIS</a></p>";
    let spoiler_block = "<p class=\"Design-Note-dn\"><span class=\"R1\">This story takes place after and contains major spoilers for</span> <span class=\"ePub-I\">Elantris.</span></p>";
    let page = format!("<body>{title_block}mid{spoiler_block}</body>");
    assert_eq!(preprocess_markup(&page), "<body>mid</body>");
}

#[test]
fn decorator_policy_values() {
    let mut d = MyDecorator::new();
    assert_eq!(d.decorate_em_start().0, "<em>");
    assert_eq!(d.decorate_em_end(), "</em>");
    assert_eq!(d.decorate_strikeout_start().0, "<s>");
    assert_eq!(d.decorate_strikeout_end(), "</s>");
    assert_eq!(d.decorate_strong_start().0, "");
    assert_eq!(d.decorate_strong_end(), "");
    assert_eq!(d.decorate_code_start().0, "");
    assert_eq!(d.decorate_code_end(), "");
    assert_eq!(d.decorate_image("title").0, "");
    assert_eq!(d.decorate_link_start("url").0, "");
    assert_eq!(d.decorate_link_end(), "");
    assert_eq!(d.header_prefix(2), "");
    assert_eq!(d.quote_prefix(), "");
    assert_eq!(d.ordered_item_prefix(3), "");
    assert_eq!(d.unordered_item_prefix(), "");
}
