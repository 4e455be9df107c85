//! The rendering decoration policy: emphasis and strikethrough spans keep an
//! explicit marker pair, everything else (bold, links, images, headers, list
//! and quote prefixes, code) contributes no decoration text.
//!
//! The renderer itself lives outside the library; its decorator delegates to
//! these methods so the policy's values are pinned here.

use vstd::prelude::*;

verus! {

/// The decoration policy for rendering a page's markup to plain text.
#[derive(Clone, Debug)]
pub struct MyDecorator {}

impl MyDecorator {
    pub fn new() -> (r: Self) {
        MyDecorator {  }
    }

    pub fn decorate_code_start(&self) -> (r: (String, ()))
        ensures
            r.0@ == Seq::<char>::empty(),
    {
        (String::new(), ())
    }

    pub fn decorate_code_end(&self) -> (r: String)
        ensures
            r@ == Seq::<char>::empty(),
    {
        String::new()
    }

    pub fn decorate_em_start(&self) -> (r: (String, ()))
        ensures
            r.0@ == "<em>"@,
    {
        ("<em>".to_owned(), ())
    }

    pub fn decorate_em_end(&self) -> (r: String)
        ensures
            r@ == "</em>"@,
    {
        "</em>".to_owned()
    }

    pub fn decorate_image(&self, _title: &str) -> (r: (String, ()))
        ensures
            r.0@ == Seq::<char>::empty(),
    {
        (String::new(), ())
    }

    pub fn decorate_link_start(&self, _url: &str) -> (r: (String, ()))
        ensures
            r.0@ == Seq::<char>::empty(),
    {
        (String::new(), ())
    }

    pub fn decorate_link_end(&self) -> (r: String)
        ensures
            r@ == Seq::<char>::empty(),
    {
        String::new()
    }

    pub fn decorate_preformat_first(&self) {
    }

    pub fn decorate_preformat_cont(&self) {
    }

    pub fn decorate_strikeout_start(&self) -> (r: (String, ()))
        ensures
            r.0@ == "<s>"@,
    {
        ("<s>".to_owned(), ())
    }

    pub fn decorate_strikeout_end(&self) -> (r: String)
        ensures
            r@ == "</s>"@,
    {
        "</s>".to_owned()
    }

    pub fn decorate_strong_start(&self) -> (r: (String, ()))
        ensures
            r.0@ == Seq::<char>::empty(),
    {
        (String::new(), ())
    }

    pub fn decorate_strong_end(&self) -> (r: String)
        ensures
            r@ == Seq::<char>::empty(),
    {
        String::new()
    }

    pub fn header_prefix(&self, _level: usize) -> (r: String)
        ensures
            r@ == Seq::<char>::empty(),
    {
        String::new()
    }

    pub fn quote_prefix(&self) -> (r: String)
        ensures
            r@ == Seq::<char>::empty(),
    {
        String::new()
    }

    pub fn ordered_item_prefix(&self, _i: i64) -> (r: String)
        ensures
            r@ == Seq::<char>::empty(),
    {
        String::new()
    }

    pub fn unordered_item_prefix(&self) -> (r: String)
        ensures
            r@ == Seq::<char>::empty(),
    {
        String::new()
    }

    pub fn make_subblock_decorator(&self) -> (r: Self) {
        Self::new()
    }
}

} // verus!
