//! The text that stands for an adaptive card where plain text is needed.

use vstd::prelude::*;
use crate::json;
use crate::json::{Json, JsonV};
use crate::text;

verus! {

/// The trimmed form of a text, where that is not empty.
pub open spec fn trimmed_text(t: Option<Seq<char>>) -> Option<Seq<char>> {
    match t {
        Some(v) => if text::trimmed(v).len() == 0 {
            None
        } else {
            Some(text::trimmed(v))
        },
        None => None,
    }
}

/// The trimmed texts of the blocks of a card body, in order, without the blank ones.
pub open spec fn card_segments(blocks: Seq<JsonV>) -> Seq<Seq<char>>
    decreases blocks.len(),
{
    if blocks.len() == 0 {
        Seq::empty()
    } else {
        match trimmed_text(blocks.last().str_at("text"@)) {
            Some(t) => card_segments(blocks.drop_last()).push(t),
            None => card_segments(blocks.drop_last()),
        }
    }
}

/// The text of a card: its own `text`, trimmed, where that is not blank;
/// else the texts of its body blocks, joined by spaces; else nothing.
pub open spec fn card_text(card: JsonV) -> Option<Seq<char>> {
    match trimmed_text(card.str_at("text"@)) {
        Some(t) => Some(t),
        None => match card.get("body"@) {
            Some(JsonV::Array(blocks)) => if card_segments(blocks).len() > 0 {
                Some(text::joined(card_segments(blocks), seq![' ']))
            } else {
                None
            },
            _ => None,
        },
    }
}

/// The trimmed form of a text, where that is not empty.
pub fn trim_nonblank(t: Option<&str>) -> (r: Option<String>)
    ensures
        json::opt_view(r) == trimmed_text(crate::directline::opt_text(t)),
{
    match t {
        Some(v) => {
            let trimmed = text::trim(v);
            if trimmed.as_str().unicode_len() == 0 {
                None
            } else {
                Some(trimmed)
            }
        },
        None => None,
    }
}

/// The trimmed form of the text under `key`, where that is not empty.
pub fn trimmed_str_at(j: &Json, key: &str) -> (r: Option<String>)
    ensures
        json::opt_view(r) == trimmed_text(j@.str_at(key@)),
{
    match j.str_at(key) {
        Some(t) => trim_nonblank(Some(t.as_str())),
        None => None,
    }
}

/// The text of a card.
pub fn extract_card_text(card: &Json) -> (r: Option<String>)
    ensures
        json::opt_view(r) == card_text(card@),
{
    match trimmed_str_at(card, "text") {
        Some(t) => {
            return Some(t);
        },
        None => {},
    }
    match card.get("body") {
        Some(body) => match body.as_array() {
            Some(blocks) => {
                let mut segments: Vec<String> = Vec::new();
                let mut i: usize = 0;
                let ghost all = json::items_view(blocks@);
                assert(all.take(0) =~= Seq::<JsonV>::empty());
                while i < blocks.len()
                    invariant
                        i <= blocks.len(),
                        all == json::items_view(blocks@),
                        text::strings_view(segments@) == card_segments(all.take(i as int)),
                    decreases blocks.len() - i,
                {
                    let ghost before = text::strings_view(segments@);
                    match trimmed_str_at(&blocks[i], "text") {
                        Some(t) => {
                            segments.push(t);
                            assert(text::strings_view(segments@) =~= before.push(t@));
                        },
                        None => {},
                    }
                    i += 1;
                    assert(all.take(i as int).drop_last() =~= all.take(i - 1));
                    assert(all.take(i as int).last() == blocks@[i - 1]@);
                }
                assert(all.take(blocks.len() as int) =~= all);
                if segments.len() > 0 {
                    let sep = " ";
                    proof {
                        reveal_strlit(" ");
                        assert(sep@ =~= seq![' ']);
                    }
                    Some(text::join(&segments, sep))
                } else {
                    None
                }
            },
            None => None,
        },
        None => None,
    }
}

} // verus!
