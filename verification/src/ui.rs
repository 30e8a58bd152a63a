//! What the screens of the single-window client show, worked out from its
//! state; drawing it on the terminal is left to the caller.
use vstd::prelude::*;

use crate::app::ViewFilter;
use crate::screens::forum_picker::{mask, stars};
use crate::text::byte_len;

verus! {

/// The title over the topic list for each filter.
pub open spec fn topics_title_of(filter: ViewFilter) -> Seq<char> {
    match filter {
        ViewFilter::AllTopics => "Topics"@,
        ViewFilter::MyPosts => "My Posts"@,
        ViewFilter::MyMessages => "My Messages"@,
        ViewFilter::Category(_) => "Category Topics"@,
        ViewFilter::Tag(_) => "Tagged Topics"@,
    }
}

/// The title over the topic list.
pub fn topics_title(filter: ViewFilter) -> (r: &'static str)
    ensures
        r@ == topics_title_of(filter),
{
    match filter {
        ViewFilter::AllTopics => "Topics",
        ViewFilter::MyPosts => "My Posts",
        ViewFilter::MyMessages => "My Messages",
        ViewFilter::Category(_) => "Category Topics",
        ViewFilter::Tag(_) => "Tagged Topics",
    }
}

/// What field `idx` of the form shows: the API key field (2), when filled in,
/// as a star per byte; any other field as typed.
pub open spec fn display_value_of(idx: int, value: Seq<char>) -> Seq<char> {
    if idx == 2 && value.len() > 0 { stars(byte_len(value)) } else { value }
}

/// What field `idx` of the form shows.
pub fn display_value(idx: usize, value: &str) -> (r: String)
    ensures
        r@ == display_value_of(idx as int, value@),
{
    if idx == 2 && !value.is_empty() {
        mask(value)
    } else {
        value.to_owned()
    }
}

} // verus!
