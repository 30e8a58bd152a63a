//! The main screen: sidebar and topic list.
use vstd::prelude::*;

use crate::app_simple::ViewFilter;
use crate::text::{self, decimal_of};

verus! {

/// The title over the topic list for each filter.
pub open spec fn topics_title_of(filter: ViewFilter) -> Seq<char> {
    match filter {
        ViewFilter::AllTopics => "All Topics"@,
        ViewFilter::MyPosts => "My Posts"@,
        ViewFilter::MyMessages => "My Messages"@,
        ViewFilter::Category(_) => "Category Topics"@,
        ViewFilter::Tag(_) => "Tagged Topics"@,
    }
}

/// The title over the topic list.
pub fn topics_title(filter: ViewFilter) -> (r: &'static str)
    ensures
        r@ == topics_title_of(filter),
{
    match filter {
        ViewFilter::AllTopics => "All Topics",
        ViewFilter::MyPosts => "My Posts",
        ViewFilter::MyMessages => "My Messages",
        ViewFilter::Category(_) => "Category Topics",
        ViewFilter::Tag(_) => "Tagged Topics",
    }
}

/// The mark before a topic: a dot when it is unread, else two spaces.
pub fn unread_marker(unread: bool) -> (r: &'static str)
    ensures
        r@ == (if unread { "\u{25cf} "@ } else { "  "@ }),
{
    if unread { "\u{25cf} " } else { "  " }
}

/// A count in brackets after a space, such as ` (3)`.
pub open spec fn count_suffix_of(n: nat) -> Seq<char> {
    " ("@ + decimal_of(n) + ")"@
}

/// A count in brackets after a space.
pub fn count_suffix(n: usize) -> (r: String)
    ensures
        r@ == count_suffix_of(n as nat),
{
    let mut r = " (".to_owned();
    r.append(text::decimal(n as u64).as_str());
    r.append(")");
    r
}

} // verus!
