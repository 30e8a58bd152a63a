//! The topic view.
use vstd::prelude::*;

use crate::text::{self, decimal_of};

verus! {

/// The text shown for a topic: its title, author, category and number of replies.
pub open spec fn topic_details_of(title: Seq<char>, author: Seq<char>, category: Seq<char>, replies: nat) -> Seq<char> {
    "Title: "@ + title + "\nAuthor: "@ + author + "\nCategory: "@ + category + "\nReplies: "@
        + decimal_of(replies) + "\n\n(Topic content would go here)\n\nPress Esc to go back"@
}

/// The text shown for a topic.
pub fn topic_details(title: &str, author: &str, category: &str, replies: usize) -> (r: String)
    ensures
        r@ == topic_details_of(title@, author@, category@, replies as nat),
{
    let mut r = "Title: ".to_owned();
    r.append(title);
    r.append("\nAuthor: ");
    r.append(author);
    r.append("\nCategory: ");
    r.append(category);
    r.append("\nReplies: ");
    r.append(text::decimal(replies as u64).as_str());
    r.append("\n\n(Topic content would go here)\n\nPress Esc to go back");
    r
}

/// The title over a topic: `Topic #` and its id.
pub fn topic_heading(id: usize) -> (r: String)
    ensures
        r@ == "Topic #"@ + decimal_of(id as nat),
{
    let mut r = "Topic #".to_owned();
    r.append(text::decimal(id as u64).as_str());
    r
}

} // verus!
