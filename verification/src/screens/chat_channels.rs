//! The chat channels screen.
use vstd::prelude::*;

verus! {

/// The line for a channel: `#` and its title, then a space.
pub open spec fn channel_label_of(title: Seq<char>) -> Seq<char> {
    "#"@ + title + " "@
}

/// The line shown for a channel.
pub fn channel_label(title: &str) -> (r: String)
    ensures
        r@ == channel_label_of(title@),
{
    let mut r = "#".to_owned();
    r.append(title);
    r.append(" ");
    r
}

} // verus!
