//! The forum picker screen.
use vstd::prelude::*;

use crate::config::{Config, Forum};
use crate::text::{self, byte_len};

verus! {

/// The mark before a forum: a star for the current forum, else two spaces.
pub open spec fn marker_of(config: Config, forum: Forum) -> Seq<char> {
    if config.current.selected matches Some(s) && s@ == forum.id@ { "\u{2605} "@ } else { "  "@ }
}

/// The mark shown before a forum in the list.
pub fn selected_marker(config: &Config, forum: &Forum) -> (r: &'static str)
    ensures
        r@ == marker_of(*config, *forum),
{
    let current = match &config.current.selected {
        Some(s) => *s == forum.id,
        None => false,
    };
    if current { "\u{2605} " } else { "  " }
}

/// `n` stars.
pub open spec fn stars(n: nat) -> Seq<char> {
    Seq::new(n, |i: int| '*')
}

/// A run of stars as long as `value` is in bytes.
pub fn mask(value: &str) -> (r: String)
    ensures
        r@ == stars(byte_len(value@)),
{
    let chars = text::chars_of(value);
    let n = text::bytes_of(&chars);
    let mut r: Vec<char> = Vec::new();
    let mut i: u128 = 0;
    while i < n
        invariant
            i <= n,
            r@ == stars(i as nat),
        decreases n - i,
    {
        r.push('*');
        assert(r@ =~= stars((i + 1) as nat));
        i = i + 1;
    }
    text::string_of(&r)
}

/// What field `idx` of the form shows: the two API key fields (2 and 3), when
/// filled in, as a star per byte; any other field as typed.
pub open spec fn display_value_of(idx: int, value: Seq<char>) -> Seq<char> {
    if (idx == 2 || idx == 3) && value.len() > 0 { stars(byte_len(value)) } else { value }
}

/// What field `idx` of the form shows.
pub fn display_value(idx: usize, value: &str) -> (r: String)
    ensures
        r@ == display_value_of(idx as int, value@),
{
    if (idx == 2 || idx == 3) && !value.is_empty() {
        mask(value)
    } else {
        value.to_owned()
    }
}

} // verus!
