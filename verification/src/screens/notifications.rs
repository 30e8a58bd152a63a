//! The notifications screen.
use vstd::prelude::*;

use crate::api::Notification;
use crate::config::opt_view;
use crate::text::{self, decimal_of};

verus! {

broadcast use vstd::seq_lib::group_seq_properties;

/// How many of the notifications are unread.
pub open spec fn unread_count_of(ns: Seq<Notification>) -> nat {
    ns.filter(|n: Notification| !n.read).len()
}

/// The number of unread notifications.
pub fn unread_count(ns: &Vec<Notification>) -> (r: usize)
    ensures
        r == unread_count_of(ns@),
{
    let ghost pred = |n: Notification| !n.read;
    let mut count: usize = 0;
    for i in 0..ns.len()
        invariant
            pred == (|n: Notification| !n.read),
            count == ns@.take(i as int).filter(pred).len(),
            count <= i,
    {
        assert(ns@.take(i + 1) =~= ns@.take(i as int).push(ns@[i as int]));
        proof {
            ns@.take(i as int).lemma_filter_push(ns@[i as int], pred);
        }
        if !ns[i].read {
            count = count + 1;
        }
    }
    assert(ns@.take(ns.len() as int) =~= ns@);
    count
}

/// The heading: how many notifications are unread, or that all are read.
pub open spec fn header_of(unread: nat) -> Seq<char> {
    if unread > 0 {
        "Notifications ("@ + decimal_of(unread) + " unread)"@
    } else {
        "Notifications (all read)"@
    }
}

/// The heading of the notifications screen.
pub fn header_text(unread: usize) -> (r: String)
    ensures
        r@ == header_of(unread as nat),
{
    if unread > 0 {
        let mut r = "Notifications (".to_owned();
        r.append(text::decimal(unread as u64).as_str());
        r.append(" unread)");
        r
    } else {
        "Notifications (all read)".to_owned()
    }
}

/// What a notification type number means.
pub open spec fn type_label_of(t: u32) -> Seq<char> {
    if t == 1 {
        "mentioned you"@
    } else if t == 2 {
        "replied to you"@
    } else if t == 3 {
        "quoted you"@
    } else if t == 5 || t == 9 {
        "replied to topic"@
    } else if t == 6 {
        "private message"@
    } else if t == 12 {
        "invited to private message"@
    } else if t == 15 {
        "moved post"@
    } else if t == 17 {
        "mentioned group"@
    } else if t == 18 {
        "watching topic"@
    } else if t == 25 {
        "reacted to post"@
    } else {
        "notification"@
    }
}

/// What a notification type number means.
pub fn type_label(t: u32) -> (r: &'static str)
    ensures
        r@ == type_label_of(t),
{
    if t == 1 {
        "mentioned you"
    } else if t == 2 {
        "replied to you"
    } else if t == 3 {
        "quoted you"
    } else if t == 5 || t == 9 {
        "replied to topic"
    } else if t == 6 {
        "private message"
    } else if t == 12 {
        "invited to private message"
    } else if t == 15 {
        "moved post"
    } else if t == 17 {
        "mentioned group"
    } else if t == 18 {
        "watching topic"
    } else if t == 25 {
        "reacted to post"
    } else {
        "notification"
    }
}

/// The first of two optional texts that is there, else `fallback`.
pub open spec fn first_present(a: Option<Seq<char>>, b: Option<Seq<char>>, fallback: Seq<char>) -> Seq<char> {
    match a {
        Some(x) => x,
        None => match b {
            Some(y) => y,
            None => fallback,
        },
    }
}

/// The line for a notification: a dot when it is unread, who did what, and the topic.
pub open spec fn line_of(n: Notification) -> Seq<char> {
    let title = first_present(opt_view(n.fancy_title), opt_view(n.data.topic_title), "(no title)"@);
    let who = first_present(opt_view(n.data.display_username), opt_view(n.data.original_username), "unknown"@);
    let marker = if n.read { " "@ } else { "\u{25cf} "@ };
    marker + who + " "@ + type_label_of(n.notification_type) + ": "@ + title
}

fn first_of(a: &Option<String>, b: &Option<String>, fallback: &str) -> (r: String)
    ensures
        r@ == first_present(opt_view(*a), opt_view(*b), fallback@),
{
    match a {
        Some(x) => x.clone(),
        None => match b {
            Some(y) => y.clone(),
            None => fallback.to_owned(),
        },
    }
}

/// The line shown for a notification, such as `● alice replied to you: Welcome`.
pub fn notification_line(n: &Notification) -> (r: String)
    ensures
        r@ == line_of(*n),
{
    let title = first_of(&n.fancy_title, &n.data.topic_title, "(no title)");
    let who = first_of(&n.data.display_username, &n.data.original_username, "unknown");
    let mut r = if n.read { " ".to_owned() } else { "\u{25cf} ".to_owned() };
    r.append(who.as_str());
    r.append(" ");
    r.append(type_label(n.notification_type));
    r.append(": ");
    r.append(title.as_str());
    r
}

/// The label of each notification type: mentions, replies, quotes, replies
/// to a topic (types 5 and 9), private messages, invitations to one, moved
/// posts, group mentions, watched topics and reactions; any other type is a
/// plain notification.
pub proof fn lemma_type_labels(t: u32)
    ensures
        type_label_of(1) == "mentioned you"@,
        type_label_of(2) == "replied to you"@,
        type_label_of(3) == "quoted you"@,
        type_label_of(5) == "replied to topic"@,
        type_label_of(9) == "replied to topic"@,
        type_label_of(6) == "private message"@,
        type_label_of(12) == "invited to private message"@,
        type_label_of(15) == "moved post"@,
        type_label_of(17) == "mentioned group"@,
        type_label_of(18) == "watching topic"@,
        type_label_of(25) == "reacted to post"@,
        !(t == 1 || t == 2 || t == 3 || t == 5 || t == 6 || t == 9 || t == 12 || t == 15 || t == 17
            || t == 18 || t == 25) ==> type_label_of(t) == "notification"@,
{
}

} // verus!
