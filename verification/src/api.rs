//! The parts of a Discourse forum's replies that the client reads.
use vstd::prelude::*;

verus! {

broadcast use vstd::seq_lib::group_seq_properties;

/// A forum category.
#[derive(Debug, Clone)]
pub struct Category {
    pub id: u64,
    pub name: String,
    /// Six hex digits, without `#`.
    pub color: String,
}

/// A user who posted in a topic.
#[derive(Debug, Clone, Copy)]
pub struct Poster {
    pub user_id: i64,
}

/// A forum user.
#[derive(Debug, Clone)]
pub struct User {
    pub id: i64,
    pub username: String,
}

/// A topic as the forum lists it.
#[derive(Debug, Clone)]
pub struct ApiTopic {
    pub id: u64,
    pub title: String,
    pub reply_count: u32,
    pub category_id: Option<u64>,
    /// The first poster is the topic's author.
    pub posters: Vec<Poster>,
}

/// The list of topics in a "latest" reply.
#[derive(Debug, Clone)]
pub struct TopicList {
    pub topics: Vec<ApiTopic>,
}

/// The forum's reply listing its latest topics, with the users they mention.
#[derive(Debug, Clone)]
pub struct LatestResponse {
    pub topic_list: TopicList,
    pub users: Vec<User>,
}

/// A post in a topic.
#[derive(Debug, Clone)]
pub struct Post {
    pub id: u64,
    pub username: String,
    pub created_at: String,
    /// The post rendered as HTML.
    pub cooked: String,
    /// The post's source text, where the forum sends it.
    pub raw: Option<String>,
    pub post_number: u32,
}

/// A chat channel.
#[derive(Debug, Clone)]
pub struct ChatChannel {
    pub id: u64,
    pub title: String,
}

/// A chat message.
#[derive(Debug, Clone)]
pub struct ChatMessage {
    pub id: u64,
    pub message: String,
    pub created_at: String,
    pub user: User,
}

/// The details a notification carries.
#[derive(Debug, Clone)]
pub struct NotificationData {
    pub topic_title: Option<String>,
    pub original_username: Option<String>,
    pub display_username: Option<String>,
}

/// A notification for the user.
#[derive(Debug, Clone)]
pub struct Notification {
    pub id: u64,
    pub notification_type: u32,
    pub read: bool,
    pub fancy_title: Option<String>,
    pub data: NotificationData,
}

/// How many categories the sidebar lists: the first ten at most.
pub open spec fn listed_category_count(n: nat) -> nat {
    if n < 10 { n } else { 10 }
}

/// The category colours that the sidebar reads can be read without cutting a character.
pub open spec fn category_colors_readable(categories: Seq<Category>) -> bool {
    forall|j: int| 0 <= j < listed_category_count(categories.len()) ==>
        crate::color::hex_color_splits_cleanly(#[trigger] categories[j].color@)
}

/// The name of the first category in `categories` with the id `id`.
pub open spec fn category_name_of(categories: Seq<Category>, id: u64) -> Option<Seq<char>>
    decreases categories.len(),
{
    if categories.len() == 0 {
        None
    } else if categories[0].id == id {
        Some(categories[0].name@)
    } else {
        category_name_of(categories.drop_first(), id)
    }
}

/// The name shown for a topic's category: the category's name, or
/// `uncategorized` when the topic has none or it is not among `categories`.
pub open spec fn topic_category_name(categories: Seq<Category>, category_id: Option<u64>) -> Seq<char> {
    match category_id {
        Some(id) => match category_name_of(categories, id) {
            Some(name) => name,
            None => "uncategorized"@,
        },
        None => "uncategorized"@,
    }
}

/// The username of the first user in `users` with the id `id`.
pub open spec fn username_of(users: Seq<User>, id: i64) -> Option<Seq<char>>
    decreases users.len(),
{
    if users.len() == 0 {
        None
    } else if users[0].id == id {
        Some(users[0].username@)
    } else {
        username_of(users.drop_first(), id)
    }
}

/// The name shown as a topic's author: the username of its first poster, or
/// `unknown` when it has no posters or that user is not among `users`.
pub open spec fn topic_author_name(users: Seq<User>, posters: Seq<Poster>) -> Seq<char> {
    if posters.len() == 0 {
        "unknown"@
    } else {
        match username_of(users, posters[0].user_id) {
            Some(name) => name,
            None => "unknown"@,
        }
    }
}

proof fn lemma_skip_step<A>(s: Seq<A>, i: int)
    requires
        0 <= i < s.len(),
    ensures
        s.skip(i).len() > 0,
        s.skip(i)[0] == s[i],
        s.skip(i).drop_first() =~= s.skip(i + 1),
{
}

/// Looks up the name of the category with the given id.
pub fn find_category_name(categories: &Vec<Category>, id: u64) -> (r: Option<String>)
    ensures
        r matches Some(name) ==> category_name_of(categories@, id) == Some(name@),
        r is None ==> category_name_of(categories@, id) is None,
{
    let n = categories.len();
    assert(categories@.skip(0) =~= categories@);
    for i in 0..n
        invariant
            n == categories.len(),
            category_name_of(categories@, id) == category_name_of(categories@.skip(i as int), id),
    {
        proof {
            lemma_skip_step(categories@, i as int);
        }
        if categories[i].id == id {
            return Some(categories[i].name.clone());
        }
    }
    assert(categories@.skip(n as int).len() == 0);
    None
}

/// The category name shown for a topic.
pub fn category_display_name(categories: &Vec<Category>, category_id: Option<u64>) -> (r: String)
    ensures
        r@ == topic_category_name(categories@, category_id),
{
    match category_id {
        Some(id) => match find_category_name(categories, id) {
            Some(name) => name,
            None => "uncategorized".to_owned(),
        },
        None => "uncategorized".to_owned(),
    }
}

/// Looks up the username of the user with the given id.
pub fn find_username(users: &Vec<User>, id: i64) -> (r: Option<String>)
    ensures
        r matches Some(name) ==> username_of(users@, id) == Some(name@),
        r is None ==> username_of(users@, id) is None,
{
    let n = users.len();
    assert(users@.skip(0) =~= users@);
    for i in 0..n
        invariant
            n == users.len(),
            username_of(users@, id) == username_of(users@.skip(i as int), id),
    {
        proof {
            lemma_skip_step(users@, i as int);
        }
        if users[i].id == id {
            return Some(users[i].username.clone());
        }
    }
    assert(users@.skip(n as int).len() == 0);
    None
}

/// The author name shown for a topic.
pub fn author_display_name(users: &Vec<User>, posters: &Vec<Poster>) -> (r: String)
    ensures
        r@ == topic_author_name(users@, posters@),
{
    if posters.len() == 0 {
        return "unknown".to_owned();
    }
    match find_username(users, posters[0].user_id) {
        Some(name) => name,
        None => "unknown".to_owned(),
    }
}

/// A topic's author is its first poster: when that poster's id first appears
/// among the users at `k`, the author shown is that user's name.
pub proof fn lemma_author_is_first_poster(users: Seq<User>, posters: Seq<Poster>, k: int)
    requires
        posters.len() > 0,
        0 <= k < users.len(),
        users[k].id == posters[0].user_id,
        forall|j: int| 0 <= j < k ==> users[j].id != posters[0].user_id,
    ensures
        topic_author_name(users, posters) == users[k].username@,
{
    lemma_username_at(users, posters[0].user_id, k);
}

/// A topic whose first poster is among no users, or that has no posters, is
/// shown as written by `unknown`.
pub proof fn lemma_author_unknown(users: Seq<User>, posters: Seq<Poster>)
    requires
        posters.len() > 0 ==> forall|j: int| 0 <= j < users.len() ==> users[j].id != posters[0].user_id,
    ensures
        topic_author_name(users, posters) == "unknown"@,
{
    if posters.len() > 0 {
        lemma_username_absent(users, posters[0].user_id);
    }
}

/// Later posters do not change the author shown for a topic.
pub proof fn lemma_author_ignores_later_posters(users: Seq<User>, posters: Seq<Poster>, more: Seq<Poster>)
    requires
        posters.len() > 0,
    ensures
        topic_author_name(users, posters + more) == topic_author_name(users, posters),
{
    assert((posters + more)[0] == posters[0]);
}

proof fn lemma_username_at(users: Seq<User>, id: i64, k: int)
    requires
        0 <= k < users.len(),
        users[k].id == id,
        forall|j: int| 0 <= j < k ==> users[j].id != id,
    ensures
        username_of(users, id) == Some(users[k].username@),
    decreases k,
{
    if k > 0 {
        assert(users[0].id != id);
        let r = users.drop_first();
        assert forall|j: int| 0 <= j < k - 1 implies r[j].id != id by {
            assert(r[j] == users[j + 1]);
        }
        lemma_username_at(r, id, k - 1);
    }
}

proof fn lemma_username_absent(users: Seq<User>, id: i64)
    requires
        forall|j: int| 0 <= j < users.len() ==> users[j].id != id,
    ensures
        username_of(users, id) is None,
    decreases users.len(),
{
    if users.len() > 0 {
        assert(users[0].id != id);
        let r = users.drop_first();
        assert forall|j: int| 0 <= j < r.len() implies r[j].id != id by {
            assert(r[j] == users[j + 1]);
        }
        lemma_username_absent(r, id);
    }
}

} // verus!
