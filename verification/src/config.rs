use vstd::prelude::*;

use crate::text;

verus! {

broadcast use vstd::seq_lib::group_seq_properties;

/// One Discourse forum the user has set up.
#[derive(Debug, Clone)]
pub struct Forum {
    pub id: String,
    pub name: String,
    pub url: String,
    pub api_key: Option<String>,
    pub username: Option<String>,
}

/// Which forum, by id, is the current one.
#[derive(Debug, Clone)]
pub struct CurrentForum {
    pub selected: Option<String>,
}

/// The saved configuration: the known forums and the current choice.
#[derive(Debug, Clone)]
pub struct Config {
    pub current: CurrentForum,
    pub forums: Vec<Forum>,
}

/// A copy of an optional string.
pub fn copy_opt_string(s: &Option<String>) -> (r: Option<String>)
    ensures
        r == *s,
{
    match s {
        Some(v) => Some(v.clone()),
        None => None,
    }
}

impl Forum {
    /// A field-for-field copy of the forum.
    pub fn duplicate(&self) -> (r: Forum)
        ensures
            r == *self,
    {
        Forum {
            id: self.id.clone(),
            name: self.name.clone(),
            url: self.url.clone(),
            api_key: copy_opt_string(&self.api_key),
            username: copy_opt_string(&self.username),
        }
    }
}

/// `i` is the first position in `forums` whose forum has the id `id`.
pub open spec fn is_first_with_id(forums: Seq<Forum>, id: Seq<char>, i: int) -> bool {
    &&& 0 <= i < forums.len()
    &&& forums[i].id@ == id
    &&& forall|j: int| 0 <= j < i ==> forums[j].id@ != id
}

/// Some forum in `forums` has the id `id`.
pub open spec fn has_forum_id(forums: Seq<Forum>, id: Seq<char>) -> bool {
    exists|i: int| 0 <= i < forums.len() && forums[i].id@ == id
}

/// The forums of `forums` whose id is not `id`, in their order.
pub open spec fn without_id(forums: Seq<Forum>, id: Seq<char>) -> Seq<Forum> {
    forums.filter(|f: Forum| f.id@ != id)
}

/// The current selection after the forum with id `id` is removed: cleared if it named that forum.
pub open spec fn selection_after_removal(selected: Option<String>, id: Seq<char>) -> Option<String> {
    match selected {
        Some(s) => if s@ == id { None } else { Some(s) },
        None => None,
    }
}

impl Config {
    /// Appends a forum to the list.
    pub fn add_forum(&mut self, forum: Forum)
        ensures
            final(self).forums@ == old(self).forums@.push(forum),
            final(self).current == old(self).current,
    {
        self.forums.push(forum);
    }

    /// Removes every forum with the id `id`, and clears the current choice if it was that id.
    pub fn remove_forum(&mut self, id: &str)
        ensures
            final(self).forums@ == without_id(old(self).forums@, id@),
            final(self).current.selected == selection_after_removal(old(self).current.selected, id@),
    {
        let key = id.to_owned();
        let ghost pred = |f: Forum| f.id@ != id@;
        let mut kept: Vec<Forum> = Vec::new();
        let n = self.forums.len();
        for i in 0..n
            invariant
                n == self.forums.len(),
                self.forums == old(self).forums,
                self.current == old(self).current,
                key@ == id@,
                pred == (|f: Forum| f.id@ != id@),
                kept@ == self.forums@.take(i as int).filter(pred),
        {
            let ghost before = self.forums@.take(i as int);
            assert(self.forums@.take(i + 1) =~= before.push(self.forums@[i as int]));
            proof {
                before.lemma_filter_push(self.forums@[i as int], pred);
            }
            if !(self.forums[i].id == key) {
                kept.push(self.forums[i].duplicate());
            }
        }
        assert(self.forums@.take(n as int) =~= self.forums@);
        self.forums = kept;
        let clear = match &self.current.selected {
            Some(s) => *s == key,
            None => false,
        };
        if clear {
            self.current.selected = None;
        }
    }

    /// The forum whose id is the current choice (the first such, if several share it).
    pub fn get_current_forum(&self) -> (r: Option<&Forum>)
        ensures
            self.current.selected is None ==> r is None,
            self.current.selected matches Some(sel) ==> {
                &&& (r is None <==> !has_forum_id(self.forums@, sel@))
                &&& (r matches Some(f) ==> exists|i: int|
                    is_first_with_id(self.forums@, sel@, i) && *f == self.forums@[i])
            },
    {
        let selected = match &self.current.selected {
            Some(s) => s,
            None => return None,
        };
        let n = self.forums.len();
        for i in 0..n
            invariant
                n == self.forums.len(),
                self.current.selected == Some(*selected),
                forall|j: int| 0 <= j < i ==> self.forums@[j].id@ != selected@,
        {
            if self.forums[i].id == *selected {
                assert(is_first_with_id(self.forums@, selected@, i as int));
                return Some(&self.forums[i]);
            }
        }
        None
    }

    /// Makes `id` the current choice.
    pub fn set_current_forum(&mut self, id: String)
        ensures
            final(self).current.selected == Some(id),
            final(self).forums == old(self).forums,
    {
        self.current.selected = Some(id);
    }
}

/// The id given to a forum named `name`: the name in lower case, with each space turned into `-`.
pub open spec fn forum_id_of(name: Seq<char>) -> Seq<char> {
    text::lowercase_of(name).map_values(|c: char| if c == ' ' { '-' } else { c })
}

/// An optional text from a form field: `None` when the field is empty.
pub open spec fn optional_field(s: Seq<char>) -> Option<Seq<char>> {
    if s.len() == 0 { None } else { Some(s) }
}

/// The view of an optional string.
pub open spec fn opt_view(s: Option<String>) -> Option<Seq<char>> {
    match s {
        Some(v) => Some(v@),
        None => None,
    }
}

/// `forum` is the forum described by a filled-in form.
pub open spec fn is_form_forum(
    forum: Forum,
    name: Seq<char>,
    url: Seq<char>,
    api_key: Seq<char>,
    username: Seq<char>,
) -> bool {
    &&& forum.id@ == forum_id_of(name)
    &&& forum.name@ == name
    &&& forum.url@ == url
    &&& opt_view(forum.api_key) == optional_field(api_key)
    &&& opt_view(forum.username) == optional_field(username)
}

/// The id for a forum named `name`.
pub fn forum_id(name: &str) -> (id: String)
    ensures
        id@ == forum_id_of(name@),
{
    let lower = text::to_lowercase(name);
    let chars = text::chars_of(lower.as_str());
    let mut out: Vec<char> = Vec::new();
    for i in 0..chars.len()
        invariant
            chars@ == text::lowercase_of(name@),
            out@ == chars@.take(i as int).map_values(|c: char| if c == ' ' { '-' } else { c }),
    {
        let c = chars[i];
        out.push(if c == ' ' { '-' } else { c });
        assert(chars@.take(i + 1) =~= chars@.take(i as int).push(c));
    }
    assert(chars@.take(chars.len() as int) =~= chars@);
    text::string_of(&out)
}

fn optional(s: &String) -> (r: Option<String>)
    ensures
        opt_view(r) == optional_field(s@),
{
    if s.as_str().is_empty() { None } else { Some(s.clone()) }
}

/// The forum that a filled-in form describes; empty optional fields give `None`.
pub fn form_forum(name: &String, url: &String, api_key: &String, username: &String) -> (f: Forum)
    ensures
        is_form_forum(f, name@, url@, api_key@, username@),
{
    Forum {
        id: forum_id(name.as_str()),
        name: name.clone(),
        url: url.clone(),
        api_key: optional(api_key),
        username: optional(username),
    }
}

/// After the forums with an id are removed, no forum with that id is left,
/// and every forum left was there before.
pub proof fn lemma_removed_id_is_gone(forums: Seq<Forum>, id: Seq<char>)
    ensures
        !has_forum_id(without_id(forums, id), id),
        forall|i: int| 0 <= i < without_id(forums, id).len() ==> forums.contains(#[trigger] without_id(forums, id)[i]),
{
    broadcast use vstd::seq_lib::group_filter_ensures, vstd::seq::Seq::lemma_filter_contains_rev;
    let w = without_id(forums, id);
    assert forall|i: int| 0 <= i < w.len() implies forums.contains(#[trigger] w[i]) by {
        assert(w.contains(w[i]));
    }
}

/// Removing the forums with an id keeps every forum with another id.
pub proof fn lemma_other_forums_stay(forums: Seq<Forum>, id: Seq<char>, f: Forum)
    requires
        forums.contains(f),
        f.id@ != id,
    ensures
        without_id(forums, id).contains(f),
{
    let i = forums.index_of(f);
    forums.lemma_filter_contains(|g: Forum| g.id@ != id, i);
}

/// A forum added to the list and made the current choice is what the current
/// choice then finds: the first forum with its id.
pub proof fn lemma_added_forum_is_found(forums: Seq<Forum>, f: Forum)
    ensures
        has_forum_id(forums.push(f), f.id@),
        exists|i: int| is_first_with_id(forums.push(f), f.id@, i),
{
    let all = forums.push(f);
    assert(all[forums.len() as int] == f);
    if has_forum_id(forums, f.id@) {
        let k = choose|k: int| 0 <= k < forums.len() && forums[k].id@ == f.id@;
        lemma_first_exists(all, f.id@, k);
    } else {
        assert(is_first_with_id(all, f.id@, forums.len() as int));
    }
}

proof fn lemma_first_exists(forums: Seq<Forum>, id: Seq<char>, k: int)
    requires
        0 <= k < forums.len(),
        forums[k].id@ == id,
    ensures
        exists|i: int| is_first_with_id(forums, id, i),
    decreases k,
{
    if exists|j: int| 0 <= j < k && forums[j].id@ == id {
        let j = choose|j: int| 0 <= j < k && forums[j].id@ == id;
        lemma_first_exists(forums, id, j);
    } else {
        assert(is_first_with_id(forums, id, k));
    }
}

impl Default for Config {
    /// No forums and no current choice.
    fn default() -> (r: Self)
        ensures
            r.current.selected is None,
            r.forums@ == Seq::<Forum>::empty(),
    {
        Config { current: CurrentForum { selected: None }, forums: Vec::new() }
    }
}

} // verus!
