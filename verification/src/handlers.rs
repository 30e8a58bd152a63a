//! What each key does on the screens of the multi-screen client, and how the
//! client takes in what it has fetched from the forum.
use vstd::prelude::*;

use crate::api::{self, Category, LatestResponse, Post};
use crate::app_simple::{
    AddForumState, App, AppScreen, ForumPickerMode, PaneFocus, SidebarItem, Topic, ViewFilter,
};
use crate::color::{self, Color};
use crate::config::{self, Forum};
use crate::list_state::{self, ListState};
use crate::text;

verus! {

broadcast use vstd::seq_lib::group_seq_properties;

/// A key the user pressed.
#[derive(Debug, Clone, Copy, PartialEq, Eq, Structural)]
pub enum Key {
    Char(char),
    Up,
    Down,
    Tab,
    Enter,
    Esc,
    Backspace,
    /// Any other key; it does nothing.
    Other,
}

/// What the caller has to do after a key was handled.
#[derive(Debug, Clone)]
pub enum Command {
    Nothing,
    /// End the program.
    Quit,
    /// Write the configuration to disk; a failure is ignored.
    SaveConfig,
    /// Write the configuration to disk (a failure is ignored), then fetch the
    /// forum's latest topics and categories: on success hand them to
    /// `forum_loaded`, on failure report it.
    SaveConfigAndLoadForum(Forum),
    /// Fetch the topic with this id from the current forum: on success hand
    /// its posts to `topic_loaded`, on failure report it.
    LoadTopic(u64),
}

/// The highlight after moving down (or up) in a list of `len` rows, from
/// `sel`, where no highlight counts as the first row.
pub open spec fn stepped(sel: Option<usize>, len: int, down: bool) -> usize {
    let i = match sel { Some(i) => i as int, None => 0 };
    (if down { list_state::wrap_next(i, len) } else { list_state::wrap_previous(i, len) }) as usize
}

/// `st` after moving down (or up) in a list of `len` rows: unchanged when the list is empty.
pub open spec fn list_stepped(st: ListState, len: int, down: bool) -> ListState {
    if len > 0 { list_state::selecting(st, Some(stepped(st.selected, len, down))) } else { st }
}

fn step(st: &mut ListState, len: usize, down: bool)
    ensures
        *final(st) == list_stepped(*old(st), len as int, down),
{
    if len > 0 {
        let i = match st.selected() {
            Some(i) => i,
            None => 0,
        };
        let j = if down { list_state::next_row(i, len) } else { list_state::previous_row(i, len) };
        st.select(Some(j));
    }
}

/// The key moves down (`j` or the down arrow).
pub open spec fn is_down(key: Key) -> bool {
    key == Key::Char('j') || key == Key::Down
}

/// The key moves up (`k` or the up arrow).
pub open spec fn is_up(key: Key) -> bool {
    key == Key::Char('k') || key == Key::Up
}

impl AddForumState {
    /// The text of field `k`: 0 name, 1 URL, 2 admin API key, 3 username.
    pub open spec fn field(self, k: int) -> Seq<char> {
        if k == 0 {
            self.name@
        } else if k == 1 {
            self.url@
        } else if k == 2 {
            self.api_key@
        } else {
            self.username@
        }
    }

    /// `after` is `self` with field `k` (of the four) changed to `text`, and nothing else changed.
    pub open spec fn field_set(self, after: Self, k: int, text: Seq<char>) -> bool {
        &&& after.active_field == self.active_field
        &&& after.user_api_key == self.user_api_key
        &&& after.error_message == self.error_message
        &&& forall|j: int| 0 <= j < 4 ==> #[trigger] after.field(j) == (if j == k { text } else { self.field(j) })
    }

    /// `after` is `self` with `c` typed into the active field; nothing changes
    /// when the active field is not one of the four.
    pub open spec fn typed(self, after: Self, c: char) -> bool {
        if self.active_field < 4 {
            self.field_set(after, self.active_field as int, self.field(self.active_field as int).push(c))
        } else {
            after == self
        }
    }

    /// `after` is `self` with the last character of the active field erased.
    pub open spec fn erased(self, after: Self) -> bool {
        if self.active_field < 4 {
            let t = self.field(self.active_field as int);
            self.field_set(after, self.active_field as int, if t.len() == 0 { t } else { t.drop_last() })
        } else {
            after == self
        }
    }

    fn type_char(&mut self, c: char)
        ensures
            old(self).typed(*final(self), c),
    {
        let k = self.active_field;
        if k == 0 {
            text::push_char(&mut self.name, c);
        } else if k == 1 {
            text::push_char(&mut self.url, c);
        } else if k == 2 {
            text::push_char(&mut self.api_key, c);
        } else if k == 3 {
            text::push_char(&mut self.username, c);
        }
        assert(old(self).typed(*self, c)) by {
            if k < 4 {
                assert(forall|j: int| 0 <= j < 4 ==> #[trigger] self.field(j) == (if j == k { old(self).field(k as int).push(c) } else { old(self).field(j) }));
            }
        }
    }

    fn erase_char(&mut self)
        ensures
            old(self).erased(*final(self)),
    {
        let k = self.active_field;
        if k == 0 {
            text::pop_char(&mut self.name);
        } else if k == 1 {
            text::pop_char(&mut self.url);
        } else if k == 2 {
            text::pop_char(&mut self.api_key);
        } else if k == 3 {
            text::pop_char(&mut self.username);
        }
        assert(old(self).erased(*self)) by {
            if k < 4 {
                let t = old(self).field(k as int);
                assert(forall|j: int| 0 <= j < 4 ==> #[trigger] self.field(j) == (if j == k { if t.len() == 0 { t } else { t.drop_last() } } else { old(self).field(j) }));
            }
        }
    }
}


/// `after` and `cmd` are what deleting the forum highlighted in the picker
/// gives: the forums with its id are gone (the configuration is then to be
/// saved), the current choice is cleared if it was that id, the form opens when
/// no forum is left, and the highlight moves to the last forum when it is past
/// the end.
pub open spec fn picker_deleted(app: App, after: App, cmd: Command) -> bool {
    match app.forum_picker_list_state.selected {
        Some(idx) => if idx < app.config.forums@.len() {
            let id = app.config.forums@[idx as int].id@;
            let left = config::without_id(app.config.forums@, id);
            &&& cmd is SaveConfig
            &&& after == (App {
                config: after.config,
                forum_picker_mode: after.forum_picker_mode,
                forum_picker_list_state: after.forum_picker_list_state,
                ..app
            })
            &&& after.config.forums@ == left
            &&& after.config.current.selected == config::selection_after_removal(app.config.current.selected, id)
            &&& after.forum_picker_mode == (if left.len() == 0 { ForumPickerMode::AddForum } else { app.forum_picker_mode })
            &&& after.forum_picker_list_state == (if left.len() != 0 && idx >= left.len() {
                list_state::selecting(app.forum_picker_list_state, Some((left.len() - 1) as usize))
            } else {
                app.forum_picker_list_state
            })
        } else {
            after == app && cmd is Nothing
        },
        None => after == app && cmd is Nothing,
    }
}

/// What a key does on the list of forums.
pub open spec fn picker_list_outcome(app: App, key: Key, after: App, cmd: Command) -> bool {
    let len = app.config.forums@.len() as int;
    if key == Key::Char('q') {
        cmd is Quit && after == app
    } else if key == Key::Char('1') {
        &&& cmd is Nothing
        &&& after == (if app.config.current.selected is Some { App { screen: AppScreen::MainScreen, ..app } } else { app })
    } else if is_down(key) || is_up(key) {
        &&& cmd is Nothing
        &&& after == (App {
            forum_picker_list_state: list_stepped(app.forum_picker_list_state, len, is_down(key)),
            ..app
        })
    } else if key == Key::Char('a') {
        &&& cmd is Nothing
        &&& after == (App {
            forum_picker_mode: ForumPickerMode::AddForum,
            add_forum_state: after.add_forum_state,
            ..app
        })
        &&& after.add_forum_state.is_blank()
    } else if key == Key::Char('d') {
        picker_deleted(app, after, cmd)
    } else if key == Key::Enter {
        match app.forum_picker_list_state.selected {
            Some(idx) => if idx < len {
                let forum = app.config.forums@[idx as int];
                &&& cmd == Command::SaveConfigAndLoadForum(forum)
                &&& after == (App { config: after.config, ..app })
                &&& after.config.forums == app.config.forums
                &&& after.config.current.selected == Some(forum.id)
            } else {
                cmd is Nothing && after == app
            },
            None => cmd is Nothing && after == app,
        }
    } else {
        cmd is Nothing && after == app
    }
}

/// What a key does on the form for a new forum.
pub open spec fn picker_form_outcome(app: App, key: Key, after: App, cmd: Command) -> bool {
    let form = app.add_forum_state;
    match key {
        Key::Char(c) => if c == 'q' {
            cmd is Quit && after == app
        } else {
            &&& cmd is Nothing
            &&& after == (App { add_forum_state: after.add_forum_state, ..app })
            &&& form.typed(after.add_forum_state, c)
        },
        Key::Backspace => {
            &&& cmd is Nothing
            &&& after == (App { add_forum_state: after.add_forum_state, ..app })
            &&& form.erased(after.add_forum_state)
        },
        Key::Tab => {
            &&& cmd is Nothing
            &&& after == (App {
                add_forum_state: AddForumState { active_field: ((form.active_field + 1) % 4) as usize, ..form },
                ..app
            })
        },
        Key::Enter => if form.name@.len() > 0 && form.url@.len() > 0 {
            &&& cmd matches Command::SaveConfigAndLoadForum(f)
            &&& config::is_form_forum(f, form.name@, form.url@, form.api_key@, form.username@)
            &&& after == (App { config: after.config, ..app })
            &&& after.config.forums@ == app.config.forums@.push(f)
            &&& after.config.current.selected == Some(f.id)
        } else {
            cmd is Nothing && after == app
        },
        Key::Esc => {
            &&& cmd is Nothing
            &&& after == (if app.config.forums@.len() > 0 {
                App { forum_picker_mode: ForumPickerMode::List, ..app }
            } else {
                app
            })
        },
        _ => cmd is Nothing && after == app,
    }
}

/// Handles a key on the forum picker: `q` quits; on the list, `1` goes to the
/// main screen when a forum is chosen, `j`/`k` move round the forums, `a`
/// opens the form, `d` deletes the highlighted forum and Enter chooses it and
/// loads it; on the form, characters go into the active field, Backspace
/// erases, Tab moves to the next field, Enter adds the forum and loads it, and
/// Esc goes back to the list when there is a forum.
pub fn handle_forum_picker_input(key: Key, app: &mut App) -> (cmd: Command)
    ensures
        old(app).forum_picker_mode == ForumPickerMode::List ==> picker_list_outcome(*old(app), key, *final(app), cmd),
        old(app).forum_picker_mode == ForumPickerMode::AddForum ==> picker_form_outcome(*old(app), key, *final(app), cmd),
{
    match app.forum_picker_mode {
        ForumPickerMode::List => {
            if key == Key::Char('q') {
                Command::Quit
            } else if key == Key::Char('1') {
                if app.config.current.selected.is_some() {
                    app.goto_screen(AppScreen::MainScreen);
                }
                Command::Nothing
            } else if key == Key::Char('j') || key == Key::Down || key == Key::Char('k') || key == Key::Up {
                let down = key == Key::Char('j') || key == Key::Down;
                let len = app.config.forums.len();
                step(&mut app.forum_picker_list_state, len, down);
                Command::Nothing
            } else if key == Key::Char('a') {
                app.forum_picker_mode = ForumPickerMode::AddForum;
                app.add_forum_state = AddForumState::default();
                Command::Nothing
            } else if key == Key::Char('d') {
                if let Some(idx) = app.forum_picker_list_state.selected() {
                    if idx < app.config.forums.len() {
                        let id = app.config.forums[idx].id.clone();
                        app.config.remove_forum(id.as_str());
                        if app.config.forums.len() == 0 {
                            app.forum_picker_mode = ForumPickerMode::AddForum;
                        } else if idx >= app.config.forums.len() {
                            let last = app.config.forums.len() - 1;
                            app.forum_picker_list_state.select(Some(last));
                        }
                        return Command::SaveConfig;
                    }
                }
                Command::Nothing
            } else if key == Key::Enter {
                if let Some(idx) = app.forum_picker_list_state.selected() {
                    if idx < app.config.forums.len() {
                        let forum = app.config.forums[idx].duplicate();
                        app.config.set_current_forum(forum.id.clone());
                        return Command::SaveConfigAndLoadForum(forum);
                    }
                }
                Command::Nothing
            } else {
                Command::Nothing
            }
        },
        ForumPickerMode::AddForum => match key {
            Key::Char(c) => {
                if c == 'q' {
                    Command::Quit
                } else {
                    app.add_forum_state.type_char(c);
                    Command::Nothing
                }
            },
            Key::Backspace => {
                app.add_forum_state.erase_char();
                Command::Nothing
            },
            Key::Tab => {
                let a = app.add_forum_state.active_field;
                assert((a % 4 + 1) % 4 == (a + 1) % 4) by (nonlinear_arith);
                app.add_forum_state.active_field = (a % 4 + 1) % 4;
                Command::Nothing
            },
            Key::Enter => {
                if !app.add_forum_state.name.as_str().is_empty() && !app.add_forum_state.url.as_str().is_empty() {
                    let forum = config::form_forum(
                        &app.add_forum_state.name,
                        &app.add_forum_state.url,
                        &app.add_forum_state.api_key,
                        &app.add_forum_state.username,
                    );
                    app.config.add_forum(forum.duplicate());
                    app.config.set_current_forum(forum.id.clone());
                    Command::SaveConfigAndLoadForum(forum)
                } else {
                    Command::Nothing
                }
            },
            Key::Esc => {
                if app.config.forums.len() > 0 {
                    app.forum_picker_mode = ForumPickerMode::List;
                }
                Command::Nothing
            },
            _ => Command::Nothing,
        },
    }
}


/// The number of rows of the main-screen pane with the keyboard.
pub open spec fn focused_len(app: App) -> int {
    match app.focus {
        PaneFocus::Sidebar => app.sidebar_items@.len() as int,
        PaneFocus::Topics => app.topics@.len() as int,
    }
}

/// `app` after moving the highlight of the focused pane down (or up).
pub open spec fn focused_stepped(app: App, down: bool) -> App {
    match app.focus {
        PaneFocus::Sidebar => App { sidebar_state: list_stepped(app.sidebar_state, focused_len(app), down), ..app },
        PaneFocus::Topics => App { topics_state: list_stepped(app.topics_state, focused_len(app), down), ..app },
    }
}

/// The other pane.
pub open spec fn other_pane(p: PaneFocus) -> PaneFocus {
    match p {
        PaneFocus::Sidebar => PaneFocus::Topics,
        PaneFocus::Topics => PaneFocus::Sidebar,
    }
}

/// The topics that `filter` shows out of `all`.
pub open spec fn filtered_topics(all: Seq<Topic>, categories: Seq<Category>, filter: ViewFilter) -> Seq<Topic> {
    match filter {
        ViewFilter::AllTopics => all,
        ViewFilter::MyPosts => all.filter(|t: Topic| t.author@ == "ducks"@),
        ViewFilter::MyMessages => Seq::empty(),
        ViewFilter::Category(i) => if i < categories.len() {
            all.filter(|t: Topic| t.category@ == categories[i as int].name@)
        } else {
            all
        },
        ViewFilter::Tag(_) => all,
    }
}

/// `after` is `app` once `filter` is applied: the topics it selects are shown,
/// and the first is highlighted if there is any.
pub open spec fn filter_applied(app: App, after: App, filter: ViewFilter) -> bool {
    &&& after == (App {
        current_filter: filter,
        topics: after.topics,
        topics_state: after.topics_state,
        ..app
    })
    &&& after.topics@ == filtered_topics(app.all_topics@, app.categories@, filter)
    &&& after.topics_state == (if after.topics@.len() > 0 {
        list_state::selecting(app.topics_state, Some(0usize))
    } else {
        app.topics_state
    })
}

/// What a key does on the main screen.
pub open spec fn main_screen_outcome(app: App, key: Key, after: App, cmd: Command) -> bool {
    if key == Key::Char('q') {
        cmd is Quit && after == app
    } else if key == Key::Char('5') || key == Key::Esc {
        cmd is Nothing && after == (App { screen: AppScreen::ForumPicker, ..app })
    } else if is_down(key) || is_up(key) {
        cmd is Nothing && after == focused_stepped(app, is_down(key))
    } else if key == Key::Tab {
        cmd is Nothing && after == (App { focus: other_pane(app.focus), ..app })
    } else if key == Key::Enter {
        match app.focus {
            PaneFocus::Sidebar => {
                &&& cmd is Nothing
                &&& match app.sidebar_state.selected {
                    Some(idx) => if idx < app.sidebar_items@.len() {
                        match app.sidebar_items@[idx as int].filter {
                            Some(f) => filter_applied(app, after, f),
                            None => after == app,
                        }
                    } else {
                        after == app
                    },
                    None => after == app,
                }
            },
            PaneFocus::Topics => {
                let idx = match app.topics_state.selected { Some(i) => i, None => 0 };
                &&& after == (App { selected_topic_idx: idx, ..app })
                &&& if idx < app.topics@.len() {
                    cmd == Command::LoadTopic(app.topics@[idx as int].id as u64)
                } else {
                    cmd is Nothing
                }
            },
        }
    } else {
        cmd is Nothing && after == app
    }
}

/// Handles a key on the main screen: `q` quits; `5` and Esc go to the forum
/// picker; `j`/`k` move round the focused pane; Tab switches panes; Enter on
/// the sidebar applies the highlighted entry's filter, and on the topics opens
/// the highlighted topic (the first when none is highlighted).
pub fn handle_main_screen_input(key: Key, app: &mut App) -> (cmd: Command)
    ensures
        main_screen_outcome(*old(app), key, *final(app), cmd),
{
    if key == Key::Char('q') {
        Command::Quit
    } else if key == Key::Char('5') {
        app.goto_screen(AppScreen::ForumPicker);
        Command::Nothing
    } else if key == Key::Char('j') || key == Key::Down || key == Key::Char('k') || key == Key::Up {
        let down = key == Key::Char('j') || key == Key::Down;
        match app.focus {
            PaneFocus::Sidebar => {
                let len = app.sidebar_items.len();
                step(&mut app.sidebar_state, len, down);
            },
            PaneFocus::Topics => {
                let len = app.topics.len();
                step(&mut app.topics_state, len, down);
            },
        }
        Command::Nothing
    } else if key == Key::Tab {
        app.focus = match app.focus {
            PaneFocus::Sidebar => PaneFocus::Topics,
            PaneFocus::Topics => PaneFocus::Sidebar,
        };
        Command::Nothing
    } else if key == Key::Enter {
        if app.focus == PaneFocus::Sidebar {
            if let Some(idx) = app.sidebar_state.selected() {
                if idx < app.sidebar_items.len() {
                    if let Some(filter) = app.sidebar_items[idx].filter {
                        apply_filter(app, filter);
                    }
                }
            }
            Command::Nothing
        } else {
            app.selected_topic_idx = match app.topics_state.selected() {
                Some(i) => i,
                None => 0,
            };
            if app.selected_topic_idx < app.topics.len() {
                Command::LoadTopic(app.topics[app.selected_topic_idx].id as u64)
            } else {
                Command::Nothing
            }
        }
    } else if key == Key::Esc {
        app.goto_screen(AppScreen::ForumPicker);
        Command::Nothing
    } else {
        Command::Nothing
    }
}

/// What a key does on the topic view.
pub open spec fn topic_view_outcome(app: App, key: Key, after: App, cmd: Command) -> bool {
    if key == Key::Char('q') {
        cmd is Quit && after == app
    } else if key == Key::Esc {
        cmd is Nothing && after == (App { screen: AppScreen::MainScreen, ..app })
    } else if is_down(key) || is_up(key) {
        &&& cmd is Nothing
        &&& after == (App {
            topic_posts_list_state: list_stepped(
                app.topic_posts_list_state,
                app.current_topic_posts@.len() as int,
                is_down(key),
            ),
            ..app
        })
    } else {
        cmd is Nothing && after == app
    }
}

/// Handles a key on the topic view: `q` quits, Esc goes back to the main
/// screen, and `j`/`k` move round the posts.
pub fn handle_topic_view_input(key: Key, app: &mut App) -> (cmd: Command)
    ensures
        topic_view_outcome(*old(app), key, *final(app), cmd),
{
    if key == Key::Char('q') {
        Command::Quit
    } else if key == Key::Esc {
        app.goto_screen(AppScreen::MainScreen);
        Command::Nothing
    } else if key == Key::Char('j') || key == Key::Down || key == Key::Char('k') || key == Key::Up {
        let down = key == Key::Char('j') || key == Key::Down;
        let len = app.current_topic_posts.len();
        step(&mut app.topic_posts_list_state, len, down);
        Command::Nothing
    } else {
        Command::Nothing
    }
}

fn copy_topics(topics: &Vec<Topic>) -> (r: Vec<Topic>)
    ensures
        r@ == topics@,
{
    let mut r: Vec<Topic> = Vec::new();
    for i in 0..topics.len()
        invariant
            r@ == topics@.take(i as int),
    {
        r.push(topics[i].duplicate());
        assert(topics@.take(i as int).push(topics@[i as int]) =~= topics@.take(i + 1));
    }
    assert(topics@.take(topics.len() as int) =~= topics@);
    r
}

fn topics_by_author(all: &Vec<Topic>, author: &str) -> (r: Vec<Topic>)
    ensures
        r@ == all@.filter(|t: Topic| t.author@ == author@),
{
    let ghost pred = |t: Topic| t.author@ == author@;
    let key = author.to_owned();
    let mut r: Vec<Topic> = Vec::new();
    for i in 0..all.len()
        invariant
            key@ == author@,
            pred == (|t: Topic| t.author@ == author@),
            r@ == all@.take(i as int).filter(pred),
    {
        assert(all@.take(i + 1) =~= all@.take(i as int).push(all@[i as int]));
        proof {
            all@.take(i as int).lemma_filter_push(all@[i as int], pred);
        }
        if all[i].author == key {
            r.push(all[i].duplicate());
        }
    }
    assert(all@.take(all.len() as int) =~= all@);
    r
}

fn topics_in_category(all: &Vec<Topic>, category: &str) -> (r: Vec<Topic>)
    ensures
        r@ == all@.filter(|t: Topic| t.category@ == category@),
{
    let ghost pred = |t: Topic| t.category@ == category@;
    let key = category.to_owned();
    let mut r: Vec<Topic> = Vec::new();
    for i in 0..all.len()
        invariant
            key@ == category@,
            pred == (|t: Topic| t.category@ == category@),
            r@ == all@.take(i as int).filter(pred),
    {
        assert(all@.take(i + 1) =~= all@.take(i as int).push(all@[i as int]));
        proof {
            all@.take(i as int).lemma_filter_push(all@[i as int], pred);
        }
        if all[i].category == key {
            r.push(all[i].duplicate());
        }
    }
    assert(all@.take(all.len() as int) =~= all@);
    r
}

/// Shows the topics that `filter` selects (all, those by `ducks`, none, those
/// of a category, or all for a tag) and highlights the first of them.
pub fn apply_filter(app: &mut App, filter: ViewFilter)
    ensures
        filter_applied(*old(app), *final(app), filter),
{
    app.current_filter = filter;
    app.topics = match filter {
        ViewFilter::AllTopics => copy_topics(&app.all_topics),
        ViewFilter::MyPosts => topics_by_author(&app.all_topics, "ducks"),
        ViewFilter::MyMessages => Vec::new(),
        ViewFilter::Category(cat_idx) => {
            if cat_idx < app.categories.len() {
                topics_in_category(&app.all_topics, app.categories[cat_idx].name.as_str())
            } else {
                copy_topics(&app.all_topics)
            }
        },
        ViewFilter::Tag(_) => copy_topics(&app.all_topics),
    };
    if app.topics.len() > 0 {
        app.topics_state.select(Some(0));
    }
}


/// `item` shows `label`, with the given unread count, colour and filter.
pub open spec fn item_is(
    item: SidebarItem,
    label: Seq<char>,
    unread: Option<usize>,
    color: Option<Color>,
    filter: Option<ViewFilter>,
) -> bool {
    &&& item.label@ == label
    &&& item.unread_count == unread
    &&& item.color == color
    &&& item.filter == filter
}

/// `items` is the sidebar built from `categories`: the fixed entries, one entry
/// per listed category (named with a square, coloured by its hex colour,
/// filtering by its index), and a closing "All categories".
pub open spec fn is_category_sidebar(items: Seq<SidebarItem>, categories: Seq<Category>) -> bool {
    let k = api::listed_category_count(categories.len()) as int;
    &&& items.len() == 6 + k
    &&& item_is(items[0], "Topics"@, None, None, Some(ViewFilter::AllTopics))
    &&& item_is(items[1], "My posts"@, None, None, Some(ViewFilter::MyPosts))
    &&& item_is(items[2], "My messages"@, None, None, Some(ViewFilter::MyMessages))
    &&& item_is(items[3], "New Topic"@, None, None, None)
    &&& item_is(items[4], "--- CATEGORIES ---"@, None, None, None)
    &&& forall|j: int| 0 <= j < k ==> item_is(
        #[trigger] items[5 + j],
        "\u{25a0} "@ + categories[j].name@,
        None,
        color::hex_color_of(categories[j].color@),
        Some(ViewFilter::Category(j as usize)),
    )
    &&& item_is(items[5 + k], "All categories"@, None, None, Some(ViewFilter::AllTopics))
}

/// `topic` is the list entry for the forum's topic `t`.
pub open spec fn converted_topic(
    topic: Topic,
    t: api::ApiTopic,
    categories: Seq<Category>,
    users: Seq<api::User>,
) -> bool {
    &&& topic.id == t.id as usize
    &&& topic.title@ == t.title@
    &&& topic.author@ == api::topic_author_name(users, t.posters@)
    &&& topic.category@ == api::topic_category_name(categories, t.category_id)
    &&& topic.replies == t.reply_count as usize
    &&& !topic.unread
}

/// `topics` are the list entries for the topics of `latest`, in order.
pub open spec fn converted_topics(
    topics: Seq<Topic>,
    latest: LatestResponse,
    categories: Seq<Category>,
) -> bool {
    &&& topics.len() == latest.topic_list.topics@.len()
    &&& forall|i: int| 0 <= i < topics.len() ==> converted_topic(
        #[trigger] topics[i],
        latest.topic_list.topics@[i],
        categories,
        latest.users@,
    )
}

fn sidebar_item(label: &str, filter: Option<ViewFilter>) -> (r: SidebarItem)
    ensures
        item_is(r, label@, None, None, filter),
{
    SidebarItem { label: label.to_owned(), unread_count: None, color: None, filter }
}

fn convert_topics(latest: &LatestResponse, categories: &Vec<Category>) -> (r: Vec<Topic>)
    ensures
        converted_topics(r@, *latest, categories@),
{
    let topics = &latest.topic_list.topics;
    let mut r: Vec<Topic> = Vec::new();
    for i in 0..topics.len()
        invariant
            topics == &latest.topic_list.topics,
            r@.len() == i,
            forall|j: int| 0 <= j < i ==> converted_topic(
                #[trigger] r@[j],
                latest.topic_list.topics@[j],
                categories@,
                latest.users@,
            ),
    {
        let t = &topics[i];
        let category = api::category_display_name(categories, t.category_id);
        let author = api::author_display_name(&latest.users, &t.posters);
        r.push(Topic {
            id: t.id as usize,
            title: t.title.clone(),
            author,
            category,
            replies: t.reply_count as usize,
            unread: false,
        });
    }
    r
}

fn category_sidebar(categories: &Vec<Category>) -> (items: Vec<SidebarItem>)
    requires
        api::category_colors_readable(categories@),
    ensures
        is_category_sidebar(items@, categories@),
{
    let mut items: Vec<SidebarItem> = Vec::new();
    items.push(sidebar_item("Topics", Some(ViewFilter::AllTopics)));
    items.push(sidebar_item("My posts", Some(ViewFilter::MyPosts)));
    items.push(sidebar_item("My messages", Some(ViewFilter::MyMessages)));
    items.push(sidebar_item("New Topic", None));
    items.push(sidebar_item("--- CATEGORIES ---", None));
    let k: usize = if categories.len() < 10 { categories.len() } else { 10 };
    for idx in 0..k
        invariant
            k == api::listed_category_count(categories@.len()),
            k <= categories@.len(),
            api::category_colors_readable(categories@),
            items@.len() == 5 + idx,
            item_is(items@[0], "Topics"@, None, None, Some(ViewFilter::AllTopics)),
            item_is(items@[1], "My posts"@, None, None, Some(ViewFilter::MyPosts)),
            item_is(items@[2], "My messages"@, None, None, Some(ViewFilter::MyMessages)),
            item_is(items@[3], "New Topic"@, None, None, None),
            item_is(items@[4], "--- CATEGORIES ---"@, None, None, None),
            forall|j: int| 0 <= j < idx ==> item_is(
                #[trigger] items@[5 + j],
                "\u{25a0} "@ + categories@[j].name@,
                None,
                color::hex_color_of(categories@[j].color@),
                Some(ViewFilter::Category(j as usize)),
            ),
    {
        let category = &categories[idx];
        assert(color::hex_color_splits_cleanly(categories@[idx as int].color@));
        let color = color::parse_color(category.color.as_str());
        let label = text::joined("\u{25a0} ", category.name.as_str());
        items.push(SidebarItem {
            label,
            unread_count: None,
            color,
            filter: Some(ViewFilter::Category(idx)),
        });
    }
    items.push(sidebar_item("All categories", Some(ViewFilter::AllTopics)));
    items
}

/// Takes in a forum's latest topics and its categories, as fetched: the
/// topics become list entries (with category and author names), all of them
/// shown; the sidebar lists the categories; the first rows are highlighted
/// and the sidebar has the keyboard.
pub fn load_forum_data(app: &mut App, latest: LatestResponse, categories: Vec<Category>)
    requires
        api::category_colors_readable(categories@),
    ensures
        *final(app) == (App {
            all_topics: final(app).all_topics,
            topics: final(app).topics,
            categories: final(app).categories,
            sidebar_items: final(app).sidebar_items,
            current_filter: ViewFilter::AllTopics,
            sidebar_state: list_state::selecting(old(app).sidebar_state, Some(0usize)),
            topics_state: list_state::selecting(old(app).topics_state, Some(0usize)),
            focus: PaneFocus::Sidebar,
            ..*old(app)
        }),
        converted_topics(final(app).all_topics@, latest, categories@),
        final(app).topics@ == final(app).all_topics@,
        final(app).categories@ == categories@,
        is_category_sidebar(final(app).sidebar_items@, categories@),
{
    app.all_topics = convert_topics(&latest, &categories);
    app.topics = copy_topics(&app.all_topics);
    let sidebar_items = category_sidebar(&categories);
    app.categories = categories;
    app.sidebar_items = sidebar_items;
    app.current_filter = ViewFilter::AllTopics;
    app.sidebar_state.select(Some(0));
    app.topics_state.select(Some(0));
    app.focus = PaneFocus::Sidebar;
}

/// Takes in the posts of a topic, as fetched, and highlights the first.
pub fn load_topic_posts(app: &mut App, posts: Vec<Post>)
    ensures
        *final(app) == (App {
            current_topic_posts: posts,
            topic_posts_list_state: list_state::selecting(old(app).topic_posts_list_state, Some(0usize)),
            ..*old(app)
        }),
{
    app.current_topic_posts = posts;
    app.topic_posts_list_state.select(Some(0));
}

/// The forum's latest topics and categories have arrived: takes them in and
/// shows the main screen.
pub fn forum_loaded(app: &mut App, latest: LatestResponse, categories: Vec<Category>)
    requires
        api::category_colors_readable(categories@),
    ensures
        *final(app) == (App {
            all_topics: final(app).all_topics,
            topics: final(app).topics,
            categories: final(app).categories,
            sidebar_items: final(app).sidebar_items,
            current_filter: ViewFilter::AllTopics,
            sidebar_state: list_state::selecting(old(app).sidebar_state, Some(0usize)),
            topics_state: list_state::selecting(old(app).topics_state, Some(0usize)),
            focus: PaneFocus::Sidebar,
            screen: AppScreen::MainScreen,
            ..*old(app)
        }),
        converted_topics(final(app).all_topics@, latest, categories@),
        final(app).topics@ == final(app).all_topics@,
        final(app).categories@ == categories@,
        is_category_sidebar(final(app).sidebar_items@, categories@),
{
    load_forum_data(app, latest, categories);
    app.goto_screen(AppScreen::MainScreen);
}

/// A topic's posts have arrived: takes them in and shows the topic view.
pub fn topic_loaded(app: &mut App, posts: Vec<Post>)
    ensures
        *final(app) == (App {
            current_topic_posts: posts,
            topic_posts_list_state: list_state::selecting(old(app).topic_posts_list_state, Some(0usize)),
            screen: AppScreen::TopicView,
            ..*old(app)
        }),
{
    load_topic_posts(app, posts);
    app.goto_screen(AppScreen::TopicView);
}

/// The address a forum is reached at: its URL when it names `http://` or
/// `https://`, else the URL after `https://`.
pub open spec fn base_url_of(url: Seq<char>) -> Seq<char> {
    if "http://"@.is_prefix_of(url) || "https://"@.is_prefix_of(url) {
        url
    } else {
        "https://"@ + url
    }
}

/// The address a forum is reached at.
pub fn forum_base_url(url: &str) -> (r: String)
    ensures
        r@ == base_url_of(url@),
{
    if !text::starts_with(url, "http://") && !text::starts_with(url, "https://") {
        text::joined("https://", url)
    } else {
        url.to_owned()
    }
}

/// The admin API key and username to sign requests with: both, when the
/// forum has both, else none (the forum is then read anonymously).
pub fn forum_credentials(forum: &Forum) -> (r: Option<(String, String)>)
    ensures
        r matches Some((key, user)) ==> forum.api_key == Some(key) && forum.username == Some(user),
        r is None ==> forum.api_key is None || forum.username is None,
{
    match (&forum.api_key, &forum.username) {
        (Some(api_key), Some(username)) => Some((api_key.clone(), username.clone())),
        _ => None,
    }
}


/// Moving down and then up a list (or up and then down) comes back to the
/// highlighted row, when a row of the list is highlighted.
pub proof fn lemma_step_round_trip(st: ListState, len: int)
    requires
        st.selected matches Some(i) && i < len,
        len <= usize::MAX,
    ensures
        list_stepped(list_stepped(st, len, true), len, false) == st,
        list_stepped(list_stepped(st, len, false), len, true) == st,
{
    let i = st.selected->0 as int;
    list_state::lemma_wrap_round_trip(i, len);
    assert(list_state::wrap_next(i, len) as usize as int == list_state::wrap_next(i, len));
    assert(list_state::wrap_previous(i, len) as usize as int == list_state::wrap_previous(i, len));
}

/// Moving through a non-empty list leaves the highlight on one of its rows:
/// always when moving down, and when moving up from a row of the list or from
/// no highlight.
pub proof fn lemma_step_stays_in_list(st: ListState, len: int, down: bool)
    requires
        0 < len <= usize::MAX,
        !down ==> (st.selected matches Some(i) ==> i < len),
    ensures
        list_stepped(st, len, down).selected matches Some(j) && j < len,
{
    let i = match st.selected { Some(i) => i as int, None => 0 };
    if down {
        assert(0 <= list_state::wrap_next(i, len) < len);
    } else {
        list_state::lemma_wrap_round_trip(i, len);
    }
}

/// Typing a character into the form and erasing it gives back the form as it was.
pub proof fn lemma_form_type_then_erase(a: AddForumState, b: AddForumState, c: char, d: AddForumState)
    requires
        a.typed(b, c),
        b.erased(d),
    ensures
        d.active_field == a.active_field,
        d.user_api_key == a.user_api_key,
        d.error_message == a.error_message,
        forall|j: int| 0 <= j < 4 ==> #[trigger] d.field(j) == a.field(j),
{
    if a.active_field < 4 {
        let k = a.active_field as int;
        assert(b.field(k) == a.field(k).push(c));
        assert(b.field(k).drop_last() =~= a.field(k));
        assert forall|j: int| 0 <= j < 4 implies #[trigger] d.field(j) == a.field(j) by {
            assert(b.field(j) == (if j == k { a.field(k).push(c) } else { a.field(j) }));
        }
    }
}

/// After the highlighted forum is deleted, the highlight is still on a forum
/// whenever any is left.
pub proof fn lemma_picker_delete_keeps_highlight(app: App, after: App, cmd: Command)
    requires
        picker_deleted(app, after, cmd),
        app.forum_picker_list_state.selected matches Some(i) && i < app.config.forums@.len(),
    ensures
        after.config.forums@.len() > 0 ==> (after.forum_picker_list_state.selected matches Some(j)
            && j < after.config.forums@.len()),
{
}

/// The address of a forum names its scheme, and working it out again changes nothing.
pub proof fn lemma_base_url_settled(url: Seq<char>)
    ensures
        "http://"@.is_prefix_of(base_url_of(url)) || "https://"@.is_prefix_of(base_url_of(url)),
        base_url_of(base_url_of(url)) == base_url_of(url),
{
    let p = "https://"@;
    assert((p + url).take(p.len() as int) =~= p);
}

/// `t` and `u` are the same topic, as each of the two clients lists it.
pub open spec fn same_topic(t: Topic, u: crate::app::Topic) -> bool {
    &&& t.id == u.id
    &&& t.title@ == u.title@
    &&& t.author@ == u.author@
    &&& t.category@ == u.category@
    &&& t.replies == u.replies
    &&& t.unread == u.unread
}

/// `a` and `b` list the same topics in the same order.
pub open spec fn same_topics(a: Seq<Topic>, b: Seq<crate::app::Topic>) -> bool {
    &&& a.len() == b.len()
    &&& forall|i: int| 0 <= i < a.len() ==> same_topic(#[trigger] a[i], b[i])
}

/// `f` and `g` are the same filter, as each of the two clients names it.
pub open spec fn same_filter(f: ViewFilter, g: crate::app::ViewFilter) -> bool {
    match (f, g) {
        (ViewFilter::AllTopics, crate::app::ViewFilter::AllTopics) => true,
        (ViewFilter::MyPosts, crate::app::ViewFilter::MyPosts) => true,
        (ViewFilter::MyMessages, crate::app::ViewFilter::MyMessages) => true,
        (ViewFilter::Category(i), crate::app::ViewFilter::Category(j)) => i == j,
        (ViewFilter::Tag(i), crate::app::ViewFilter::Tag(j)) => i == j,
        _ => false,
    }
}

proof fn lemma_same_filtered(
    a: Seq<Topic>,
    b: Seq<crate::app::Topic>,
    p: spec_fn(Topic) -> bool,
    q: spec_fn(crate::app::Topic) -> bool,
)
    requires
        same_topics(a, b),
        forall|i: int| 0 <= i < a.len() ==> p(#[trigger] a[i]) == q(b[i]),
    ensures
        same_topics(a.filter(p), b.filter(q)),
    decreases a.len(),
{
    reveal_with_fuel(Seq::filter, 1);
    if a.len() > 0 {
        let (ra, rb) = (a.drop_last(), b.drop_last());
        assert forall|i: int| 0 <= i < ra.len() implies same_topic(#[trigger] ra[i], rb[i]) && p(ra[i]) == q(rb[i]) by {
            assert(same_topic(a[i], b[i]));
            assert(p(a[i]) == q(b[i]));
        }
        lemma_same_filtered(ra, rb, p, q);
        assert(same_topic(a[a.len() - 1], b[b.len() - 1]));
        assert(p(a[a.len() - 1]) == q(b[b.len() - 1]));
        let (fa, fb) = (ra.filter(p), rb.filter(q));
        if p(a.last()) {
            assert forall|i: int| 0 <= i < fa.len() + 1 implies same_topic(#[trigger] fa.push(a.last())[i], fb.push(b.last())[i]) by {
                if i < fa.len() {
                    assert(same_topic(fa[i], fb[i]));
                }
            }
        }
    }
}

/// The two clients show the same topics for the same filter: from the same
/// topics, categories and highlight, applying the same filter leaves both with
/// the same topic list, the same highlight and the same filter.
pub proof fn lemma_both_clients_filter_alike(
    a: App,
    a2: App,
    b: crate::app::App,
    b2: crate::app::App,
    f: ViewFilter,
    g: crate::app::ViewFilter,
)
    requires
        filter_applied(a, a2, f),
        b.filter_applied(b2, g),
        same_topics(a.all_topics@, b.all_topics@),
        a.categories@ == b.categories@,
        a.topics_state == b.topics_state,
        same_filter(f, g),
    ensures
        same_topics(a2.topics@, b2.topics@),
        a2.topics_state == b2.topics_state,
        same_filter(a2.current_filter, b2.current_filter),
{
    let (ta, tb) = (a.all_topics@, b.all_topics@);
    match f {
        ViewFilter::MyPosts => {
            let p = |t: Topic| t.author@ == "ducks"@;
            let q = |t: crate::app::Topic| t.author@ == "ducks"@;
            assert forall|i: int| 0 <= i < ta.len() implies p(#[trigger] ta[i]) == q(tb[i]) by {
                assert(same_topic(ta[i], tb[i]));
            }
            lemma_same_filtered(ta, tb, p, q);
        },
        ViewFilter::MyMessages => {},
        ViewFilter::Category(i) => {
            if i < a.categories@.len() {
                let p = |t: Topic| t.category@ == a.categories@[i as int].name@;
                let q = |t: crate::app::Topic| t.category@ == b.categories@[i as int].name@;
                assert forall|k: int| 0 <= k < ta.len() implies p(#[trigger] ta[k]) == q(tb[k]) by {
                    assert(same_topic(ta[k], tb[k]));
                }
                lemma_same_filtered(ta, tb, p, q);
            }
        },
        _ => {},
    }
}

} // verus!
