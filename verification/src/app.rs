//! The single-window client: forum picker, forum form, topic list and topic view.
use vstd::prelude::*;

use crate::api::{self, Category, LatestResponse};
use crate::color::{self, Color};
use crate::config::{self, Config};
use crate::list_state::{self, ListState};
use crate::text;

verus! {

broadcast use vstd::seq_lib::group_seq_properties;

/// Which of the two panes of the topic list has the keyboard.
#[derive(Debug, Clone, Copy, PartialEq, Eq, Structural)]
pub enum PaneFocus {
    Sidebar,
    Topics,
}

/// The screen on show.
#[derive(Debug, Clone, Copy, PartialEq, Eq, Structural)]
pub enum Screen {
    ForumPicker,
    AddForum,
    TopicList,
    TopicView,
}

/// Which topics the topic list shows.
#[derive(Debug, Clone, Copy, PartialEq, Eq, Structural)]
pub enum ViewFilter {
    AllTopics,
    MyPosts,
    MyMessages,
    /// Index into the categories.
    Category(usize),
    Tag(usize),
}

/// One line of the sidebar.
#[derive(Debug, Clone)]
pub struct SidebarItem {
    pub label: String,
    pub unread_count: Option<usize>,
    pub color: Option<Color>,
    pub filter: Option<ViewFilter>,
}

/// A topic as the topic list shows it.
#[derive(Debug, Clone)]
pub struct Topic {
    pub id: usize,
    pub title: String,
    pub author: String,
    pub category: String,
    pub replies: usize,
    pub unread: bool,
}

/// The client's whole state.
pub struct App {
    pub screen: Screen,
    pub focus: PaneFocus,
    pub sidebar_state: ListState,
    pub topics_state: ListState,
    pub sidebar_items: Vec<SidebarItem>,
    pub topics: Vec<Topic>,
    pub current_filter: ViewFilter,
    pub all_topics: Vec<Topic>,
    pub categories: Vec<Category>,
    pub config: Config,
    pub forum_picker_state: ListState,
    pub add_forum_inputs: AddForumInputs,
}

/// The text typed into the form for a new forum.
#[derive(Debug, Clone)]
pub struct AddForumInputs {
    pub name: String,
    pub url: String,
    pub api_key: String,
    pub username: String,
    /// 0 = name, 1 = url, 2 = api key, 3 = username.
    pub active_field: usize,
}

/// What the caller has to do after a key was handled.
#[derive(Debug, Clone, Copy, PartialEq, Eq, Structural)]
pub enum Effect {
    Nothing,
    /// Write the configuration to disk.
    SaveConfig,
    /// Write the configuration to disk and, once it is written, show the topic list.
    SaveConfigThenShowTopics,
}

impl Default for AddForumInputs {
    /// An empty form, on the name field.
    fn default() -> (r: Self)
        ensures
            r.is_blank(),
    {
        AddForumInputs {
            name: String::new(),
            url: String::new(),
            api_key: String::new(),
            username: String::new(),
            active_field: 0,
        }
    }
}

impl AddForumInputs {
    /// Every field empty, and the name field active.
    pub open spec fn is_blank(self) -> bool {
        &&& self.name@.len() == 0
        &&& self.url@.len() == 0
        &&& self.api_key@.len() == 0
        &&& self.username@.len() == 0
        &&& self.active_field == 0
    }

    /// The text of field `k`.
    pub open spec fn field(self, k: int) -> Seq<char> {
        if k == 0 {
            self.name@
        } else if k == 1 {
            self.url@
        } else if k == 2 {
            self.api_key@
        } else {
            self.username@
        }
    }

    /// `after` is `self` with field `k` (one of the four) changed to `text` and nothing else changed.
    pub open spec fn field_set(self, after: Self, k: int, text: Seq<char>) -> bool {
        &&& after.active_field == self.active_field
        &&& forall|j: int| 0 <= j < 4 ==> #[trigger] after.field(j) == (if j == k { text } else { self.field(j) })
    }

    /// `after` is `self` with `c` typed into the active field; nothing changes
    /// when the active field is not one of the four.
    pub open spec fn typed(self, after: Self, c: char) -> bool {
        if self.active_field < 4 {
            self.field_set(after, self.active_field as int, self.field(self.active_field as int).push(c))
        } else {
            after == self
        }
    }

    /// `after` is `self` with the last character of the active field erased.
    pub open spec fn erased(self, after: Self) -> bool {
        if self.active_field < 4 {
            let t = self.field(self.active_field as int);
            self.field_set(after, self.active_field as int, if t.len() == 0 { t } else { t.drop_last() })
        } else {
            after == self
        }
    }

    /// Types `c` into the active field.
    fn type_char(&mut self, c: char)
        ensures
            old(self).typed(*final(self), c),
    {
        let k = self.active_field;
        if k == 0 {
            text::push_char(&mut self.name, c);
        } else if k == 1 {
            text::push_char(&mut self.url, c);
        } else if k == 2 {
            text::push_char(&mut self.api_key, c);
        } else if k == 3 {
            text::push_char(&mut self.username, c);
        }
        assert(old(self).typed(*self, c)) by {
            if k < 4 {
                assert(forall|j: int| 0 <= j < 4 ==> #[trigger] self.field(j) == (if j == k { old(self).field(k as int).push(c) } else { old(self).field(j) }));
            }
        }
    }

    /// Erases the last character of the active field.
    fn erase_char(&mut self)
        ensures
            old(self).erased(*final(self)),
    {
        let k = self.active_field;
        if k == 0 {
            text::pop_char(&mut self.name);
        } else if k == 1 {
            text::pop_char(&mut self.url);
        } else if k == 2 {
            text::pop_char(&mut self.api_key);
        } else if k == 3 {
            text::pop_char(&mut self.username);
        }
        assert(old(self).erased(*self)) by {
            if k < 4 {
                let t = old(self).field(k as int);
                assert(forall|j: int| 0 <= j < 4 ==> #[trigger] self.field(j) == (if j == k { if t.len() == 0 { t } else { t.drop_last() } } else { old(self).field(j) }));
            }
        }
    }
}


/// `item` shows `label`, with the given unread count, colour and filter.
pub open spec fn item_is(
    item: SidebarItem,
    label: Seq<char>,
    unread: Option<usize>,
    color: Option<Color>,
    filter: Option<ViewFilter>,
) -> bool {
    &&& item.label@ == label
    &&& item.unread_count == unread
    &&& item.color == color
    &&& item.filter == filter
}

/// `items` is the sidebar built from `categories`: the fixed entries, one entry
/// per listed category (named with a square, coloured by its hex colour,
/// filtering by its index), and a closing "All categories".
pub open spec fn is_category_sidebar(items: Seq<SidebarItem>, categories: Seq<Category>) -> bool {
    let k = api::listed_category_count(categories.len()) as int;
    &&& items.len() == 6 + k
    &&& item_is(items[0], "Topics"@, None, None, Some(ViewFilter::AllTopics))
    &&& item_is(items[1], "My posts"@, None, None, Some(ViewFilter::MyPosts))
    &&& item_is(items[2], "My messages"@, None, None, Some(ViewFilter::MyMessages))
    &&& item_is(items[3], "New Topic"@, None, None, None)
    &&& item_is(items[4], "--- CATEGORIES ---"@, None, None, None)
    &&& forall|j: int| 0 <= j < k ==> item_is(
        #[trigger] items[5 + j],
        "\u{25a0} "@ + categories[j].name@,
        None,
        color::hex_color_of(categories[j].color@),
        Some(ViewFilter::Category(j as usize)),
    )
    &&& item_is(items[5 + k], "All categories"@, None, None, Some(ViewFilter::AllTopics))
}

/// `topic` is the list entry for the forum's topic `t`.
pub open spec fn converted_topic(
    topic: Topic,
    t: api::ApiTopic,
    categories: Seq<Category>,
    users: Seq<api::User>,
) -> bool {
    &&& topic.id == t.id as usize
    &&& topic.title@ == t.title@
    &&& topic.author@ == api::topic_author_name(users, t.posters@)
    &&& topic.category@ == api::topic_category_name(categories, t.category_id)
    &&& topic.replies == t.reply_count as usize
    &&& !topic.unread
}

/// `topics` are the list entries for the topics of `latest`, in order.
pub open spec fn converted_topics(
    topics: Seq<Topic>,
    latest: LatestResponse,
    categories: Seq<Category>,
) -> bool {
    &&& topics.len() == latest.topic_list.topics@.len()
    &&& forall|i: int| 0 <= i < topics.len() ==> converted_topic(
        #[trigger] topics[i],
        latest.topic_list.topics@[i],
        categories,
        latest.users@,
    )
}

/// The topics that `filter` shows out of `all`.
pub open spec fn filtered_topics(all: Seq<Topic>, categories: Seq<Category>, filter: ViewFilter) -> Seq<Topic> {
    match filter {
        ViewFilter::AllTopics => all,
        ViewFilter::MyPosts => all.filter(|t: Topic| t.author@ == "ducks"@),
        ViewFilter::MyMessages => Seq::empty(),
        ViewFilter::Category(i) => if i < categories.len() {
            all.filter(|t: Topic| t.category@ == categories[i as int].name@)
        } else {
            all
        },
        ViewFilter::Tag(_) => all,
    }
}

impl Topic {
    /// A field-for-field copy.
    pub fn duplicate(&self) -> (r: Topic)
        ensures
            r == *self,
    {
        Topic {
            id: self.id,
            title: self.title.clone(),
            author: self.author.clone(),
            category: self.category.clone(),
            replies: self.replies,
            unread: self.unread,
        }
    }
}

/// A copy of a list of topics.
pub fn copy_topics(topics: &Vec<Topic>) -> (r: Vec<Topic>)
    ensures
        r@ == topics@,
{
    let mut r: Vec<Topic> = Vec::new();
    for i in 0..topics.len()
        invariant
            r@ == topics@.take(i as int),
    {
        r.push(topics[i].duplicate());
        assert(topics@.take(i as int).push(topics@[i as int]) =~= topics@.take(i + 1));
    }
    assert(topics@.take(topics.len() as int) =~= topics@);
    r
}

fn sidebar_item(label: &str, unread_count: Option<usize>, color: Option<Color>, filter: Option<ViewFilter>) -> (r: SidebarItem)
    ensures
        item_is(r, label@, unread_count, color, filter),
{
    SidebarItem { label: label.to_owned(), unread_count, color, filter }
}

fn mock_topic(id: usize, title: &str, author: &str, category: &str, replies: usize, unread: bool) -> (r: Topic)
    ensures
        r.id == id,
        r.title@ == title@,
        r.author@ == author@,
        r.category@ == category@,
        r.replies == replies,
        r.unread == unread,
{
    Topic {
        id,
        title: title.to_owned(),
        author: author.to_owned(),
        category: category.to_owned(),
        replies,
        unread,
    }
}

/// Converts the forum's topics into list entries, naming each topic's
/// category and author.
pub fn convert_topics(latest: &LatestResponse, categories: &Vec<Category>) -> (r: Vec<Topic>)
    ensures
        converted_topics(r@, *latest, categories@),
{
    let topics = &latest.topic_list.topics;
    let mut r: Vec<Topic> = Vec::new();
    for i in 0..topics.len()
        invariant
            topics == &latest.topic_list.topics,
            r@.len() == i,
            forall|j: int| 0 <= j < i ==> converted_topic(
                #[trigger] r@[j],
                latest.topic_list.topics@[j],
                categories@,
                latest.users@,
            ),
    {
        let t = &topics[i];
        let category = api::category_display_name(categories, t.category_id);
        let author = api::author_display_name(&latest.users, &t.posters);
        r.push(Topic {
            id: t.id as usize,
            title: t.title.clone(),
            author,
            category,
            replies: t.reply_count as usize,
            unread: false,
        });
    }
    r
}


/// The first screen for a configuration: the forum form when no forum is set
/// up, the forum picker when none is chosen, else the topic list.
pub open spec fn start_screen(config: Config) -> Screen {
    if config.forums@.len() == 0 {
        Screen::AddForum
    } else if config.current.selected is None {
        Screen::ForumPicker
    } else {
        Screen::TopicList
    }
}

/// The sample sidebar shown before any forum is loaded.
pub open spec fn is_sample_sidebar(items: Seq<SidebarItem>) -> bool {
    &&& items.len() == 13
    &&& item_is(items[0], "Topics"@, Some(3), None, Some(ViewFilter::AllTopics))
    &&& item_is(items[1], "My posts"@, None, None, Some(ViewFilter::MyPosts))
    &&& item_is(items[2], "My messages"@, Some(1), None, Some(ViewFilter::MyMessages))
    &&& item_is(items[3], "New Topic"@, None, None, None)
    &&& item_is(items[4], "--- CATEGORIES ---"@, None, None, None)
    &&& item_is(items[5], "\u{25a0} biz"@, Some(2), Some(Color::Green), Some(ViewFilter::Category(0)))
    &&& item_is(items[6], "\u{25a0} staff"@, Some(1), Some(Color::Gray), Some(ViewFilter::Category(1)))
    &&& item_is(items[7], "\u{25a0} dev-ops"@, None, Some(Color::Rgb(255, 165, 0)), Some(ViewFilter::Category(2)))
    &&& item_is(items[8], "\u{25a0} todo"@, Some(5), Some(Color::Magenta), Some(ViewFilter::Category(3)))
    &&& item_is(items[9], "All categories"@, None, None, Some(ViewFilter::AllTopics))
    &&& item_is(items[10], "--- TAGS ---"@, None, None, None)
    &&& item_is(items[11], "weekly-call"@, None, None, Some(ViewFilter::Tag(0)))
    &&& item_is(items[12], "All tags"@, None, None, Some(ViewFilter::AllTopics))
}

/// `t` has the given fields.
pub open spec fn topic_is(t: Topic, id: usize, title: Seq<char>, author: Seq<char>, category: Seq<char>, replies: usize, unread: bool) -> bool {
    &&& t.id == id
    &&& t.title@ == title
    &&& t.author@ == author
    &&& t.category@ == category
    &&& t.replies == replies
    &&& t.unread == unread
}

/// The sample topics shown before any forum is loaded.
pub open spec fn is_sample_topics(topics: Seq<Topic>) -> bool {
    &&& topics.len() == 5
    &&& topic_is(topics[0], 1, "Welcome to Discourse TUI!"@, "ducks"@, "dev-ops"@, 5, true)
    &&& topic_is(topics[1], 2, "How to navigate with vim keybindings"@, "guest"@, "biz"@, 12, true)
    &&& topic_is(topics[2], 3, "Implementing ratatui is fun"@, "ducks"@, "dev-ops"@, 3, false)
    &&& topic_is(topics[3], 4, "Date-Ver specification discussion"@, "ducks"@, "todo"@, 8, true)
    &&& topic_is(topics[4], 5, "yaml-janitor release notes"@, "ducks"@, "dev-ops"@, 2, false)
}

impl App {
    /// The state at start-up for a loaded configuration: the first screen
    /// follows from the configuration, nothing is loaded yet, and the forum
    /// picker highlights its first row.
    pub fn from_config(config: Config) -> (app: Self)
        ensures
            app.screen == start_screen(config),
            app.focus == PaneFocus::Sidebar,
            app.sidebar_state == (ListState { offset: 0, selected: None }),
            app.topics_state == (ListState { offset: 0, selected: None }),
            app.sidebar_items@.len() == 0,
            app.topics@.len() == 0,
            app.current_filter == ViewFilter::AllTopics,
            app.all_topics@.len() == 0,
            app.categories@.len() == 0,
            app.config == config,
            app.forum_picker_state == (ListState { offset: 0, selected: Some(0usize) }),
            app.add_forum_inputs.is_blank(),
    {
        let mut forum_picker_state = ListState::default();
        forum_picker_state.select(Some(0));
        let screen = if config.forums.len() == 0 {
            Screen::AddForum
        } else if config.current.selected.is_none() {
            Screen::ForumPicker
        } else {
            Screen::TopicList
        };
        App {
            screen,
            focus: PaneFocus::Sidebar,
            sidebar_state: ListState::default(),
            topics_state: ListState::default(),
            sidebar_items: Vec::new(),
            topics: Vec::new(),
            current_filter: ViewFilter::AllTopics,
            all_topics: Vec::new(),
            categories: Vec::new(),
            config,
            forum_picker_state,
            add_forum_inputs: AddForumInputs::default(),
        }
    }

    /// The state with sample data: the sample sidebar and topics, all topics
    /// shown, first rows highlighted, and an empty configuration.
    pub fn new() -> (app: Self)
        ensures
            app.screen == Screen::TopicList,
            app.focus == PaneFocus::Sidebar,
            app.sidebar_state == (ListState { offset: 0, selected: Some(0usize) }),
            app.topics_state == (ListState { offset: 0, selected: Some(0usize) }),
            is_sample_sidebar(app.sidebar_items@),
            is_sample_topics(app.all_topics@),
            app.topics@ == app.all_topics@,
            app.current_filter == ViewFilter::AllTopics,
            app.categories@.len() == 0,
            app.config.current.selected is None,
            app.config.forums@.len() == 0,
            app.forum_picker_state == (ListState { offset: 0, selected: None }),
            app.add_forum_inputs.is_blank(),
    {
        let mut sidebar_state = ListState::default();
        sidebar_state.select(Some(0));
        let mut topics_state = ListState::default();
        topics_state.select(Some(0));
        let all_topics = Self::create_mock_topics();
        App {
            screen: Screen::TopicList,
            focus: PaneFocus::Sidebar,
            sidebar_state,
            topics_state,
            sidebar_items: Self::create_sidebar_items(),
            topics: copy_topics(&all_topics),
            current_filter: ViewFilter::AllTopics,
            all_topics,
            categories: Vec::new(),
            config: Config::default(),
            forum_picker_state: ListState::default(),
            add_forum_inputs: AddForumInputs::default(),
        }
    }

    /// The state for a forum's latest topics and categories: the topics as
    /// list entries, all shown, the sidebar built from the categories, and the
    /// first rows highlighted.
    pub fn with_data(latest: LatestResponse, categories: Vec<Category>) -> (app: Self)
        requires
            api::category_colors_readable(categories@),
        ensures
            app.screen == Screen::TopicList,
            app.focus == PaneFocus::Sidebar,
            app.sidebar_state == (ListState { offset: 0, selected: Some(0usize) }),
            app.topics_state == (ListState { offset: 0, selected: Some(0usize) }),
            is_category_sidebar(app.sidebar_items@, categories@),
            converted_topics(app.all_topics@, latest, categories@),
            app.topics@ == app.all_topics@,
            app.current_filter == ViewFilter::AllTopics,
            app.categories@ == categories@,
            app.config.current.selected is None,
            app.config.forums@.len() == 0,
            app.forum_picker_state == (ListState { offset: 0, selected: Some(0usize) }),
            app.add_forum_inputs.is_blank(),
    {
        let mut sidebar_state = ListState::default();
        sidebar_state.select(Some(0));
        let mut topics_state = ListState::default();
        topics_state.select(Some(0));
        let all_topics = convert_topics(&latest, &categories);
        let sidebar_items = Self::create_sidebar_with_categories(&categories);
        let mut forum_picker_state = ListState::default();
        forum_picker_state.select(Some(0));
        App {
            screen: Screen::TopicList,
            focus: PaneFocus::Sidebar,
            sidebar_state,
            topics_state,
            sidebar_items,
            topics: copy_topics(&all_topics),
            current_filter: ViewFilter::AllTopics,
            all_topics,
            categories,
            config: Config::default(),
            forum_picker_state,
            add_forum_inputs: AddForumInputs::default(),
        }
    }

    /// The sidebar for a forum's categories.
    pub fn create_sidebar_with_categories(categories: &Vec<Category>) -> (items: Vec<SidebarItem>)
        requires
            api::category_colors_readable(categories@),
        ensures
            is_category_sidebar(items@, categories@),
    {
        let mut items: Vec<SidebarItem> = Vec::new();
        items.push(sidebar_item("Topics", None, None, Some(ViewFilter::AllTopics)));
        items.push(sidebar_item("My posts", None, None, Some(ViewFilter::MyPosts)));
        items.push(sidebar_item("My messages", None, None, Some(ViewFilter::MyMessages)));
        items.push(sidebar_item("New Topic", None, None, None));
        items.push(sidebar_item("--- CATEGORIES ---", None, None, None));
        let k: usize = if categories.len() < 10 { categories.len() } else { 10 };
        for idx in 0..k
            invariant
                k == api::listed_category_count(categories@.len()),
                k <= categories@.len(),
                api::category_colors_readable(categories@),
                items@.len() == 5 + idx,
                item_is(items@[0], "Topics"@, None, None, Some(ViewFilter::AllTopics)),
                item_is(items@[1], "My posts"@, None, None, Some(ViewFilter::MyPosts)),
                item_is(items@[2], "My messages"@, None, None, Some(ViewFilter::MyMessages)),
                item_is(items@[3], "New Topic"@, None, None, None),
                item_is(items@[4], "--- CATEGORIES ---"@, None, None, None),
                forall|j: int| 0 <= j < idx ==> item_is(
                    #[trigger] items@[5 + j],
                    "\u{25a0} "@ + categories@[j].name@,
                    None,
                    color::hex_color_of(categories@[j].color@),
                    Some(ViewFilter::Category(j as usize)),
                ),
        {
            let category = &categories[idx];
            assert(color::hex_color_splits_cleanly(categories@[idx as int].color@));
            let color = color::parse_color(category.color.as_str());
            let label = text::joined("\u{25a0} ", category.name.as_str());
            items.push(SidebarItem {
                label,
                unread_count: None,
                color,
                filter: Some(ViewFilter::Category(idx)),
            });
        }
        items.push(sidebar_item("All categories", None, None, Some(ViewFilter::AllTopics)));
        items
    }

    /// The sample sidebar.
    pub fn create_sidebar_items() -> (items: Vec<SidebarItem>)
        ensures
            is_sample_sidebar(items@),
    {
        let mut items: Vec<SidebarItem> = Vec::new();
        items.push(sidebar_item("Topics", Some(3), None, Some(ViewFilter::AllTopics)));
        items.push(sidebar_item("My posts", None, None, Some(ViewFilter::MyPosts)));
        items.push(sidebar_item("My messages", Some(1), None, Some(ViewFilter::MyMessages)));
        items.push(sidebar_item("New Topic", None, None, None));
        items.push(sidebar_item("--- CATEGORIES ---", None, None, None));
        items.push(sidebar_item("\u{25a0} biz", Some(2), Some(Color::Green), Some(ViewFilter::Category(0))));
        items.push(sidebar_item("\u{25a0} staff", Some(1), Some(Color::Gray), Some(ViewFilter::Category(1))));
        items.push(sidebar_item("\u{25a0} dev-ops", None, Some(Color::Rgb(255, 165, 0)), Some(ViewFilter::Category(2))));
        items.push(sidebar_item("\u{25a0} todo", Some(5), Some(Color::Magenta), Some(ViewFilter::Category(3))));
        items.push(sidebar_item("All categories", None, None, Some(ViewFilter::AllTopics)));
        items.push(sidebar_item("--- TAGS ---", None, None, None));
        items.push(sidebar_item("weekly-call", None, None, Some(ViewFilter::Tag(0))));
        items.push(sidebar_item("All tags", None, None, Some(ViewFilter::AllTopics)));
        items
    }

    /// The sample topics.
    pub fn create_mock_topics() -> (topics: Vec<Topic>)
        ensures
            is_sample_topics(topics@),
    {
        let mut topics: Vec<Topic> = Vec::new();
        topics.push(mock_topic(1, "Welcome to Discourse TUI!", "ducks", "dev-ops", 5, true));
        topics.push(mock_topic(2, "How to navigate with vim keybindings", "guest", "biz", 12, true));
        topics.push(mock_topic(3, "Implementing ratatui is fun", "ducks", "dev-ops", 3, false));
        topics.push(mock_topic(4, "Date-Ver specification discussion", "ducks", "todo", 8, true));
        topics.push(mock_topic(5, "yaml-janitor release notes", "ducks", "dev-ops", 2, false));
        topics
    }
}


/// The row highlighted after moving down from `sel` in a list of `len` rows.
pub open spec fn next_selection(sel: Option<usize>, len: int) -> usize {
    match sel {
        Some(i) => list_state::wrap_next(i as int, len) as usize,
        None => 0,
    }
}

/// The row highlighted after moving up from `sel` in a list of `len` rows.
pub open spec fn previous_selection(sel: Option<usize>, len: int) -> usize {
    match sel {
        Some(i) => list_state::wrap_previous(i as int, len) as usize,
        None => 0,
    }
}

/// The other pane.
pub open spec fn other_pane(p: PaneFocus) -> PaneFocus {
    match p {
        PaneFocus::Sidebar => PaneFocus::Topics,
        PaneFocus::Topics => PaneFocus::Sidebar,
    }
}

impl App {
    /// The number of rows of the pane with the keyboard.
    pub open spec fn focused_len(self) -> int {
        match self.focus {
            PaneFocus::Sidebar => self.sidebar_items@.len() as int,
            PaneFocus::Topics => self.topics@.len() as int,
        }
    }

    /// The list state of the pane with the keyboard.
    pub open spec fn focused_state(self) -> ListState {
        match self.focus {
            PaneFocus::Sidebar => self.sidebar_state,
            PaneFocus::Topics => self.topics_state,
        }
    }

    /// `self` with the list state of the pane with the keyboard replaced.
    pub open spec fn with_focused_state(self, st: ListState) -> App {
        match self.focus {
            PaneFocus::Sidebar => App { sidebar_state: st, ..self },
            PaneFocus::Topics => App { topics_state: st, ..self },
        }
    }

    /// `self` after Tab: the next field of the form, or the other pane of the topic list.
    pub open spec fn tabbed(self) -> App {
        match self.screen {
            Screen::AddForum => App {
                add_forum_inputs: AddForumInputs {
                    active_field: ((self.add_forum_inputs.active_field + 1) % 4) as usize,
                    ..self.add_forum_inputs
                },
                ..self
            },
            Screen::TopicList => App { focus: other_pane(self.focus), ..self },
            _ => self,
        }
    }

    /// Moving down in the focused pane is defined: a highlighted row implies a non-empty pane.
    pub open spec fn can_move_down(self) -> bool {
        self.focused_state().selected is Some ==> self.focused_len() > 0
    }

    /// Moving up in the focused pane is defined: the first row highlighted implies a non-empty pane.
    pub open spec fn can_move_up(self) -> bool {
        self.focused_state().selected == Some(0usize) ==> self.focused_len() > 0
    }

    /// `after` is `self` once `filter` is applied: the topics it selects are
    /// shown, and the first is highlighted if there is any.
    pub open spec fn filter_applied(self, after: App, filter: ViewFilter) -> bool {
        &&& after == (App {
            current_filter: filter,
            topics: after.topics,
            topics_state: after.topics_state,
            ..self
        })
        &&& after.topics@ == filtered_topics(self.all_topics@, self.categories@, filter)
        &&& after.topics_state == (if after.topics@.len() > 0 {
            list_state::selecting(self.topics_state, Some(0usize))
        } else {
            self.topics_state
        })
    }

    /// Selecting the highlighted sidebar entry reads an entry of the sidebar.
    pub open spec fn can_select(self) -> bool {
        self.focus == PaneFocus::Sidebar ==> (self.sidebar_state.selected matches Some(idx)
            ==> idx < self.sidebar_items@.len())
    }

    /// `after` is `self` once the highlighted entry is chosen: in the sidebar,
    /// its filter is applied (if it has one); in the topic list, the topic view opens.
    pub open spec fn selected(self, after: App) -> bool {
        match self.focus {
            PaneFocus::Sidebar => match self.sidebar_state.selected {
                Some(idx) => match self.sidebar_items@[idx as int].filter {
                    Some(f) => self.filter_applied(after, f),
                    None => after == self,
                },
                None => after == self,
            },
            PaneFocus::Topics => after == (App {
                screen: if self.screen == Screen::TopicList { Screen::TopicView } else { self.screen },
                ..self
            }),
        }
    }

    /// `self` with the highlight of the focused pane one row down.
    pub open spec fn moved_down(self) -> App {
        self.with_focused_state(
            list_state::selecting(self.focused_state(), Some(next_selection(self.focused_state().selected, self.focused_len()))),
        )
    }

    /// `self` with the highlight of the focused pane one row up.
    pub open spec fn moved_up(self) -> App {
        self.with_focused_state(
            list_state::selecting(self.focused_state(), Some(previous_selection(self.focused_state().selected, self.focused_len()))),
        )
    }

    /// `after` is `self` once the forum highlighted in the picker is deleted
    /// (the configuration is then to be saved): the forums with its id are
    /// gone, the current choice is cleared if it was that id, the forum form
    /// opens when no forum is left, and the highlight moves to the last forum
    /// when it is past the end.
    pub open spec fn forum_deleted(self, after: App, effect: Effect) -> bool {
        match self.forum_picker_state.selected {
            Some(idx) => if idx < self.config.forums@.len() {
                let id = self.config.forums@[idx as int].id@;
                let left = config::without_id(self.config.forums@, id);
                &&& effect == Effect::SaveConfig
                &&& after == (App {
                    config: after.config,
                    screen: after.screen,
                    forum_picker_state: after.forum_picker_state,
                    ..self
                })
                &&& after.config.forums@ == left
                &&& after.config.current.selected == config::selection_after_removal(self.config.current.selected, id)
                &&& after.screen == (if left.len() == 0 { Screen::AddForum } else { self.screen })
                &&& after.forum_picker_state == (if left.len() != 0 && idx >= left.len() {
                    list_state::selecting(self.forum_picker_state, Some((left.len() - 1) as usize))
                } else {
                    self.forum_picker_state
                })
            } else {
                after == self && effect == Effect::Nothing
            },
            None => after == self && effect == Effect::Nothing,
        }
    }

    /// Moves the highlight of the focused pane one row down, from the last row to the first.
    pub fn next(&mut self)
        requires
            old(self).can_move_down(),
        ensures
            *final(self) == old(self).moved_down(),
    {
        let list_len = match self.focus {
            PaneFocus::Sidebar => self.sidebar_items.len(),
            PaneFocus::Topics => self.topics.len(),
        };
        let selected = match self.focus {
            PaneFocus::Sidebar => self.sidebar_state.selected(),
            PaneFocus::Topics => self.topics_state.selected(),
        };
        let i = match selected {
            Some(i) => list_state::next_row(i, list_len),
            None => 0,
        };
        match self.focus {
            PaneFocus::Sidebar => self.sidebar_state.select(Some(i)),
            PaneFocus::Topics => self.topics_state.select(Some(i)),
        }
    }

    /// Moves the highlight of the focused pane one row up, from the first row to the last.
    pub fn previous(&mut self)
        requires
            old(self).can_move_up(),
        ensures
            *final(self) == old(self).moved_up(),
    {
        let list_len = match self.focus {
            PaneFocus::Sidebar => self.sidebar_items.len(),
            PaneFocus::Topics => self.topics.len(),
        };
        let selected = match self.focus {
            PaneFocus::Sidebar => self.sidebar_state.selected(),
            PaneFocus::Topics => self.topics_state.selected(),
        };
        let i = match selected {
            Some(i) => if i == 0 { list_len - 1 } else { i - 1 },
            None => 0,
        };
        match self.focus {
            PaneFocus::Sidebar => self.sidebar_state.select(Some(i)),
            PaneFocus::Topics => self.topics_state.select(Some(i)),
        }
    }

    /// Gives the keyboard to the other pane.
    pub fn toggle_focus(&mut self)
        ensures
            *final(self) == (App { focus: other_pane(old(self).focus), ..*old(self) }),
    {
        self.focus = match self.focus {
            PaneFocus::Sidebar => PaneFocus::Topics,
            PaneFocus::Topics => PaneFocus::Sidebar,
        };
    }

    /// Chooses the highlighted entry of the focused pane.
    pub fn select(&mut self)
        requires
            old(self).can_select(),
        ensures
            old(self).selected(*final(self)),
    {
        match self.focus {
            PaneFocus::Sidebar => {
                if let Some(idx) = self.sidebar_state.selected() {
                    if let Some(filter) = self.sidebar_items[idx].filter {
                        self.apply_filter(filter);
                    }
                }
            },
            PaneFocus::Topics => {
                if self.screen == Screen::TopicList {
                    self.screen = Screen::TopicView;
                }
            },
        }
    }

    /// Goes back: from a topic to the topic list, and from the forum form to
    /// the forum picker unless there is no forum yet.
    pub fn go_back(&mut self)
        ensures
            *final(self) == (match old(self).screen {
                Screen::TopicView => App { screen: Screen::TopicList, ..*old(self) },
                Screen::AddForum => App {
                    screen: if old(self).config.forums@.len() == 0 { Screen::AddForum } else { Screen::ForumPicker },
                    ..*old(self)
                },
                _ => *old(self),
            }),
    {
        match self.screen {
            Screen::TopicView => self.screen = Screen::TopicList,
            Screen::AddForum => {
                self.screen = if self.config.forums.len() == 0 {
                    Screen::AddForum
                } else {
                    Screen::ForumPicker
                };
            },
            _ => {},
        }
    }

    /// Handles a typed character: on the forum form it goes into the active
    /// field; on the forum picker `a` opens an empty form and `d` deletes the
    /// highlighted forum (after which the configuration is to be saved).
    pub fn handle_char_input(&mut self, c: char) -> (effect: Effect)
        ensures
            old(self).screen == Screen::AddForum ==> {
                &&& effect == Effect::Nothing
                &&& *final(self) == (App { add_forum_inputs: final(self).add_forum_inputs, ..*old(self) })
                &&& old(self).add_forum_inputs.typed(final(self).add_forum_inputs, c)
            },
            old(self).screen == Screen::ForumPicker && c == 'a' ==> {
                &&& effect == Effect::Nothing
                &&& *final(self) == (App {
                    screen: Screen::AddForum,
                    add_forum_inputs: final(self).add_forum_inputs,
                    ..*old(self)
                })
                &&& final(self).add_forum_inputs.is_blank()
            },
            old(self).screen == Screen::ForumPicker && c == 'd' ==> old(self).forum_deleted(*final(self), effect),
            old(self).screen != Screen::AddForum && !(old(self).screen == Screen::ForumPicker && (c == 'a' || c == 'd'))
                ==> *final(self) == *old(self) && effect == Effect::Nothing,
    {
        if self.screen == Screen::AddForum {
            self.add_forum_inputs.type_char(c);
            Effect::Nothing
        } else if self.screen == Screen::ForumPicker && c == 'a' {
            self.screen = Screen::AddForum;
            self.add_forum_inputs = AddForumInputs::default();
            Effect::Nothing
        } else if self.screen == Screen::ForumPicker && c == 'd' {
            self.delete_selected_forum()
        } else {
            Effect::Nothing
        }
    }

    /// Erases the last character of the active field of the forum form.
    pub fn handle_backspace(&mut self)
        ensures
            old(self).screen == Screen::AddForum ==> {
                &&& *final(self) == (App { add_forum_inputs: final(self).add_forum_inputs, ..*old(self) })
                &&& old(self).add_forum_inputs.erased(final(self).add_forum_inputs)
            },
            old(self).screen != Screen::AddForum ==> *final(self) == *old(self),
    {
        if self.screen == Screen::AddForum {
            self.add_forum_inputs.erase_char();
        }
    }

    /// Tab: on the forum form, the next field (after the last, the first); on
    /// the topic list, the other pane.
    pub fn handle_tab(&mut self)
        ensures
            *final(self) == old(self).tabbed(),
    {
        match self.screen {
            Screen::AddForum => {
                let a = self.add_forum_inputs.active_field;
                assert((a % 4 + 1) % 4 == (a + 1) % 4) by (nonlinear_arith);
                self.add_forum_inputs.active_field = (a % 4 + 1) % 4;
            },
            Screen::TopicList => self.toggle_focus(),
            _ => {},
        }
    }

    /// Enter: on the forum picker, makes the highlighted forum the current one;
    /// on a form with a name and a URL, adds the forum it describes and makes
    /// it the current one; on the topic list, chooses the highlighted entry.
    /// After the first two the configuration is to be saved, and once it is
    /// saved the topic list is shown (see `config_saved`).
    pub fn handle_enter(&mut self) -> (effect: Effect)
        requires
            old(self).screen == Screen::TopicList ==> old(self).can_select(),
        ensures
            old(self).screen == Screen::ForumPicker ==> (match old(self).forum_picker_state.selected {
                Some(idx) => if idx < old(self).config.forums@.len() {
                    &&& effect == Effect::SaveConfigThenShowTopics
                    &&& *final(self) == (App { config: final(self).config, ..*old(self) })
                    &&& final(self).config.forums == old(self).config.forums
                    &&& final(self).config.current.selected == Some(old(self).config.forums@[idx as int].id)
                } else {
                    *final(self) == *old(self) && effect == Effect::Nothing
                },
                None => *final(self) == *old(self) && effect == Effect::Nothing,
            }),
            old(self).screen == Screen::AddForum ==> (
                if old(self).add_forum_inputs.name@.len() > 0 && old(self).add_forum_inputs.url@.len() > 0 {
                    let f = old(self).add_forum_inputs;
                    &&& effect == Effect::SaveConfigThenShowTopics
                    &&& *final(self) == (App { config: final(self).config, ..*old(self) })
                    &&& final(self).config.forums@.len() == old(self).config.forums@.len() + 1
                    &&& final(self).config.forums@.drop_last() == old(self).config.forums@
                    &&& config::is_form_forum(final(self).config.forums@.last(), f.name@, f.url@, f.api_key@, f.username@)
                    &&& final(self).config.current.selected == Some(final(self).config.forums@.last().id)
                } else {
                    *final(self) == *old(self) && effect == Effect::Nothing
                }
            ),
            old(self).screen == Screen::TopicList ==> effect == Effect::Nothing && old(self).selected(*final(self)),
            old(self).screen == Screen::TopicView ==> *final(self) == *old(self) && effect == Effect::Nothing,
    {
        match self.screen {
            Screen::ForumPicker => {
                if let Some(idx) = self.forum_picker_state.selected() {
                    if idx < self.config.forums.len() {
                        let id = self.config.forums[idx].id.clone();
                        self.config.set_current_forum(id);
                        return Effect::SaveConfigThenShowTopics;
                    }
                }
                Effect::Nothing
            },
            Screen::AddForum => {
                if !self.add_forum_inputs.name.as_str().is_empty() && !self.add_forum_inputs.url.as_str().is_empty() {
                    let forum = config::form_forum(
                        &self.add_forum_inputs.name,
                        &self.add_forum_inputs.url,
                        &self.add_forum_inputs.api_key,
                        &self.add_forum_inputs.username,
                    );
                    let id = forum.id.clone();
                    self.config.add_forum(forum);
                    self.config.set_current_forum(id);
                    assert(self.config.forums@.drop_last() =~= old(self).config.forums@);
                    Effect::SaveConfigThenShowTopics
                } else {
                    Effect::Nothing
                }
            },
            Screen::TopicList => {
                self.select();
                Effect::Nothing
            },
            _ => Effect::Nothing,
        }
    }

    /// Called once the configuration has been saved after a key asked for it:
    /// shows the topic list when the key was Enter on the picker or the form.
    pub fn config_saved(&mut self, effect: Effect)
        ensures
            *final(self) == (if effect == Effect::SaveConfigThenShowTopics {
                App { screen: Screen::TopicList, ..*old(self) }
            } else {
                *old(self)
            }),
    {
        if effect == Effect::SaveConfigThenShowTopics {
            self.screen = Screen::TopicList;
        }
    }

    /// Deletes the forum highlighted in the picker.
    fn delete_selected_forum(&mut self) -> (effect: Effect)
        ensures
            old(self).forum_deleted(*final(self), effect),
    {
        if let Some(idx) = self.forum_picker_state.selected() {
            if idx < self.config.forums.len() {
                let id = self.config.forums[idx].id.clone();
                self.config.remove_forum(id.as_str());
                if self.config.forums.len() == 0 {
                    self.screen = Screen::AddForum;
                } else if idx >= self.config.forums.len() {
                    self.forum_picker_state.select(Some(self.config.forums.len() - 1));
                }
                return Effect::SaveConfig;
            }
        }
        Effect::Nothing
    }

    /// Up or down: on the forum picker, moves the highlight round the forums
    /// (from no highlight, as from the first); on the topic list, moves the
    /// highlight of the focused pane.
    pub fn handle_navigation(&mut self, down: bool)
        requires
            old(self).screen == Screen::TopicList ==> (if down { old(self).can_move_down() } else { old(self).can_move_up() }),
        ensures
            *final(self) == (match old(self).screen {
                Screen::ForumPicker => {
                    let len = old(self).config.forums@.len() as int;
                    let i = match old(self).forum_picker_state.selected { Some(i) => i as int, None => 0 };
                    if len == 0 {
                        *old(self)
                    } else {
                        App {
                            forum_picker_state: list_state::selecting(
                                old(self).forum_picker_state,
                                Some((if down { list_state::wrap_next(i, len) } else { list_state::wrap_previous(i, len) }) as usize),
                            ),
                            ..*old(self)
                        }
                    }
                },
                Screen::TopicList => if down { old(self).moved_down() } else { old(self).moved_up() },
                _ => *old(self),
            }),
    {
        match self.screen {
            Screen::ForumPicker => {
                let len = self.config.forums.len();
                if len == 0 {
                    return;
                }
                let i = match self.forum_picker_state.selected() {
                    Some(i) => i,
                    None => 0,
                };
                let new_i = if down {
                    list_state::next_row(i, len)
                } else {
                    list_state::previous_row(i, len)
                };
                self.forum_picker_state.select(Some(new_i));
            },
            Screen::TopicList => {
                if down {
                    self.next();
                } else {
                    self.previous();
                }
            },
            _ => {},
        }
    }

    /// Shows the topics that `filter` selects and highlights the first of them.
    pub fn apply_filter(&mut self, filter: ViewFilter)
        ensures
            old(self).filter_applied(*final(self), filter),
    {
        self.current_filter = filter;
        self.topics = match filter {
            ViewFilter::AllTopics => copy_topics(&self.all_topics),
            ViewFilter::MyPosts => topics_by_author(&self.all_topics, "ducks"),
            ViewFilter::MyMessages => Vec::new(),
            ViewFilter::Category(cat_idx) => {
                if cat_idx < self.categories.len() {
                    topics_in_category(&self.all_topics, self.categories[cat_idx].name.as_str())
                } else {
                    copy_topics(&self.all_topics)
                }
            },
            ViewFilter::Tag(_) => copy_topics(&self.all_topics),
        };
        if self.topics.len() > 0 {
            self.topics_state.select(Some(0));
        }
    }
}

/// The topics of `all` written by `author`, in order.
pub fn topics_by_author(all: &Vec<Topic>, author: &str) -> (r: Vec<Topic>)
    ensures
        r@ == all@.filter(|t: Topic| t.author@ == author@),
{
    let ghost pred = |t: Topic| t.author@ == author@;
    let key = author.to_owned();
    let mut r: Vec<Topic> = Vec::new();
    for i in 0..all.len()
        invariant
            key@ == author@,
            pred == (|t: Topic| t.author@ == author@),
            r@ == all@.take(i as int).filter(pred),
    {
        assert(all@.take(i + 1) =~= all@.take(i as int).push(all@[i as int]));
        proof {
            all@.take(i as int).lemma_filter_push(all@[i as int], pred);
        }
        if all[i].author == key {
            r.push(all[i].duplicate());
        }
    }
    assert(all@.take(all.len() as int) =~= all@);
    r
}

/// The topics of `all` in the category named `category`, in order.
pub fn topics_in_category(all: &Vec<Topic>, category: &str) -> (r: Vec<Topic>)
    ensures
        r@ == all@.filter(|t: Topic| t.category@ == category@),
{
    let ghost pred = |t: Topic| t.category@ == category@;
    let key = category.to_owned();
    let mut r: Vec<Topic> = Vec::new();
    for i in 0..all.len()
        invariant
            key@ == category@,
            pred == (|t: Topic| t.category@ == category@),
            r@ == all@.take(i as int).filter(pred),
    {
        assert(all@.take(i + 1) =~= all@.take(i as int).push(all@[i as int]));
        proof {
            all@.take(i as int).lemma_filter_push(all@[i as int], pred);
        }
        if all[i].category == key {
            r.push(all[i].duplicate());
        }
    }
    assert(all@.take(all.len() as int) =~= all@);
    r
}


/// Giving the keyboard to the other pane twice gives it back.
pub proof fn lemma_toggle_twice(app: App)
    ensures
        (App { focus: other_pane(other_pane(app.focus)), ..app }) == app,
{
}

/// Moving down and then up in the focused pane comes back to the highlighted
/// row, and so does moving up and then down, when a row of the pane is highlighted.
pub proof fn lemma_down_up_round_trip(app: App)
    requires
        app.focused_state().selected matches Some(i) && i < app.focused_len(),
        app.focused_len() <= usize::MAX,
    ensures
        app.moved_down().can_move_up(),
        app.moved_down().moved_up() == app,
        app.moved_up().can_move_down(),
        app.moved_up().moved_down() == app,
{
    let i = app.focused_state().selected->0 as int;
    let len = app.focused_len();
    list_state::lemma_wrap_round_trip(i, len);
    let st = app.focused_state();
    let n = list_state::wrap_next(i, len) as usize;
    let p = list_state::wrap_previous(i, len) as usize;
    assert(n as int == list_state::wrap_next(i, len));
    assert(p as int == list_state::wrap_previous(i, len));
    let down = app.moved_down();
    let up = app.moved_up();
    assert(down.focused_len() == len && down.focus == app.focus);
    assert(down.focused_state() == list_state::selecting(st, Some(n)));
    assert(up.focused_len() == len && up.focus == app.focus);
    assert(up.focused_state() == list_state::selecting(st, Some(p)));
    assert(list_state::selecting(list_state::selecting(st, Some(n)), Some(i as usize)) == st);
    assert(list_state::selecting(list_state::selecting(st, Some(p)), Some(i as usize)) == st);
    match app.focus {
        PaneFocus::Sidebar => {
            assert(down.moved_up() == app);
            assert(up.moved_down() == app);
        },
        PaneFocus::Topics => {
            assert(down.moved_up() == app);
            assert(up.moved_down() == app);
        },
    }
}

/// Moving through the focused pane, when it has rows, leaves the highlight on
/// one of them: always when moving down, and when moving up from a row of the
/// pane or from no highlight.
pub proof fn lemma_moves_stay_in_pane(app: App)
    requires
        0 < app.focused_len() <= usize::MAX,
    ensures
        app.moved_down().focused_state().selected matches Some(j) && j < app.focused_len(),
        (app.focused_state().selected matches Some(i) ==> i < app.focused_len()) ==>
            (app.moved_up().focused_state().selected matches Some(j) && j < app.focused_len()),
{
    let len = app.focused_len();
    let i = match app.focused_state().selected { Some(i) => i as int, None => 0 };
    assert(0 <= list_state::wrap_next(i, len) < len);
    if i < len {
        list_state::lemma_wrap_round_trip(i, len);
    }
    match app.focus {
        PaneFocus::Sidebar => {},
        PaneFocus::Topics => {},
    }
}

/// Four presses of Tab on the forum form come back to the same field.
pub proof fn lemma_four_tabs(app: App)
    requires
        app.screen == Screen::AddForum,
        app.add_forum_inputs.active_field < 4,
    ensures
        app.tabbed().tabbed().tabbed().tabbed() == app,
{
    let a = app.add_forum_inputs.active_field as int;
    assert(((((a + 1) % 4 + 1) % 4 + 1) % 4 + 1) % 4 == a) by (nonlinear_arith)
        requires 0 <= a < 4;
}

/// Typing a character into the form and erasing it gives back the form as it was.
pub proof fn lemma_type_then_erase(a: AddForumInputs, b: AddForumInputs, c: char, d: AddForumInputs)
    requires
        a.typed(b, c),
        b.erased(d),
    ensures
        d.active_field == a.active_field,
        forall|j: int| 0 <= j < 4 ==> #[trigger] d.field(j) == a.field(j),
{
    if a.active_field < 4 {
        let k = a.active_field as int;
        assert(b.field(k) == a.field(k).push(c));
        assert(b.field(k).drop_last() =~= a.field(k));
        assert forall|j: int| 0 <= j < 4 implies #[trigger] d.field(j) == a.field(j) by {
            assert(b.field(j) == (if j == k { a.field(k).push(c) } else { a.field(j) }));
        }
    }
}

/// After the highlighted forum is deleted, the highlight is still on a forum
/// whenever any is left.
pub proof fn lemma_delete_keeps_highlight(app: App, after: App, effect: Effect)
    requires
        app.forum_deleted(after, effect),
        app.forum_picker_state.selected matches Some(i) && i < app.config.forums@.len(),
    ensures
        after.config.forums@.len() > 0 ==> (after.forum_picker_state.selected matches Some(j)
            && j < after.config.forums@.len()),
{
}

/// The topics a filter shows are among all the topics.
pub proof fn lemma_filter_shows_known_topics(all: Seq<Topic>, categories: Seq<Category>, filter: ViewFilter)
    ensures
        forall|i: int| 0 <= i < filtered_topics(all, categories, filter).len()
            ==> all.contains(#[trigger] filtered_topics(all, categories, filter)[i]),
{
    broadcast use vstd::seq_lib::group_filter_ensures, vstd::seq::Seq::lemma_filter_contains_rev;
    let shown = filtered_topics(all, categories, filter);
    assert forall|i: int| 0 <= i < shown.len() implies all.contains(#[trigger] shown[i]) by {
        assert(shown.contains(shown[i]));
    }
}

/// What applying a filter shows depends only on all the topics, the
/// categories and that filter: after two filters, the topic list is as if only
/// the second had been applied, and so is the highlight whenever a topic is shown.
pub proof fn lemma_last_filter_counts(app: App, mid: App, after: App, direct: App, g: ViewFilter, f: ViewFilter)
    requires
        app.filter_applied(mid, g),
        mid.filter_applied(after, f),
        app.filter_applied(direct, f),
    ensures
        after.topics@ == direct.topics@,
        after.current_filter == direct.current_filter,
        after.topics@.len() > 0 ==> after.topics_state == direct.topics_state,
        after == (App { topics: after.topics, topics_state: after.topics_state, ..direct }),
{
}

/// Applying the same filter a second time changes nothing.
pub proof fn lemma_filter_twice(app: App, mid: App, after: App, f: ViewFilter)
    requires
        app.filter_applied(mid, f),
        mid.filter_applied(after, f),
    ensures
        after.topics@ == mid.topics@,
        after.current_filter == mid.current_filter,
        after.topics_state == mid.topics_state,
        after == (App { topics: after.topics, ..mid }),
{
}

} // verus!
