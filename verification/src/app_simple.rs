//! The multi-screen client: forum picker, main screen, topic and post views,
//! chat and notifications.
use std::collections::HashMap;
use std::time::Instant;

use vstd::prelude::*;

use crate::api::{Category, ChatChannel, ChatMessage, Notification, Post};
use crate::color::Color;
use crate::config::Config;
use crate::list_state::ListState;

verus! {

/// The screen on show.
#[derive(Debug, Clone, Copy, PartialEq, Eq, Structural)]
pub enum AppScreen {
    ForumPicker,
    MainScreen,
    TopicView,
    PostView,
    ChatChannels,
    ChatMessages,
    Notifications,
}

/// Which of the two panes of the main screen has the keyboard.
#[derive(Debug, Clone, Copy, PartialEq, Eq, Structural)]
pub enum PaneFocus {
    Sidebar,
    Topics,
}

/// Which topics the main screen shows.
#[derive(Debug, Clone, Copy, PartialEq, Eq, Structural)]
pub enum ViewFilter {
    AllTopics,
    MyPosts,
    MyMessages,
    /// Index into the categories.
    Category(usize),
    Tag(usize),
}

/// One line of the sidebar.
#[derive(Debug, Clone)]
pub struct SidebarItem {
    pub label: String,
    pub unread_count: Option<usize>,
    pub color: Option<Color>,
    pub filter: Option<ViewFilter>,
}

/// A topic as the main screen lists it.
#[derive(Debug, Clone)]
pub struct Topic {
    pub id: usize,
    pub title: String,
    pub author: String,
    pub category: String,
    pub replies: usize,
    pub unread: bool,
}

impl Topic {
    /// A field-for-field copy.
    pub fn duplicate(&self) -> (r: Topic)
        ensures
            r == *self,
    {
        Topic {
            id: self.id,
            title: self.title.clone(),
            author: self.author.clone(),
            category: self.category.clone(),
            replies: self.replies,
            unread: self.unread,
        }
    }
}

/// The moment a value of `std::time::Instant` stands for; nothing about it is
/// read by the client's logic.
#[verifier::external_type_specification]
#[verifier::external_body]
pub struct ExInstant(std::time::Instant);

/// Trusted: `Instant::now`, the current time; nothing is stated of it.
#[verifier::external_body]
fn instant_now() -> Instant {
    Instant::now()
}

/// The client's whole state.
pub struct App {
    pub screen: AppScreen,
    pub config: Config,
    // Forum picker
    pub forum_picker_list_state: ListState,
    pub forum_picker_mode: ForumPickerMode,
    pub add_forum_state: AddForumState,
    // Main screen
    pub focus: PaneFocus,
    pub sidebar_state: ListState,
    pub topics_state: ListState,
    pub sidebar_items: Vec<SidebarItem>,
    pub current_filter: ViewFilter,
    pub current_page: u32,
    // Data
    pub topics: Vec<Topic>,
    pub all_topics: Vec<Topic>,
    pub categories: Vec<Category>,
    // Topic view
    pub selected_topic_idx: usize,
    pub current_topic_posts: Vec<Post>,
    pub current_topic_id: Option<u64>,
    pub current_topic_all_post_ids: Vec<u64>,
    /// Which index in the stream the view starts from.
    pub current_topic_view_start: usize,
    pub topic_posts_list_state: ListState,
    pub topic_composer_input: String,
    pub topic_composer_visible: bool,
    pub topic_composer_insert_mode: bool,
    pub topic_reply_to_post_number: Option<u32>,
    pub topic_visual_mode: bool,
    pub topic_visual_selected_post: Option<usize>,
    // Post view
    pub post_scroll_offset: usize,
    pub post_image_urls: HashMap<u64, Vec<String>>,
    // Chat
    pub chat_channels: Vec<ChatChannel>,
    pub chat_channels_list_state: ListState,
    pub current_chat_messages: Vec<ChatMessage>,
    pub chat_messages_list_state: ListState,
    pub selected_channel_id: Option<u64>,
    pub last_message_poll: Instant,
    pub chat_composer_input: String,
    pub chat_composer_visible: bool,
    pub chat_composer_insert_mode: bool,
    // Notifications
    pub notifications: Vec<Notification>,
    pub notifications_list_state: ListState,
}

/// What the forum picker shows: the list of forums or the form for a new one.
#[derive(Debug, Clone, Copy, PartialEq, Eq, Structural)]
pub enum ForumPickerMode {
    List,
    AddForum,
}

/// The text typed into the form for a new forum.
#[derive(Debug, Clone)]
pub struct AddForumState {
    pub name: String,
    pub url: String,
    pub user_api_key: String,
    pub api_key: String,
    pub username: String,
    pub active_field: usize,
    pub error_message: Option<String>,
}

impl Default for AddForumState {
    /// An empty form, on the name field, with no error.
    fn default() -> (r: Self)
        ensures
            r.is_blank(),
    {
        AddForumState {
            name: String::new(),
            url: String::new(),
            user_api_key: String::new(),
            api_key: String::new(),
            username: String::new(),
            active_field: 0,
            error_message: None,
        }
    }
}

impl AddForumState {
    /// Every field empty, the name field active, and no error.
    pub open spec fn is_blank(self) -> bool {
        &&& self.name@.len() == 0
        &&& self.url@.len() == 0
        &&& self.user_api_key@.len() == 0
        &&& self.api_key@.len() == 0
        &&& self.username@.len() == 0
        &&& self.active_field == 0
        &&& self.error_message is None
    }
}

/// A list state with the first row highlighted.
pub open spec fn first_row_selected() -> ListState {
    ListState { offset: 0, selected: Some(0usize) }
}

/// The first screen for a configuration: the forum picker unless a forum is
/// set up and chosen, else the main screen.
pub open spec fn start_screen(config: Config) -> AppScreen {
    if config.forums@.len() == 0 || config.current.selected is None {
        AppScreen::ForumPicker
    } else {
        AppScreen::MainScreen
    }
}

/// The forum picker starts on the form when no forum is set up, else on the list.
pub open spec fn start_picker_mode(config: Config) -> ForumPickerMode {
    if config.forums@.len() == 0 { ForumPickerMode::AddForum } else { ForumPickerMode::List }
}

fn first_row() -> (s: ListState)
    ensures
        s == first_row_selected(),
{
    let mut s = ListState::default();
    s.select(Some(0));
    s
}

impl App {
    /// The state at start-up for a loaded configuration: the first screen and
    /// picker mode follow from it, nothing is loaded, every list highlights
    /// its first row, and every form and composer is empty.
    pub fn new(config: Config) -> (app: Self)
        ensures
            app.screen == start_screen(config),
            app.forum_picker_mode == start_picker_mode(config),
            app.config == config,
            app.forum_picker_list_state == first_row_selected(),
            app.add_forum_state.is_blank(),
            app.focus == PaneFocus::Sidebar,
            app.sidebar_state == first_row_selected(),
            app.topics_state == first_row_selected(),
            app.sidebar_items@.len() == 0,
            app.current_filter == ViewFilter::AllTopics,
            app.current_page == 0,
            app.topics@.len() == 0,
            app.all_topics@.len() == 0,
            app.categories@.len() == 0,
            app.selected_topic_idx == 0,
            app.current_topic_posts@.len() == 0,
            app.current_topic_id is None,
            app.current_topic_all_post_ids@.len() == 0,
            app.current_topic_view_start == 0,
            app.topic_posts_list_state == first_row_selected(),
            app.topic_composer_input@.len() == 0,
            !app.topic_composer_visible,
            !app.topic_composer_insert_mode,
            app.topic_reply_to_post_number is None,
            !app.topic_visual_mode,
            app.topic_visual_selected_post is None,
            app.post_scroll_offset == 0,
            app.post_image_urls@ == Map::<u64, Vec<String>>::empty(),
            app.chat_channels@.len() == 0,
            app.chat_channels_list_state == first_row_selected(),
            app.current_chat_messages@.len() == 0,
            app.chat_messages_list_state == first_row_selected(),
            app.selected_channel_id is None,
            app.chat_composer_input@.len() == 0,
            !app.chat_composer_visible,
            !app.chat_composer_insert_mode,
            app.notifications@.len() == 0,
            app.notifications_list_state == first_row_selected(),
    {
        let screen = if config.forums.len() == 0 {
            AppScreen::ForumPicker
        } else if config.current.selected.is_none() {
            AppScreen::ForumPicker
        } else {
            AppScreen::MainScreen
        };
        let forum_picker_mode = if config.forums.len() == 0 {
            ForumPickerMode::AddForum
        } else {
            ForumPickerMode::List
        };
        App {
            screen,
            config,
            forum_picker_list_state: first_row(),
            forum_picker_mode,
            add_forum_state: AddForumState::default(),
            focus: PaneFocus::Sidebar,
            sidebar_state: first_row(),
            topics_state: first_row(),
            sidebar_items: Vec::new(),
            current_filter: ViewFilter::AllTopics,
            current_page: 0,
            topics: Vec::new(),
            all_topics: Vec::new(),
            categories: Vec::new(),
            selected_topic_idx: 0,
            current_topic_posts: Vec::new(),
            current_topic_id: None,
            current_topic_all_post_ids: Vec::new(),
            current_topic_view_start: 0,
            topic_posts_list_state: first_row(),
            topic_composer_input: String::new(),
            topic_composer_visible: false,
            topic_composer_insert_mode: false,
            topic_reply_to_post_number: None,
            topic_visual_mode: false,
            topic_visual_selected_post: None,
            post_scroll_offset: 0,
            post_image_urls: HashMap::new(),
            chat_channels: Vec::new(),
            chat_channels_list_state: first_row(),
            current_chat_messages: Vec::new(),
            chat_messages_list_state: first_row(),
            selected_channel_id: None,
            last_message_poll: instant_now(),
            chat_composer_input: String::new(),
            chat_composer_visible: false,
            chat_composer_insert_mode: false,
            notifications: Vec::new(),
            notifications_list_state: first_row(),
        }
    }

    /// Shows `screen`.
    pub fn goto_screen(&mut self, screen: AppScreen)
        ensures
            final(self).screen == screen,
            *final(self) == (App { screen, ..*old(self) }),
    {
        self.screen = screen;
    }
}

} // verus!
