//! Pages: the screens of the application and what they have in common.

use vstd::prelude::*;

pub mod game;
pub mod home;

use crate::events::{AppAction, AppEvent};
use crate::page::game::{GamePage, DEFAULT_TEXT};
use crate::page::home::{Menu, MenuEntry, MenuPage, max_label_len};
use crate::session::TypingSession;
use crate::text::words_of;

verus! {

/// The kinds of page that can be opened.
#[derive(Debug, Clone, Copy, PartialEq, Eq, Structural)]
pub enum LoadablePage {
    MainMenu,
    GamePage,
}

/// What a page did with an event that it was offered.
#[derive(Debug, Clone, Copy, PartialEq, Eq, Structural)]
pub enum PageHandleEvent {
    /// The event goes on to the application's own handling.
    Pass,
    /// The page took the event; the application does nothing more with it.
    Consume,
}

/// What a page answers to an event: whether it kept the event for itself,
/// and the event, if any, that it wants put into the queue.
#[derive(Debug, Clone, Copy, PartialEq, Eq, Structural)]
pub struct PageReply {
    pub handled: PageHandleEvent,
    pub dispatch: Option<AppEvent>,
}

/// What every page can do: name itself, and handle an event.
///
/// A page is offered each event before the application looks at it.  It
/// answers whether it keeps the event, and may ask for an event of its own to
/// be put into the queue.
pub trait Page: View + Sized {
    /// Validity of the page.
    spec fn valid(&self) -> bool;

    /// The title of the page.
    spec fn title(&self) -> Seq<char>;

    /// The page can handle `event`.
    spec fn accepts_event(&self, event: AppEvent) -> bool;

    /// The page after `event`, handled at time `now`.
    spec fn after_event(&self, event: AppEvent, now: u64) -> Self::V;

    /// The page's answer to `event`.
    spec fn reply_to(&self, event: AppEvent) -> PageReply;

    fn page_title(&self) -> (title: &str)
        ensures
            title@ == self.title(),
    ;

    /// Whether the page can handle `event`.
    fn can_handle(&self, event: &AppEvent) -> (accepted: bool)
        ensures
            accepted == self.accepts_event(*event),
    ;

    /// Handles `event` at time `now`, a reading of a monotonic clock in
    /// nanoseconds.
    fn handle_event(&mut self, event: &AppEvent, now: u64) -> (reply: PageReply)
        requires
            old(self).valid(),
            old(self).accepts_event(*event),
        ensures
            final(self).valid(),
            final(self)@ == old(self).after_event(*event, now),
            reply == old(self).reply_to(*event),
    ;
}

/// The answer of a page that leaves the event to the application and asks
/// for nothing.
pub open spec fn pass() -> PageReply {
    PageReply { handled: PageHandleEvent::Pass, dispatch: None }
}

impl TypingSession {
    /// A typing session can handle `event`.
    pub open spec fn accepts_event(self, event: AppEvent) -> bool {
        event matches AppEvent::Crossterm(input) ==> (input.pressed_key() matches Some(key)
            ==> self.accepts(key))
    }

    /// The session after `event`: a key press is a step of the session, any
    /// other event leaves it as it is.
    pub open spec fn after_event(self, event: AppEvent, now: u64) -> TypingSession {
        match event {
            AppEvent::Crossterm(input) => match input.pressed_key() {
                Some(key) => self.step(key, now),
                None => self,
            },
            AppEvent::App(_) => self,
        }
    }
}

impl Menu {
    /// The menu can handle `event`.
    pub open spec fn accepts_event(self, event: AppEvent) -> bool {
        event matches AppEvent::Crossterm(input) ==> (input.pressed_key() matches Some(key)
            ==> self.accepts(key))
    }

    /// The menu after `event`: a key press may move the selection, any other
    /// event leaves the menu as it is.
    pub open spec fn after_event(self, event: AppEvent) -> Menu {
        match event {
            AppEvent::Crossterm(input) => match input.pressed_key() {
                Some(key) => self.pressed(key),
                None => self,
            },
            AppEvent::App(_) => self,
        }
    }

    /// The menu's answer to `event`: it never keeps an event, and asks for
    /// the selected entry's action when Enter is pressed.
    pub open spec fn reply_to(self, event: AppEvent) -> PageReply {
        match event {
            AppEvent::Crossterm(input) => match input.pressed_key() {
                Some(key) => PageReply {
                    handled: PageHandleEvent::Pass,
                    dispatch: self.dispatched(key),
                },
                None => pass(),
            },
            AppEvent::App(_) => pass(),
        }
    }
}

impl Page for GamePage {
    open spec fn valid(&self) -> bool {
        self.wf()
    }

    open spec fn title(&self) -> Seq<char> {
        "Game"@
    }

    open spec fn accepts_event(&self, event: AppEvent) -> bool {
        self@.accepts_event(event)
    }

    open spec fn after_event(&self, event: AppEvent, now: u64) -> TypingSession {
        self@.after_event(event, now)
    }

    open spec fn reply_to(&self, event: AppEvent) -> PageReply {
        pass()
    }

    fn page_title(&self) -> (title: &str) {
        assert(self.title() == "Game"@);
        "Game"
    }

    fn can_handle(&self, event: &AppEvent) -> (accepted: bool) {
        match event {
            AppEvent::Crossterm(input) => match input.as_key_press() {
                Some(key) => self.accepts_key(&key),
                None => true,
            },
            AppEvent::App(_) => true,
        }
    }

    fn handle_event(&mut self, event: &AppEvent, now: u64) -> (reply: PageReply) {
        match event {
            AppEvent::Crossterm(input) => {
                self.handle_events(input, now);
            },
            AppEvent::App(_) => {},
        }
        PageReply { handled: PageHandleEvent::Pass, dispatch: None }
    }
}

impl Page for MenuPage {
    open spec fn valid(&self) -> bool {
        self.wf()
    }

    open spec fn title(&self) -> Seq<char> {
        "Main Page"@
    }

    open spec fn accepts_event(&self, event: AppEvent) -> bool {
        self@.accepts_event(event)
    }

    open spec fn after_event(&self, event: AppEvent, now: u64) -> Menu {
        self@.after_event(event)
    }

    open spec fn reply_to(&self, event: AppEvent) -> PageReply {
        self@.reply_to(event)
    }

    fn page_title(&self) -> (title: &str) {
        assert(self.title() == "Main Page"@);
        "Main Page"
    }

    fn can_handle(&self, event: &AppEvent) -> (accepted: bool) {
        match event {
            AppEvent::Crossterm(input) => match input.as_key_press() {
                Some(key) => self.accepts_key(&key),
                None => true,
            },
            AppEvent::App(_) => true,
        }
    }

    fn handle_event(&mut self, event: &AppEvent, now: u64) -> (reply: PageReply) {
        match event {
            AppEvent::Crossterm(input) => self.handle_cse_event(input),
            AppEvent::App(_) => PageReply { handled: PageHandleEvent::Pass, dispatch: None },
        }
    }
}

/// A page of any kind.
#[derive(Debug)]
pub enum AnyPage {
    MainMenu(MenuPage),
    GamePage(GamePage),
}

/// An `AnyPage` as contracts speak of it.
pub enum PageModel {
    MainMenu(Menu),
    GamePage(TypingSession),
}

impl PageModel {
    /// The title of the page.
    pub open spec fn title(self) -> Seq<char> {
        match self {
            PageModel::MainMenu(_) => "Main Page"@,
            PageModel::GamePage(_) => "Game"@,
        }
    }

    /// The page can handle `event`.
    pub open spec fn accepts_event(self, event: AppEvent) -> bool {
        match self {
            PageModel::MainMenu(menu) => menu.accepts_event(event),
            PageModel::GamePage(session) => session.accepts_event(event),
        }
    }

    /// The page after `event`, handled at time `now`.
    pub open spec fn after_event(self, event: AppEvent, now: u64) -> PageModel {
        match self {
            PageModel::MainMenu(menu) => PageModel::MainMenu(menu.after_event(event)),
            PageModel::GamePage(session) => PageModel::GamePage(session.after_event(event, now)),
        }
    }

    /// The page's answer to `event`.
    pub open spec fn reply_to(self, event: AppEvent) -> PageReply {
        match self {
            PageModel::MainMenu(menu) => menu.reply_to(event),
            PageModel::GamePage(_) => pass(),
        }
    }

    /// The page that is opened for `page`: the application's menu with its
    /// first entry selected, or a typing session on the built-in passage
    /// that has not started.
    pub open spec fn fresh(page: LoadablePage) -> PageModel {
        match page {
            LoadablePage::MainMenu => {
                let items = seq![
                    MenuEntry {
                        name: "Quick Game"@,
                        action: AppAction::GoTo(LoadablePage::GamePage),
                    },
                    MenuEntry { name: "Quit"@, action: AppAction::Exit },
                ];
                PageModel::MainMenu(
                    Menu { items, max_len: max_label_len(items, 2) as u16, selected: Some(0usize) },
                )
            },
            LoadablePage::GamePage => PageModel::GamePage(
                TypingSession::fresh(words_of(DEFAULT_TEXT@)),
            ),
        }
    }
}

impl View for AnyPage {
    type V = PageModel;

    open spec fn view(&self) -> PageModel {
        match self {
            AnyPage::MainMenu(page) => PageModel::MainMenu(page@),
            AnyPage::GamePage(page) => PageModel::GamePage(page@),
        }
    }
}

impl Page for AnyPage {
    open spec fn valid(&self) -> bool {
        match self {
            AnyPage::MainMenu(page) => page.wf(),
            AnyPage::GamePage(page) => page.wf(),
        }
    }

    open spec fn title(&self) -> Seq<char> {
        self@.title()
    }

    open spec fn accepts_event(&self, event: AppEvent) -> bool {
        self@.accepts_event(event)
    }

    open spec fn after_event(&self, event: AppEvent, now: u64) -> PageModel {
        self@.after_event(event, now)
    }

    open spec fn reply_to(&self, event: AppEvent) -> PageReply {
        self@.reply_to(event)
    }

    fn page_title(&self) -> (title: &str) {
        match self {
            AnyPage::MainMenu(page) => Page::page_title(page),
            AnyPage::GamePage(page) => Page::page_title(page),
        }
    }

    fn can_handle(&self, event: &AppEvent) -> (accepted: bool) {
        match self {
            AnyPage::MainMenu(page) => Page::can_handle(page, event),
            AnyPage::GamePage(page) => Page::can_handle(page, event),
        }
    }

    fn handle_event(&mut self, event: &AppEvent, now: u64) -> (reply: PageReply) {
        match self {
            AnyPage::MainMenu(page) => Page::handle_event(page, event, now),
            AnyPage::GamePage(page) => Page::handle_event(page, event, now),
        }
    }
}

/// Opens a fresh page of the given kind.
pub fn get_page(page: LoadablePage) -> (opened: AnyPage)
    ensures
        opened.valid(),
        opened@ == PageModel::fresh(page),
{
    match page {
        LoadablePage::MainMenu => AnyPage::MainMenu(MenuPage::default()),
        LoadablePage::GamePage => AnyPage::GamePage(GamePage::default()),
    }
}

} // verus!
