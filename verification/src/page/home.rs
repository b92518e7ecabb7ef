//! The main menu: a list of entries, one of them selected.
//!
//! The selection is kept in the list state of the widget that shows the menu,
//! so that drawing and key handling share it.

use vstd::prelude::*;
use vstd::utf8::encode_utf8;
use ratatui::widgets::ListState;
use crate::events::{AppAction, AppEvent};
use crate::input::{InputEvent, KeyCode, KeyEvent};
use crate::page::{LoadablePage, PageHandleEvent, PageReply};

verus! {

/// `ratatui::widgets::ListState`: the scroll offset and the selected index of
/// a list widget.  Nothing of its inside is visible here.
#[verifier::external_type_specification]
#[verifier::external_body]
pub struct ExListState(ListState);

/// The index that a list state holds as selected, if any.  It may lie beyond
/// the end of the list: the widget corrects it when it draws the list.
pub uninterp spec fn list_selected(state: ListState) -> Option<usize>;

/// `ListState::default`: a list state with nothing selected.
pub assume_specification[ <ListState as Default>::default ]() -> (state: ListState)
    ensures
        list_selected(state) is None,
;

/// `ListState::selected` returns the selected index.
pub assume_specification[ ListState::selected ](state: &ListState) -> (index: Option<usize>)
    ensures
        index == list_selected(*state),
;

/// `ListState::select` sets the selected index to the one given.
pub assume_specification[ ListState::select ](state: &mut ListState, index: Option<usize>)
    ensures
        list_selected(*final(state)) == index,
;

/// `ListState::select_next` moves the selection one down, stopping at
/// `usize::MAX`; with nothing selected it selects index 0.
pub assume_specification[ ListState::select_next ](state: &mut ListState)
    ensures
        list_selected(*final(state)) == Some(next_index(list_selected(*old(state)))),
;

/// `ListState::select_previous` moves the selection one up, stopping at 0;
/// with nothing selected it selects `usize::MAX`.
pub assume_specification[ ListState::select_previous ](state: &mut ListState)
    ensures
        list_selected(*final(state)) == Some(previous_index(list_selected(*old(state)))),
;

/// The index below `selected`.
pub open spec fn next_index(selected: Option<usize>) -> usize {
    match selected {
        Some(i) => if i < usize::MAX {
            (i + 1) as usize
        } else {
            i
        },
        None => 0,
    }
}

/// The index above `selected`.
pub open spec fn previous_index(selected: Option<usize>) -> usize {
    match selected {
        Some(i) => if i > 0 {
            (i - 1) as usize
        } else {
            i
        },
        None => usize::MAX,
    }
}

/// One entry of the menu: its label, and what choosing it asks for.
#[derive(Debug)]
pub struct MenuItem {
    pub name: String,
    pub action: AppAction,
}

/// A `MenuItem` as contracts speak of it.
pub struct MenuEntry {
    pub name: Seq<char>,
    pub action: AppAction,
}

impl View for MenuItem {
    type V = MenuEntry;

    open spec fn view(&self) -> MenuEntry {
        MenuEntry { name: self.name@, action: self.action }
    }
}

/// The views of a sequence of menu items.
pub open spec fn menu_entries(items: Seq<MenuItem>) -> Seq<MenuEntry> {
    Seq::new(items.len(), |i: int| items[i]@)
}

/// Length of a label in bytes of UTF-8.
pub open spec fn label_len(name: Seq<char>) -> usize {
    encode_utf8(name).len() as usize
}

/// The largest label length among the first `n` entries.
pub open spec fn max_label_len(items: Seq<MenuEntry>, n: nat) -> usize
    recommends
        n <= items.len(),
    decreases n,
{
    if n == 0 {
        0
    } else {
        let rest = max_label_len(items, (n - 1) as nat);
        let len = label_len(items[n - 1].name);
        if len > rest {
            len
        } else {
            rest
        }
    }
}

/// The menu page.
#[derive(Debug)]
pub struct MenuPage {
    pub menu_items: Vec<MenuItem>,
    /// Width of the widest label, for laying the menu out.
    pub menu_max_len: u16,
    pub state: ListState,
}

/// A `MenuPage` as contracts speak of it.
pub struct Menu {
    pub items: Seq<MenuEntry>,
    pub max_len: u16,
    pub selected: Option<usize>,
}

impl Menu {
    /// The selection points at an entry.
    pub open spec fn selection_in_range(self) -> bool {
        self.selected matches Some(i) && i < self.items.len()
    }

    /// The menu can handle a press of `key`: choosing needs an entry to be
    /// selected.
    pub open spec fn accepts(self, key: KeyEvent) -> bool {
        key.code is Enter ==> self.selection_in_range()
    }

    /// The menu after a press of `key`: `k` and Up move the selection up,
    /// `j` and Down move it down, no other key changes anything.
    pub open spec fn pressed(self, key: KeyEvent) -> Menu {
        if key.code == KeyCode::Char('k') || key.code is Up {
            Menu { selected: Some(previous_index(self.selected)), ..self }
        } else if key.code == KeyCode::Char('j') || key.code is Down {
            Menu { selected: Some(next_index(self.selected)), ..self }
        } else {
            self
        }
    }

    /// What a press of `key` puts into the event queue: Enter asks for the
    /// action of the selected entry, no other key for anything.
    pub open spec fn dispatched(self, key: KeyEvent) -> Option<AppEvent>
        recommends
            self.accepts(key),
    {
        if key.code is Enter {
            Some(AppEvent::App(self.items[self.selected->0 as int].action))
        } else {
            None
        }
    }
}

impl View for MenuPage {
    type V = Menu;

    open spec fn view(&self) -> Menu {
        Menu {
            items: menu_entries(self.menu_items@),
            max_len: self.menu_max_len,
            selected: list_selected(self.state),
        }
    }
}

impl MenuPage {
    /// Validity of a menu page: it has an entry, and knows its widest label.
    pub open spec fn wf(&self) -> bool {
        &&& self.menu_items.len() > 0
        &&& self.menu_max_len == max_label_len(self@.items, self@.items.len()) as u16
    }

    /// A menu of the given entries, the first of them selected.
    pub fn new(menu_items: Vec<MenuItem>) -> (page: MenuPage)
        requires
            menu_items.len() > 0,
        ensures
            page.wf(),
            page@.items == menu_entries(menu_items@),
            page@.selected == Some(0usize),
    {
        let mut state = ListState::default();
        state.select(Some(0));
        let mut max_len: usize = 0;
        let mut index: usize = 0;
        while index < menu_items.len()
            invariant
                index <= menu_items.len(),
                max_len == max_label_len(menu_entries(menu_items@), index as nat),
            decreases menu_items.len() - index,
        {
            let len = menu_items[index].name.as_str().len();
            if len > max_len {
                max_len = len;
            }
            index = index + 1;
        }
        MenuPage { menu_items, menu_max_len: #[verifier::truncate] (max_len as u16), state }
    }

    /// Whether the page can handle a press of `key`: choosing an entry needs
    /// the selection to point at one.
    pub fn accepts_key(&self, key: &KeyEvent) -> (accepted: bool)
        ensures
            accepted == self@.accepts(*key),
    {
        match key.code {
            KeyCode::Enter => match self.state.selected() {
                Some(index) => index < self.menu_items.len(),
                None => false,
            },
            _ => true,
        }
    }

    /// The event that choosing the selected entry puts into the queue.
    pub fn handle_page_action(&self) -> (event: AppEvent)
        requires
            self@.selection_in_range(),
        ensures
            event == AppEvent::App(self@.items[self@.selected->0 as int].action),
    {
        let selected = match self.state.selected() {
            Some(index) => index,
            None => 0,
        };
        AppEvent::App(self.menu_items[selected].action)
    }

    /// Handles one key press.  The page never keeps the key for itself.
    pub fn handle_cse_key_event(&mut self, key: &KeyEvent) -> (reply: PageReply)
        requires
            old(self).wf(),
            old(self)@.accepts(*key),
        ensures
            final(self).wf(),
            final(self)@ == old(self)@.pressed(*key),
            reply == (PageReply {
                handled: PageHandleEvent::Pass,
                dispatch: old(self)@.dispatched(*key),
            }),
    {
        let mut dispatch: Option<AppEvent> = None;
        match key.code {
            KeyCode::Char('k') | KeyCode::Up => {
                self.state.select_previous();
            },
            KeyCode::Char('j') | KeyCode::Down => {
                self.state.select_next();
            },
            KeyCode::Enter => {
                dispatch = Some(self.handle_page_action());
            },
            _ => {},
        }
        PageReply { handled: PageHandleEvent::Pass, dispatch }
    }

    /// Handles one terminal event: a key press goes to
    /// `handle_cse_key_event`, anything else is passed on unchanged.
    pub fn handle_cse_event(&mut self, event: &InputEvent) -> (reply: PageReply)
        requires
            old(self).wf(),
            event.pressed_key() matches Some(key) ==> old(self)@.accepts(key),
        ensures
            final(self).wf(),
            final(self)@ == match event.pressed_key() {
                Some(key) => old(self)@.pressed(key),
                None => old(self)@,
            },
            reply == (PageReply {
                handled: PageHandleEvent::Pass,
                dispatch: match event.pressed_key() {
                    Some(key) => old(self)@.dispatched(key),
                    None => None,
                },
            }),
    {
        match event.as_key_press() {
            Some(key) => self.handle_cse_key_event(&key),
            None => PageReply { handled: PageHandleEvent::Pass, dispatch: None },
        }
    }
}

impl Default for MenuPage {
    /// The application's menu: start a game, or quit.
    fn default() -> (page: MenuPage)
        ensures
            page.wf(),
            page@.items == seq![
                MenuEntry {
                    name: "Quick Game"@,
                    action: AppAction::GoTo(LoadablePage::GamePage),
                },
                MenuEntry { name: "Quit"@, action: AppAction::Exit },
            ],
            page@.selected == Some(0usize),
    {
        let mut items: Vec<MenuItem> = Vec::new();
        items.push(
            MenuItem {
                name: "Quick Game".to_owned(),
                action: AppAction::GoTo(LoadablePage::GamePage),
            },
        );
        items.push(MenuItem { name: "Quit".to_owned(), action: AppAction::Exit });
        let page = MenuPage::new(items);
        assert(page@.items =~= seq![
            MenuEntry {
                name: "Quick Game"@,
                action: AppAction::GoTo(LoadablePage::GamePage),
            },
            MenuEntry { name: "Quit"@, action: AppAction::Exit },
        ]);
        page
    }
}

} // verus!
