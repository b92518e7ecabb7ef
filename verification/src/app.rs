//! The application: a stack of pages, and what happens to each event.
//!
//! The page on top of the stack is the active one.  It is offered every event
//! first; what it does not keep, the application handles itself.  Nothing
//! here waits or draws: the loop around it collects the events, hands them
//! in one by one, and puts what comes back into the queue.

use vstd::prelude::*;
use std::time::{Duration, Instant};
use crate::events::{AppAction, AppEvent};
use crate::input::{InputEvent, KeyCode, KeyEvent};
use crate::page::{AnyPage, LoadablePage, Page, PageHandleEvent, PageModel, get_page};

verus! {

/// `std::time::Instant`: a reading of the monotonic clock.  Nothing of its
/// inside is visible here.
#[verifier::external_type_specification]
#[verifier::external_body]
pub struct ExInstant(Instant);

/// `Instant::elapsed`: the time that has passed since the instant was taken.
/// It depends on when it is called, so nothing is claimed of it.
pub assume_specification[ Instant::elapsed ](instant: &Instant) -> (elapsed: Duration);

/// `Duration::as_nanos`: the duration in nanoseconds.  Only durations that
/// the clock handed out come here, so nothing is claimed of it either.
pub assume_specification[ Duration::as_nanos ](duration: &Duration) -> (nanos: u128);

/// The name of the application, as its header shows it.
pub const APP_NAME: &'static str = "Stamba";

/// The application's state.
#[derive(Debug)]
pub struct App {
    /// Show the frame counter.
    pub debug: bool,
    /// Number of frames drawn so far, wrapping around.
    pub frame: u32,
    /// The main loop is to end.
    pub exit: bool,
    /// The page stack; the last page is the active one.
    pub pages: Vec<AnyPage>,
}

/// An `App` as contracts speak of it.
pub struct Navigator {
    pub debug: bool,
    pub frame: u32,
    pub exit: bool,
    pub pages: Seq<PageModel>,
}

/// The views of a sequence of pages.
pub open spec fn page_models(pages: Seq<AnyPage>) -> Seq<PageModel> {
    Seq::new(pages.len(), |i: int| pages[i]@)
}

impl Navigator {
    /// The state that the application starts in: the main menu alone on the
    /// stack.
    pub open spec fn initial() -> Navigator {
        Navigator {
            debug: false,
            frame: 0,
            exit: false,
            pages: seq![PageModel::fresh(LoadablePage::MainMenu)],
        }
    }

    /// The active page.
    pub open spec fn active(self) -> PageModel
        recommends
            self.pages.len() > 0,
    {
        self.pages.last()
    }

    /// The application can handle `event`: its active page can.
    pub open spec fn accepts(self, event: AppEvent) -> bool {
        self.active().accepts_event(event)
    }

    /// The application after a key press that the active page passed on:
    /// Control+C asks for the exit, Escape closes the active page unless it
    /// is the only one, no other key changes anything.
    pub open spec fn key_pressed(self, key: KeyEvent) -> Navigator {
        match key.code {
            KeyCode::Char(c) => if c == 'c' && key.control {
                Navigator { exit: true, ..self }
            } else {
                self
            },
            KeyCode::Esc => if self.pages.len() > 1 {
                Navigator { pages: self.pages.drop_last(), ..self }
            } else {
                self
            },
            _ => self,
        }
    }

    /// The application after an action: a fresh page on top of the stack, or
    /// the exit asked for.
    pub open spec fn acted(self, action: AppAction) -> Navigator {
        match action {
            AppAction::GoTo(page) => Navigator {
                pages: self.pages.push(PageModel::fresh(page)),
                ..self
            },
            AppAction::Exit => Navigator { exit: true, ..self },
        }
    }

    /// The application's own handling of an event that the active page
    /// passed on.
    pub open spec fn applied(self, event: AppEvent) -> Navigator {
        match event {
            AppEvent::Crossterm(input) => match input.pressed_key() {
                Some(key) => self.key_pressed(key),
                None => self,
            },
            AppEvent::App(action) => self.acted(action),
        }
    }

    /// The application with `event` offered to the active page at time `now`.
    pub open spec fn offered(self, event: AppEvent, now: u64) -> Navigator
        recommends
            self.pages.len() > 0,
    {
        Navigator {
            pages: self.pages.update(
                self.pages.len() - 1,
                self.active().after_event(event, now),
            ),
            ..self
        }
    }

    /// The application after `event`, handled at time `now`: the active page
    /// is offered the event, and the application handles it too unless the
    /// page kept it.
    pub open spec fn handled(self, event: AppEvent, now: u64) -> Navigator
        recommends
            self.pages.len() > 0,
    {
        match self.active().reply_to(event).handled {
            PageHandleEvent::Consume => self.offered(event, now),
            PageHandleEvent::Pass => self.offered(event, now).applied(event),
        }
    }

    /// What handling `event` puts into the event queue: what the active page
    /// asks for.
    pub open spec fn dispatched(self, event: AppEvent) -> Option<AppEvent>
        recommends
            self.pages.len() > 0,
    {
        self.active().reply_to(event).dispatch
    }
}

/// The root page stays.  Handling an event leaves at least one page on the
/// stack, changes the height of the stack by one at most, and leaves every
/// page below the active one as it was.
pub proof fn lemma_root_page_stays(nav: Navigator, event: AppEvent, now: u64)
    requires
        nav.pages.len() >= 1,
    ensures
        nav.handled(event, now).pages.len() >= 1,
        nav.pages.len() - 1 <= nav.handled(event, now).pages.len() <= nav.pages.len() + 1,
        forall|i: int|
            0 <= i < nav.pages.len() - 1 ==> nav.handled(event, now).pages[i] == nav.pages[i],
{
}

/// Escape goes back one page, but never past the root: where the active
/// page passes a press of Escape on, the stack loses its top page if it has
/// more than one page, and stays as high as it is if it has one.
pub proof fn lemma_escape_goes_back(nav: Navigator, key: KeyEvent)
    requires
        nav.pages.len() >= 1,
        key.code is Esc,
    ensures
        nav.key_pressed(key).pages == if nav.pages.len() > 1 {
            nav.pages.drop_last()
        } else {
            nav.pages
        },
        nav.key_pressed(key).pages.len() >= 1,
        nav.key_pressed(key).exit == nav.exit,
{
}

/// The active page cannot handle the event: the menu has no entry selected
/// to choose, or the typing page has no word to type.
#[derive(Debug, Clone, Copy, PartialEq, Eq, Structural)]
pub struct EventRefused;

impl View for App {
    type V = Navigator;

    open spec fn view(&self) -> Navigator {
        Navigator {
            debug: self.debug,
            frame: self.frame,
            exit: self.exit,
            pages: page_models(self.pages@),
        }
    }
}

impl Default for App {
    fn default() -> (app: App)
        ensures
            app.wf(),
            app@ == Navigator::initial(),
    {
        let mut pages: Vec<AnyPage> = Vec::new();
        pages.push(get_page(LoadablePage::MainMenu));
        let app = App { exit: false, debug: false, frame: 0, pages };
        assert(app@.pages =~= Navigator::initial().pages);
        app
    }
}

impl App {
    /// Validity of the application: the stack is never empty, and every page
    /// on it is valid.
    pub open spec fn wf(&self) -> bool {
        &&& self.pages.len() >= 1
        &&& forall|i: int| 0 <= i < self.pages.len() ==> (#[trigger] self.pages[i]).valid()
    }

    /// The application as it starts: the main menu alone on the stack.
    pub fn new() -> (app: App)
        ensures
            app.wf(),
            app@ == Navigator::initial(),
    {
        App::default()
    }

    /// Sets whether the frame counter is shown.
    pub fn debug(self, debug: bool) -> (app: App)
        requires
            self.wf(),
        ensures
            app.wf(),
            app@ == (Navigator { debug, ..self@ }),
    {
        let mut app = self;
        app.debug = debug;
        app
    }

    /// Counts one more frame drawn; the counter wraps around.
    pub fn count_frame(&mut self)
        requires
            old(self).wf(),
        ensures
            final(self).wf(),
            final(self)@ == (Navigator {
                frame: if old(self).frame < u32::MAX {
                    (old(self).frame + 1) as u32
                } else {
                    0
                },
                ..old(self)@
            }),
    {
        self.frame = if self.frame < u32::MAX {
            self.frame + 1
        } else {
            0
        };
    }

    /// The active page.
    pub fn get_active_page(&self) -> (page: &AnyPage)
        requires
            self.wf(),
        ensures
            page.valid(),
            page@ == self@.active(),
    {
        &self.pages[self.pages.len() - 1]
    }

    /// Opens a fresh page of the given kind on top of the stack.
    pub fn go_to_page(&mut self, page_id: LoadablePage)
        requires
            old(self).wf(),
        ensures
            final(self).wf(),
            final(self)@ == (Navigator {
                pages: old(self)@.pages.push(PageModel::fresh(page_id)),
                ..old(self)@
            }),
    {
        let page = get_page(page_id);
        self.pages.push(page);
        assert(self@.pages =~= old(self)@.pages.push(PageModel::fresh(page_id)));
    }

    /// Applies an action that reached the application.
    pub fn handle_action(&mut self, action: AppAction)
        requires
            old(self).wf(),
        ensures
            final(self).wf(),
            final(self)@ == old(self)@.acted(action),
    {
        match action {
            AppAction::GoTo(page) => {
                self.go_to_page(page);
            },
            AppAction::Exit => {
                self.exit = true;
            },
        }
    }

    /// Applies a key press that the active page passed on.
    pub fn handle_cse_key_event(&mut self, key_event: KeyEvent)
        requires
            old(self).wf(),
        ensures
            final(self).wf(),
            final(self)@ == old(self)@.key_pressed(key_event),
            key_event.code is Esc ==> final(self).pages.len() == if old(self).pages.len() > 1 {
                old(self).pages.len() - 1
            } else {
                1
            },
    {
        match key_event.code {
            KeyCode::Char('c') => {
                if key_event.control {
                    self.exit = true;
                }
            },
            KeyCode::Esc => {
                if self.pages.len() > 1 {
                    self.pages.pop();
                    assert(self@.pages =~= old(self)@.pages.drop_last());
                }
            },
            _ => {},
        }
    }

    /// Applies a terminal event that the active page passed on: only key
    /// presses do anything.
    pub fn handle_cse_event(&mut self, event: InputEvent)
        requires
            old(self).wf(),
        ensures
            final(self).wf(),
            final(self)@ == old(self)@.applied(AppEvent::Crossterm(event)),
    {
        match event.as_key_press() {
            Some(key_event) => {
                self.handle_cse_key_event(key_event);
            },
            None => {},
        }
    }

    /// Whether the application can handle `event`: its active page can.
    pub fn can_handle(&self, event: &AppEvent) -> (accepted: bool)
        requires
            self.wf(),
        ensures
            accepted == self@.accepts(*event),
    {
        self.pages[self.pages.len() - 1].can_handle(event)
    }

    /// Handles one event at time `now`, a reading of a monotonic clock in
    /// nanoseconds, and returns the event, if any, that is to be put into the
    /// event queue at once.
    ///
    /// The active page is offered the event first.  If it keeps the event,
    /// nothing more happens.  Otherwise the application applies it.
    pub fn handle_event(&mut self, event: AppEvent, now: u64) -> (dispatch: Option<AppEvent>)
        requires
            old(self).wf(),
            old(self)@.accepts(event),
        ensures
            final(self).wf(),
            final(self)@ == old(self)@.handled(event, now),
            dispatch == old(self)@.dispatched(event),
    {
        let last = self.pages.len() - 1;
        let reply = self.pages[last].handle_event(&event, now);
        assert(self@.pages =~= old(self)@.offered(event, now).pages);
        if let PageHandleEvent::Consume = reply.handled {
            return reply.dispatch;
        }
        match event {
            AppEvent::Crossterm(cse) => {
                self.handle_cse_event(cse);
            },
            AppEvent::App(action) => {
                self.handle_action(action);
            },
        }
        reply.dispatch
    }

    /// Handles `event` as `handle_event` does, where the application can
    /// handle it; where it cannot, nothing changes and the event is refused.
    pub fn try_handle_event(&mut self, event: AppEvent, now: u64) -> (outcome: Result<
        Option<AppEvent>,
        EventRefused,
    >)
        requires
            old(self).wf(),
        ensures
            final(self).wf(),
            old(self)@.accepts(event) ==> outcome == Ok::<Option<AppEvent>, EventRefused>(
                old(self)@.dispatched(event),
            ) && final(self)@ == old(self)@.handled(event, now),
            !old(self)@.accepts(event) ==> outcome is Err && final(self)@ == old(self)@,
    {
        if self.can_handle(&event) {
            Ok(self.handle_event(event, now))
        } else {
            Err(EventRefused)
        }
    }

    /// Reads the clock and handles `event` at the time read: nanoseconds
    /// since `origin`, or `u64::MAX` where those do not fit.  Where the
    /// application cannot handle the event, nothing changes and the event is
    /// refused.
    pub fn handle_event_now(&mut self, event: AppEvent, origin: &Instant) -> (outcome: Result<
        Option<AppEvent>,
        EventRefused,
    >)
        requires
            old(self).wf(),
        ensures
            final(self).wf(),
            old(self)@.accepts(event) ==> outcome == Ok::<Option<AppEvent>, EventRefused>(
                old(self)@.dispatched(event),
            ) && exists|now: u64| final(self)@ == #[trigger] old(self)@.handled(event, now),
            !old(self)@.accepts(event) ==> outcome is Err && final(self)@ == old(self)@,
    {
        let nanos: u128 = origin.elapsed().as_nanos();
        let now: u64 = if nanos <= u64::MAX as u128 {
            nanos as u64
        } else {
            u64::MAX
        };
        self.try_handle_event(event, now)
    }
}

} // verus!
