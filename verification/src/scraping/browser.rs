//! The state of the browser session, and the watch history that a
//! logged-in session hands out.

use vstd::prelude::*;
use crate::error::{AppError, AppErrorView};
use crate::metadata::models::{MediaType, clone_opt, opt_view};
use crate::metadata::normalize::{extract_year, year_of_date};
use crate::scraping::login::{
    LoginAction, LoginFlow, LoginMethod, handle_login, method_email, method_password, spec_begin,
};
use crate::text::chars_of;

verus! {

/// Whether the session has a browser, and whether it is logged in.
#[derive(Debug, Clone, Copy, PartialEq, Eq, Structural)]
pub enum SessionState {
    Disconnected,
    Connected { authenticated: bool },
}

/// The browser session: what is known of the connection to the driver.
/// Whoever holds the connection itself reports to the controller how each
/// attempt on it went.
#[derive(Debug)]
pub struct BrowserController {
    state: SessionState,
    headless: bool,
    timeout_secs: u64,
}

/// The message of the error for an operation that needs a connection.
pub open spec fn not_connected_message() -> Seq<char> {
    "browser is not connected"@
}

/// The message of the error for an operation that needs a login.
pub open spec fn not_logged_in_message() -> Seq<char> {
    "session is not logged in"@
}

/// The session after an attempt to connect: a new connection is not logged
/// in; after a failure the session is as before.
pub open spec fn spec_start(state: SessionState, connected: Result<(), String>) -> (
    SessionState,
    Result<(), AppErrorView>,
) {
    match connected {
        Ok(()) => (SessionState::Connected { authenticated: false }, Ok(())),
        Err(reason) => (state, Err(AppErrorView::Browser(reason@))),
    }
}

/// The session after a shutdown: without a connection in any case. Where
/// there was one and it did not close cleanly, that is the error.
pub open spec fn spec_shutdown(state: SessionState, closed: Result<(), String>) -> (
    SessionState,
    Result<(), AppErrorView>,
) {
    match state {
        SessionState::Disconnected => (SessionState::Disconnected, Ok(())),
        SessionState::Connected { .. } => (
            SessionState::Disconnected,
            match closed {
                Ok(()) => Ok(()),
                Err(reason) => Err(AppErrorView::Browser(reason@)),
            },
        ),
    }
}

/// The session after a restart: a shutdown, and where that went well, a
/// start.
pub open spec fn spec_restart(
    state: SessionState,
    closed: Result<(), String>,
    connected: Result<(), String>,
) -> (SessionState, Result<(), AppErrorView>) {
    let (down, outcome) = spec_shutdown(state, closed);
    match outcome {
        Ok(()) => spec_start(down, connected),
        Err(e) => (down, Err(e)),
    }
}

/// The session after a login: logged in where the login went well on a
/// connected session. A login without a connection is a `BrowserError`.
pub open spec fn spec_finish_login(state: SessionState, login: Result<(), AppErrorView>) -> (
    SessionState,
    Result<(), AppErrorView>,
) {
    match state {
        SessionState::Disconnected => (state, Err(AppErrorView::Browser(not_connected_message()))),
        SessionState::Connected { authenticated } => match login {
            Ok(()) => (SessionState::Connected { authenticated: true }, Ok(())),
            Err(e) => (SessionState::Connected { authenticated: false }, Err(e)),
        },
    }
}

impl BrowserController {
    /// Whether the session has a browser, and whether it is logged in.
    pub closed spec fn spec_state(&self) -> SessionState {
        self.state
    }

    /// Whether the browser is to run without a window.
    pub closed spec fn spec_headless(&self) -> bool {
        self.headless
    }

    /// The time allowed to an operation of the browser, in seconds.
    pub closed spec fn spec_timeout_secs(&self) -> u64 {
        self.timeout_secs
    }

    /// A session without a connection.
    pub fn new(headless: bool, timeout_secs: u64) -> (controller: BrowserController)
        ensures
            controller.spec_state() is Disconnected,
            controller.spec_headless() == headless,
            controller.spec_timeout_secs() == timeout_secs,
    {
        BrowserController { state: SessionState::Disconnected, headless, timeout_secs }
    }

    /// Whether the session has a browser, and whether it is logged in.
    pub fn state(&self) -> (state: SessionState)
        ensures
            state == self.spec_state(),
    {
        self.state
    }

    /// Whether the browser is to run without a window.
    pub fn headless(&self) -> (headless: bool)
        ensures
            headless == self.spec_headless(),
    {
        self.headless
    }

    /// The time allowed to an operation of the browser, in seconds.
    pub fn timeout_secs(&self) -> (seconds: u64)
        ensures
            seconds == self.spec_timeout_secs(),
    {
        self.timeout_secs
    }

    /// Where the driver listens.
    pub fn endpoint() -> (endpoint: &'static str)
        ensures
            endpoint@ == "http://localhost:4444"@,
    {
        "http://localhost:4444"
    }

    /// Whether the session has a connection.
    pub fn is_connected(&self) -> (connected: bool)
        ensures
            connected == (self.spec_state() is Connected),
    {
        match self.state {
            SessionState::Connected { .. } => true,
            SessionState::Disconnected => false,
        }
    }

    /// Whether the session is logged in.
    pub fn is_authenticated(&self) -> (authenticated: bool)
        ensures
            authenticated == (self.spec_state() == SessionState::Connected { authenticated: true }),
    {
        match self.state {
            SessionState::Connected { authenticated } => authenticated,
            SessionState::Disconnected => false,
        }
    }

    /// Takes in how the attempt to connect to the driver went.
    pub fn start(&mut self, connected: Result<(), String>) -> (outcome: Result<(), AppError>)
        ensures
            final(self).spec_headless() == old(self).spec_headless(),
            final(self).spec_timeout_secs() == old(self).spec_timeout_secs(),
            final(self).spec_state() == spec_start(old(self).spec_state(), connected).0,
            match spec_start(old(self).spec_state(), connected).1 {
                Ok(()) => outcome is Ok,
                Err(e) => outcome is Err && outcome->Err_0@ == e,
            },
    {
        match connected {
            Ok(()) => {
                self.state = SessionState::Connected { authenticated: false };
                Ok(())
            },
            Err(reason) => Err(AppError::BrowserError(reason)),
        }
    }

    /// Gives the connection up and takes in how its closing went. Where
    /// there is no connection nothing was closed, and `closed` is not looked
    /// at.
    pub fn shutdown(&mut self, closed: Result<(), String>) -> (outcome: Result<(), AppError>)
        ensures
            final(self).spec_headless() == old(self).spec_headless(),
            final(self).spec_timeout_secs() == old(self).spec_timeout_secs(),
            final(self).spec_state() == spec_shutdown(old(self).spec_state(), closed).0,
            match spec_shutdown(old(self).spec_state(), closed).1 {
                Ok(()) => outcome is Ok,
                Err(e) => outcome is Err && outcome->Err_0@ == e,
            },
    {
        if self.is_connected() {
            self.state = SessionState::Disconnected;
            match closed {
                Ok(()) => Ok(()),
                Err(reason) => Err(AppError::BrowserError(reason)),
            }
        } else {
            Ok(())
        }
    }

    /// A shutdown followed by a start. `connected` is looked at only where
    /// the shutdown went well.
    pub fn restart(&mut self, closed: Result<(), String>, connected: Result<(), String>) -> (outcome:
        Result<(), AppError>)
        ensures
            final(self).spec_headless() == old(self).spec_headless(),
            final(self).spec_timeout_secs() == old(self).spec_timeout_secs(),
            final(self).spec_state() == spec_restart(old(self).spec_state(), closed, connected).0,
            match spec_restart(old(self).spec_state(), closed, connected).1 {
                Ok(()) => outcome is Ok,
                Err(e) => outcome is Err && outcome->Err_0@ == e,
            },
    {
        match self.shutdown(closed) {
            Ok(()) => self.start(connected),
            Err(e) => Err(e),
        }
    }

    /// Starts a login on the connection. Without a connection, a
    /// `BrowserError`.
    pub fn begin_login(&self, method: LoginMethod) -> (started: Result<
        (LoginFlow, LoginAction),
        AppError,
    >)
        ensures
            self.spec_state() is Connected ==> {
                &&& started is Ok
                &&& started->Ok_0.0.spec_stage() == spec_begin(method).0
                &&& started->Ok_0.0.spec_email() == method_email(method)
                &&& started->Ok_0.0.spec_password() == method_password(method)
                &&& started->Ok_0.1@ == spec_begin(method).1
            },
            self.spec_state() is Disconnected ==> started is Err && started->Err_0@
                == AppErrorView::Browser(not_connected_message()),
    {
        if self.is_connected() {
            Ok(handle_login(method))
        } else {
            Err(AppError::BrowserError("browser is not connected".to_owned()))
        }
    }

    /// Takes in how a login ended.
    pub fn finish_login(&mut self, login: Result<(), AppError>) -> (outcome: Result<(), AppError>)
        ensures
            final(self).spec_headless() == old(self).spec_headless(),
            final(self).spec_timeout_secs() == old(self).spec_timeout_secs(),
            ({
                let expected = spec_finish_login(
                    old(self).spec_state(),
                    match login {
                        Ok(()) => Ok(()),
                        Err(e) => Err(e@),
                    },
                );
                &&& final(self).spec_state() == expected.0
                &&& match expected.1 {
                    Ok(()) => outcome is Ok,
                    Err(e) => outcome is Err && outcome->Err_0@ == e,
                }
            }),
    {
        if self.is_connected() {
            match login {
                Ok(()) => {
                    self.state = SessionState::Connected { authenticated: true };
                    Ok(())
                },
                Err(e) => {
                    self.state = SessionState::Connected { authenticated: false };
                    Err(e)
                },
            }
        } else {
            Err(AppError::BrowserError("browser is not connected".to_owned()))
        }
    }

    /// Opens the watch history that was read from the page. Only a session
    /// that is logged in has one: without a connection a `BrowserError`,
    /// without a login an `AuthError`.
    pub fn scrape(&self, entries: Vec<RawEntry>) -> (history: Result<WatchHistory, AppError>)
        ensures
            match self.spec_state() {
                SessionState::Connected { authenticated: true } => history is Ok
                    && history->Ok_0.remaining() == entries_view(entries@),
                SessionState::Connected { authenticated: false } => history is Err
                    && history->Err_0@ == AppErrorView::Auth(not_logged_in_message()),
                SessionState::Disconnected => history is Err && history->Err_0@
                    == AppErrorView::Browser(not_connected_message()),
            },
    {
        match self.state {
            SessionState::Connected { authenticated } => {
                if authenticated {
                    Ok(WatchHistory::new(entries))
                } else {
                    Err(AppError::AuthError("session is not logged in".to_owned()))
                }
            },
            SessionState::Disconnected => Err(
                AppError::BrowserError("browser is not connected".to_owned()),
            ),
        }
    }
}

/// One entry of the watch history as the page shows it.
#[derive(Debug, Clone, PartialEq, Eq)]
pub struct RawEntry {
    pub title: String,
    /// The date that the page shows with the entry, where it shows one.
    pub date: Option<String>,
    /// The kind of work, where the page says it.
    pub media_type: Option<MediaType>,
}

/// The mathematical value of a [`RawEntry`].
pub struct RawEntryView {
    pub title: Seq<char>,
    pub date: Option<Seq<char>>,
    pub media_type: Option<MediaType>,
}

impl View for RawEntry {
    type V = RawEntryView;

    open spec fn view(&self) -> RawEntryView {
        RawEntryView {
            title: self.title@,
            date: opt_view(self.date),
            media_type: self.media_type,
        }
    }
}

/// The views of a list of entries, in order.
pub open spec fn entries_view(entries: Seq<RawEntry>) -> Seq<RawEntryView> {
    Seq::new(entries.len(), |i: int| entries[i]@)
}

/// The value of a decimal digit, or `None` for any other character.
pub open spec fn digit_value(c: char) -> Option<int> {
    if c == '0' {
        Some(0)
    } else if c == '1' {
        Some(1)
    } else if c == '2' {
        Some(2)
    } else if c == '3' {
        Some(3)
    } else if c == '4' {
        Some(4)
    } else if c == '5' {
        Some(5)
    } else if c == '6' {
        Some(6)
    } else if c == '7' {
        Some(7)
    } else if c == '8' {
        Some(8)
    } else if c == '9' {
        Some(9)
    } else {
        None
    }
}

/// The number that four decimal digits write, or `None` for any other
/// text.
pub open spec fn four_digit_number(text: Seq<char>) -> Option<int> {
    if text.len() == 4 && digit_value(text[0]) is Some && digit_value(text[1]) is Some
        && digit_value(text[2]) is Some && digit_value(text[3]) is Some {
        Some(
            digit_value(text[0])->0 * 1000 + digit_value(text[1])->0 * 100 + digit_value(
                text[2],
            )->0 * 10 + digit_value(text[3])->0,
        )
    } else {
        None
    }
}

/// The year that the date of an entry gives as a hint: the year of the date
/// where that is a number of four digits.
pub open spec fn spec_year_hint(date: Option<Seq<char>>) -> Option<int> {
    match date {
        Some(d) => four_digit_number(year_of_date(d)),
        None => None,
    }
}

fn digit_of(c: char) -> (value: Option<i32>)
    ensures
        match digit_value(c) {
            Some(v) => value == Some(v as i32) && 0 <= v <= 9,
            None => value is None,
        },
{
    if c == '0' {
        Some(0)
    } else if c == '1' {
        Some(1)
    } else if c == '2' {
        Some(2)
    } else if c == '3' {
        Some(3)
    } else if c == '4' {
        Some(4)
    } else if c == '5' {
        Some(5)
    } else if c == '6' {
        Some(6)
    } else if c == '7' {
        Some(7)
    } else if c == '8' {
        Some(8)
    } else if c == '9' {
        Some(9)
    } else {
        None
    }
}

impl RawEntry {
    /// The kind of work to ask the providers for: the one that the page
    /// says, and a movie where it says none.
    pub fn kind(&self) -> (kind: MediaType)
        ensures
            kind == match self.media_type {
                Some(k) => k,
                None => MediaType::Movie,
            },
    {
        match self.media_type {
            Some(k) => k,
            None => MediaType::Movie,
        }
    }

    /// The year to narrow a search with, where the date of the entry gives
    /// one.
    pub fn year_hint(&self) -> (year: Option<i32>)
        ensures
            match spec_year_hint(opt_view(self.date)) {
                Some(y) => year == Some(y as i32) && 0 <= y <= 9999,
                None => year is None,
            },
    {
        match &self.date {
            Some(date) => {
                let year = extract_year(date.as_str());
                let digits = chars_of(year.as_str());
                if digits.len() != 4 {
                    return None;
                }
                match (
                    digit_of(digits[0]),
                    digit_of(digits[1]),
                    digit_of(digits[2]),
                    digit_of(digits[3]),
                ) {
                    (Some(a), Some(b), Some(c), Some(d)) => Some(a * 1000 + b * 100 + c * 10 + d),
                    _ => None,
                }
            },
            None => None,
        }
    }

    /// A copy of this entry.
    pub fn duplicate(&self) -> (out: RawEntry)
        ensures
            out@ == self@,
    {
        RawEntry {
            title: self.title.clone(),
            date: clone_opt(&self.date),
            media_type: self.media_type,
        }
    }
}

/// The entries of the watch history, handed out one by one, each one once.
#[derive(Debug)]
pub struct WatchHistory {
    entries: Vec<RawEntry>,
    position: usize,
}

impl WatchHistory {
    #[verifier::type_invariant]
    spec fn well_formed(&self) -> bool {
        self.position <= self.entries@.len()
    }

    /// The entries that have not been handed out yet, in order.
    pub closed spec fn remaining(&self) -> Seq<RawEntryView> {
        entries_view(self.entries@).skip(self.position as int)
    }

    /// A history that hands out `entries` in their order.
    pub fn new(entries: Vec<RawEntry>) -> (history: WatchHistory)
        ensures
            history.remaining() == entries_view(entries@),
    {
        let history = WatchHistory { entries, position: 0 };
        history
    }

    /// How many entries have not been handed out yet.
    pub fn len(&self) -> (count: usize)
        ensures
            count == self.remaining().len(),
    {
        proof {
            use_type_invariant(self);
        }
        self.entries.len() - self.position
    }

    /// The next entry, or `None` once every entry was handed out.
    pub fn next_entry(&mut self) -> (entry: Option<RawEntry>)
        ensures
            old(self).remaining().len() > 0 ==> entry is Some && entry->Some_0@ == old(
                self,
            ).remaining()[0] && final(self).remaining() == old(self).remaining().drop_first(),
            old(self).remaining().len() == 0 ==> entry is None && final(self).remaining()
                == old(self).remaining(),
    {
        proof {
            use_type_invariant(&*self);
        }
        if self.position < self.entries.len() {
            let entry = self.entries[self.position].duplicate();
            self.position = self.position + 1;
            Some(entry)
        } else {
            None
        }
    }
}

} // verus!
