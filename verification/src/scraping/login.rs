//! The login, step by step: what the browser is to do next and what the
//! page must show for the session to count as logged in.

use vstd::prelude::*;
use crate::error::{AppError, AppErrorView};
use crate::text::{contains, ends_with, joined, seq_contains, seq_ends_with};

verus! {

/// How the operator wants to log in.
#[derive(Debug, Clone, PartialEq, Eq)]
pub enum LoginMethod {
    Manual,
    Automated { email: String, password: String },
}

/// Where the browser stands: the whole URL of the page and its path part.
#[derive(Debug, Clone, PartialEq, Eq)]
pub struct PageLocation {
    pub url: String,
    pub path: String,
}

/// What the browser shows after a login attempt: where it stands, and for
/// each selector of `page_checks`, in order, whether the page has a match.
#[derive(Debug, Clone, PartialEq, Eq)]
pub struct PageSnapshot {
    pub location: PageLocation,
    pub found: Vec<bool>,
}

/// The URL names the watch-history page.
pub open spec fn on_history_page(url: Seq<char>) -> bool {
    seq_contains(url, "watch-history"@)
}

/// The path is that of a sign-in page.
pub open spec fn on_sign_in_page(path: Seq<char>) -> bool {
    seq_contains(path, "signin"@) || seq_contains(path, "/login"@) || seq_contains(path, "/auth"@)
}

/// The message of the error for a browser that stands on a sign-in page.
pub open spec fn sign_in_first_message() -> Seq<char> {
    "Please log in to Prime Video first"@
}

/// The message of the error for a browser that stands neither on a sign-in
/// page nor on the watch-history page.
pub open spec fn navigate_first_message() -> Seq<char> {
    "Please navigate to your Prime Video watch history page"@
}

/// Whether the place shows that the session is logged in: it is the
/// watch-history page and no sign-in page. Anything else is an `AuthError`.
pub open spec fn spec_verify_location(url: Seq<char>, path: Seq<char>) -> Result<(), AppErrorView> {
    if on_sign_in_page(path) {
        Err(AppErrorView::Auth(sign_in_first_message()))
    } else if !on_history_page(url) {
        Err(AppErrorView::Auth(navigate_first_message()))
    } else {
        Ok(())
    }
}

/// Checks that the browser stands on the watch-history page and on no
/// sign-in page.
pub fn verify_location(location: &PageLocation) -> (verdict: Result<(), AppError>)
    ensures
        match spec_verify_location(location.url@, location.path@) {
            Ok(()) => verdict is Ok,
            Err(e) => verdict is Err && verdict->Err_0@ == e,
        },
        verdict is Ok <==> on_history_page(location.url@) && !on_sign_in_page(location.path@),
        verdict matches Err(e) ==> e@ is Auth,
{
    let path = location.path.as_str();
    if contains(path, "signin") || contains(path, "/login") || contains(path, "/auth") {
        Err(AppError::AuthError("Please log in to Prime Video first".to_owned()))
    } else if !contains(location.url.as_str(), "watch-history") {
        Err(AppError::AuthError("Please navigate to your Prime Video watch history page".to_owned()))
    } else {
        Ok(())
    }
}

/// How many selectors `page_checks` holds.
pub const PAGE_CHECKS: usize = 10;

/// How many of them, the first ones, are markers of a logged-in page. The
/// others are fields of the login form.
pub const PAGE_MARKERS: usize = 8;

/// The selector at a position of `page_checks`.
pub open spec fn spec_page_check(index: int) -> Seq<char> {
    if index == 0 {
        "[data-testid='watch-history']"@
    } else if index == 1 {
        ".watch-history"@
    } else if index == 2 {
        "[data-automation-id='watch-history']"@
    } else if index == 3 {
        "[data-testid='account-menu']"@
    } else if index == 4 {
        ".account-menu"@
    } else if index == 5 {
        "[data-automation-id='account-menu']"@
    } else if index == 6 {
        "[data-testid='av-nav-main']"@
    } else if index == 7 {
        ".av-nav-main"@
    } else if index == 8 {
        "input[name='email']"@
    } else {
        "input[name='password']"@
    }
}

/// The selectors of `page_checks`, in order.
pub open spec fn spec_page_checks() -> Seq<Seq<char>> {
    Seq::new(PAGE_CHECKS as nat, |i: int| spec_page_check(i))
}

/// The views of a list of strings, in order.
pub open spec fn strings_view(strings: Seq<String>) -> Seq<Seq<char>> {
    Seq::new(strings.len(), |i: int| strings[i]@)
}

fn page_check(index: usize) -> (selector: &'static str)
    requires
        index < PAGE_CHECKS,
    ensures
        selector@ == spec_page_check(index as int),
{
    if index == 0 {
        "[data-testid='watch-history']"
    } else if index == 1 {
        ".watch-history"
    } else if index == 2 {
        "[data-automation-id='watch-history']"
    } else if index == 3 {
        "[data-testid='account-menu']"
    } else if index == 4 {
        ".account-menu"
    } else if index == 5 {
        "[data-automation-id='account-menu']"
    } else if index == 6 {
        "[data-testid='av-nav-main']"
    } else if index == 7 {
        ".av-nav-main"
    } else if index == 8 {
        "input[name='email']"
    } else {
        "input[name='password']"
    }
}

/// The selectors to look for on the page after a login attempt: first the
/// markers of the watch history, of the account menu and of the navigation,
/// then the fields of the login form.
pub fn page_checks() -> (selectors: Vec<String>)
    ensures
        strings_view(selectors@) == spec_page_checks(),
{
    let mut selectors: Vec<String> = Vec::new();
    let mut i: usize = 0;
    while i < PAGE_CHECKS
        invariant
            i <= PAGE_CHECKS,
            selectors@.len() == i,
            forall|j: int| 0 <= j < i ==> selectors@[j]@ == spec_page_check(j),
        decreases PAGE_CHECKS - i,
    {
        selectors.push(page_check(i).to_owned());
        i += 1;
    }
    selectors
}

/// Some marker of a logged-in page was found.
pub open spec fn marker_found(found: Seq<bool>) -> bool {
    exists|i: int| 0 <= i < PAGE_MARKERS && i < found.len() && found[i]
}

/// Some field of the login form was found.
pub open spec fn form_found(found: Seq<bool>) -> bool {
    exists|i: int| PAGE_MARKERS <= i < found.len() && found[i]
}

/// The page is that of a logged-in session: the place is right, every
/// selector was looked for, no field of the login form is on the page and
/// some marker of a logged-in page is.
pub open spec fn spec_is_logged_in(url: Seq<char>, path: Seq<char>, found: Seq<bool>) -> bool {
    &&& spec_verify_location(url, path) is Ok
    &&& found.len() == PAGE_CHECKS
    &&& !form_found(found)
    &&& marker_found(found)
}

fn any_found(found: &Vec<bool>, from: usize, to: usize) -> (any: bool)
    requires
        from <= to <= found.len(),
    ensures
        any == exists|i: int| from <= i < to && found@[i],
{
    let mut i: usize = from;
    while i < to
        invariant
            from <= i <= to,
            to <= found.len(),
            forall|j: int| from <= j < i ==> !found@[j],
        decreases to - i,
    {
        if found[i] {
            return true;
        }
        i += 1;
    }
    false
}

/// Whether the page is that of a logged-in session.
pub fn is_logged_in(page: &PageSnapshot) -> (logged_in: bool)
    ensures
        logged_in == spec_is_logged_in(page.location.url@, page.location.path@, page.found@),
{
    if page.found.len() != PAGE_CHECKS {
        return false;
    }
    let place = verify_location(&page.location);
    let form = any_found(&page.found, PAGE_MARKERS, PAGE_CHECKS);
    let marker = any_found(&page.found, 0, PAGE_MARKERS);
    place.is_ok() && !form && marker
}

/// The site to log in at, from the address of the account: the regional
/// site where the address ends with its suffix, else the international
/// one.
pub open spec fn spec_login_domain(email: Seq<char>) -> Seq<char> {
    if seq_ends_with(email, ".co.uk"@) {
        "amazon.co.uk"@
    } else if seq_ends_with(email, ".de"@) {
        "amazon.de"@
    } else if seq_ends_with(email, ".it"@) {
        "amazon.it"@
    } else {
        "amazon.com"@
    }
}

/// The URL of the sign-in page for an account.
pub open spec fn spec_login_url(email: Seq<char>) -> Seq<char> {
    "https://www."@ + spec_login_domain(email) + "/ap/signin"@
}

/// The site to log in at.
pub fn login_domain(email: &str) -> (domain: &'static str)
    ensures
        domain@ == spec_login_domain(email@),
{
    if ends_with(email, ".co.uk") {
        "amazon.co.uk"
    } else if ends_with(email, ".de") {
        "amazon.de"
    } else if ends_with(email, ".it") {
        "amazon.it"
    } else {
        "amazon.com"
    }
}

/// The URL of the sign-in page for an account.
pub fn login_url(email: &str) -> (url: String)
    ensures
        url@ == spec_login_url(email@),
{
    let mut url = joined("https://www.", login_domain(email));
    url.append("/ap/signin");
    url
}

/// How long to wait for an element of a form, in seconds.
pub const ELEMENT_WAIT_SECONDS: u64 = 10;

/// How long to wait for the operator at most, in seconds.
pub const OPERATOR_CEILING_SECONDS: u64 = 300;

/// What the browser is to do next.
#[derive(Debug, PartialEq, Eq)]
pub enum LoginAction {
    /// Open the page. Answer `Completed` or `Failed`.
    Goto { url: String },
    /// Wait for the element, at most so long, and type the value into it.
    /// Answer `Completed` or `Failed`.
    Fill { selector: String, value: String, wait_seconds: u64 },
    /// Wait for the element, at most so long, and click it. Answer
    /// `Completed` or `Failed`.
    Click { selector: String, wait_seconds: u64 },
    /// Look for the element without waiting. Answer `Probed`.
    Probe { selector: String },
    /// Wait until the operator confirms, at most so long. Answer
    /// `Confirmed`, `TimedOut` or `InputFailed`.
    AwaitOperator { ceiling_seconds: u64 },
    /// Say where the browser stands. Answer `Location`.
    ReadLocation,
    /// Say where the browser stands and which of the selectors match.
    /// Answer `Inspected`.
    Inspect { selectors: Vec<String> },
    /// The login is over.
    Done(Result<(), AppError>),
}

/// The mathematical value of a [`LoginAction`].
pub enum LoginActionView {
    Goto { url: Seq<char> },
    Fill { selector: Seq<char>, value: Seq<char>, wait_seconds: u64 },
    Click { selector: Seq<char>, wait_seconds: u64 },
    Probe { selector: Seq<char> },
    AwaitOperator { ceiling_seconds: u64 },
    ReadLocation,
    Inspect { selectors: Seq<Seq<char>> },
    Done(Result<(), AppErrorView>),
}

impl View for LoginAction {
    type V = LoginActionView;

    open spec fn view(&self) -> LoginActionView {
        match *self {
            LoginAction::Goto { url } => LoginActionView::Goto { url: url@ },
            LoginAction::Fill { selector, value, wait_seconds } => LoginActionView::Fill {
                selector: selector@,
                value: value@,
                wait_seconds,
            },
            LoginAction::Click { selector, wait_seconds } => LoginActionView::Click {
                selector: selector@,
                wait_seconds,
            },
            LoginAction::Probe { selector } => LoginActionView::Probe { selector: selector@ },
            LoginAction::AwaitOperator { ceiling_seconds } => LoginActionView::AwaitOperator {
                ceiling_seconds,
            },
            LoginAction::ReadLocation => LoginActionView::ReadLocation,
            LoginAction::Inspect { selectors } => LoginActionView::Inspect {
                selectors: strings_view(selectors@),
            },
            LoginAction::Done(Ok(())) => LoginActionView::Done(Ok(())),
            LoginAction::Done(Err(e)) => LoginActionView::Done(Err(e@)),
        }
    }
}

/// How the last action ended.
#[derive(Debug, Clone, PartialEq, Eq)]
pub enum LoginEvent {
    /// The browser did what it was asked.
    Completed,
    /// The browser could not: the page did not load, or the element did not
    /// come within the wait.
    Failed(String),
    /// Whether the element was found.
    Probed { found: bool },
    /// The operator confirmed.
    Confirmed,
    /// The wait for the operator reached its ceiling.
    TimedOut,
    /// The operator's confirmation could not be read.
    InputFailed(String),
    /// Where the browser stands.
    Location(PageLocation),
    /// Where the browser stands and what the page holds.
    Inspected(PageSnapshot),
}

/// Where a login stands.
#[derive(Debug, Clone, Copy, PartialEq, Eq, Structural)]
pub enum LoginStage {
    /// Manual: the watch-history page is opening.
    Navigating,
    /// Manual: the operator is logging in.
    AwaitingOperator,
    /// Manual: the place is being read.
    ReadingLocation,
    /// Automated: the sign-in page is opening.
    OpeningSignIn,
    /// Automated: the address is being typed.
    EnteringEmail,
    /// Automated: the address is being submitted.
    Continuing,
    /// Automated: the password is being typed.
    EnteringPassword,
    /// Automated: the form is being submitted.
    Submitting,
    /// Automated: the page is searched for a two-factor challenge.
    CheckingTwoFactor,
    /// Automated: the page is inspected for the signs of a session.
    Inspecting,
    /// The login is over.
    Finished,
}

/// The page that shows the watch history.
pub open spec fn history_url() -> Seq<char> {
    "https://www.primevideo.com/settings/watch-history"@
}

/// The field for the address.
pub open spec fn email_field() -> Seq<char> {
    "input[name='email'], input[name='ap_email']"@
}

/// The field for the password.
pub open spec fn password_field() -> Seq<char> {
    "input[name='password'], input[name='ap_password']"@
}

/// The button after the address.
pub open spec fn continue_button() -> Seq<char> {
    "#continue"@
}

/// The button after the password.
pub open spec fn submit_button() -> Seq<char> {
    "#signInSubmit"@
}

/// The marks of a two-factor challenge.
pub open spec fn two_factor_marks() -> Seq<char> {
    "#auth-mfa-otpcode, .cvf-widget-input-code"@
}

/// The message of the error for a two-factor challenge.
pub open spec fn two_factor_message() -> Seq<char> {
    "2FA detected - manual login required"@
}

/// The message of the error for an automated login after which the page is
/// not that of a session.
pub open spec fn login_failed_message() -> Seq<char> {
    "Automated login failed"@
}

/// The message of the error for an event that the login did not ask for.
pub open spec fn event_out_of_turn_message() -> Seq<char> {
    "event out of turn"@
}

/// The message of the error for a confirmation that could not be read.
pub open spec fn input_failed_message(reason: Seq<char>) -> Seq<char> {
    "Failed to read input: "@ + reason
}

/// The action that types a value into a field, waiting for the field.
pub open spec fn spec_fill(selector: Seq<char>, value: Seq<char>) -> LoginActionView {
    LoginActionView::Fill { selector, value, wait_seconds: ELEMENT_WAIT_SECONDS }
}

/// The action that clicks an element, waiting for it.
pub open spec fn spec_click(selector: Seq<char>) -> LoginActionView {
    LoginActionView::Click { selector, wait_seconds: ELEMENT_WAIT_SECONDS }
}

/// The login ends with an error.
pub open spec fn spec_fail(e: AppErrorView) -> (LoginStage, LoginActionView) {
    (LoginStage::Finished, LoginActionView::Done(Err(e)))
}

/// The first stage and action of a login.
pub open spec fn spec_begin(method: LoginMethod) -> (LoginStage, LoginActionView) {
    match method {
        LoginMethod::Manual => (LoginStage::Navigating, LoginActionView::Goto { url: history_url() }),
        LoginMethod::Automated { email, password } => (
            LoginStage::OpeningSignIn,
            LoginActionView::Goto { url: spec_login_url(email@) },
        ),
    }
}

/// The next stage and action of a login, from how the last action ended.
///
/// A failure of the browser ends the login with a `BrowserError`. A manual
/// login opens the watch-history page, waits for the operator and then
/// checks the place. An automated login opens the sign-in page, types the
/// address, continues, types the password and submits; a two-factor
/// challenge then ends it with an `AuthError`, and otherwise the page
/// decides. An event that the stage did not ask for ends the login.
pub open spec fn spec_advance(
    stage: LoginStage,
    email: Seq<char>,
    password: Seq<char>,
    event: LoginEvent,
) -> (LoginStage, LoginActionView) {
    if stage is Finished {
        spec_fail(AppErrorView::Browser(event_out_of_turn_message()))
    } else {
        match (stage, event) {
            (_, LoginEvent::Failed(reason)) => spec_fail(AppErrorView::Browser(reason@)),
            (LoginStage::Navigating, LoginEvent::Completed) => (
                LoginStage::AwaitingOperator,
                LoginActionView::AwaitOperator { ceiling_seconds: OPERATOR_CEILING_SECONDS },
            ),
            (LoginStage::AwaitingOperator, LoginEvent::Confirmed) => (
                LoginStage::ReadingLocation,
                LoginActionView::ReadLocation,
            ),
            (LoginStage::AwaitingOperator, LoginEvent::TimedOut) => (
                LoginStage::ReadingLocation,
                LoginActionView::ReadLocation,
            ),
            (LoginStage::AwaitingOperator, LoginEvent::InputFailed(reason)) => spec_fail(
                AppErrorView::Auth(input_failed_message(reason@)),
            ),
            (LoginStage::ReadingLocation, LoginEvent::Location(location)) => (
                LoginStage::Finished,
                LoginActionView::Done(spec_verify_location(location.url@, location.path@)),
            ),
            (LoginStage::OpeningSignIn, LoginEvent::Completed) => (
                LoginStage::EnteringEmail,
                spec_fill(email_field(), email),
            ),
            (LoginStage::EnteringEmail, LoginEvent::Completed) => (
                LoginStage::Continuing,
                spec_click(continue_button()),
            ),
            (LoginStage::Continuing, LoginEvent::Completed) => (
                LoginStage::EnteringPassword,
                spec_fill(password_field(), password),
            ),
            (LoginStage::EnteringPassword, LoginEvent::Completed) => (
                LoginStage::Submitting,
                spec_click(submit_button()),
            ),
            (LoginStage::Submitting, LoginEvent::Completed) => (
                LoginStage::CheckingTwoFactor,
                LoginActionView::Probe { selector: two_factor_marks() },
            ),
            (LoginStage::CheckingTwoFactor, LoginEvent::Probed { found }) => if found {
                spec_fail(AppErrorView::Auth(two_factor_message()))
            } else {
                (LoginStage::Inspecting, LoginActionView::Inspect { selectors: spec_page_checks() })
            },
            (LoginStage::Inspecting, LoginEvent::Inspected(page)) => if spec_is_logged_in(
                page.location.url@,
                page.location.path@,
                page.found@,
            ) {
                (LoginStage::Finished, LoginActionView::Done(Ok(())))
            } else {
                spec_fail(AppErrorView::Auth(login_failed_message()))
            },
            _ => spec_fail(AppErrorView::Browser(event_out_of_turn_message())),
        }
    }
}

/// How many actions a login can still ask for.
pub open spec fn spec_actions_left(stage: LoginStage) -> nat {
    match stage {
        LoginStage::OpeningSignIn => 7,
        LoginStage::EnteringEmail => 6,
        LoginStage::Continuing => 5,
        LoginStage::EnteringPassword => 4,
        LoginStage::Submitting => 3,
        LoginStage::CheckingTwoFactor => 2,
        LoginStage::Inspecting => 1,
        LoginStage::Navigating => 3,
        LoginStage::AwaitingOperator => 2,
        LoginStage::ReadingLocation => 1,
        LoginStage::Finished => 0,
    }
}

/// The action that types a value into a field of a form, waiting for the
/// field for at most ten seconds.
pub fn fill_form_field(selector: &str, value: &str) -> (action: LoginAction)
    ensures
        action@ == spec_fill(selector@, value@),
{
    LoginAction::Fill {
        selector: selector.to_owned(),
        value: value.to_owned(),
        wait_seconds: ELEMENT_WAIT_SECONDS,
    }
}

/// The action that clicks an element, waiting for it for at most ten
/// seconds.
pub fn click_element(selector: &str) -> (action: LoginAction)
    ensures
        action@ == spec_click(selector@),
{
    LoginAction::Click { selector: selector.to_owned(), wait_seconds: ELEMENT_WAIT_SECONDS }
}

/// A login in progress.
#[derive(Debug, Clone, PartialEq, Eq)]
pub struct LoginFlow {
    stage: LoginStage,
    email: String,
    password: String,
}

impl LoginFlow {
    /// Where the login stands.
    pub closed spec fn spec_stage(&self) -> LoginStage {
        self.stage
    }

    /// The address that an automated login types; empty for a manual one.
    pub closed spec fn spec_email(&self) -> Seq<char> {
        self.email@
    }

    /// The password that an automated login types; empty for a manual one.
    pub closed spec fn spec_password(&self) -> Seq<char> {
        self.password@
    }

    /// Where the login stands.
    pub fn stage(&self) -> (stage: LoginStage)
        ensures
            stage == self.spec_stage(),
    {
        self.stage
    }

    /// Whether the login is over.
    pub fn is_finished(&self) -> (finished: bool)
        ensures
            finished == (self.spec_stage() is Finished),
    {
        match self.stage {
            LoginStage::Finished => true,
            _ => false,
        }
    }

    fn fail(&mut self, error: AppError) -> (action: LoginAction)
        ensures
            final(self).spec_stage() is Finished,
            final(self).spec_email() == old(self).spec_email(),
            final(self).spec_password() == old(self).spec_password(),
            action@ == LoginActionView::Done(Err(error@)),
    {
        self.stage = LoginStage::Finished;
        LoginAction::Done(Err(error))
    }

    fn go(&mut self, stage: LoginStage, action: LoginAction) -> (next: LoginAction)
        ensures
            final(self).spec_stage() == stage,
            final(self).spec_email() == old(self).spec_email(),
            final(self).spec_password() == old(self).spec_password(),
            next == action,
    {
        self.stage = stage;
        action
    }

    /// Takes the login one step further with how its last action ended.
    pub fn advance(&mut self, event: LoginEvent) -> (action: LoginAction)
        ensures
            final(self).spec_email() == old(self).spec_email(),
            final(self).spec_password() == old(self).spec_password(),
            final(self).spec_stage() == spec_advance(
                old(self).spec_stage(),
                old(self).spec_email(),
                old(self).spec_password(),
                event,
            ).0,
            action@ == spec_advance(
                old(self).spec_stage(),
                old(self).spec_email(),
                old(self).spec_password(),
                event,
            ).1,
    {
        if self.is_finished() {
            return self.fail(AppError::BrowserError("event out of turn".to_owned()));
        }
        match (self.stage, event) {
            (_, LoginEvent::Failed(reason)) => self.fail(AppError::BrowserError(reason)),
            (LoginStage::Navigating, LoginEvent::Completed) => self.go(
                LoginStage::AwaitingOperator,
                LoginAction::AwaitOperator { ceiling_seconds: OPERATOR_CEILING_SECONDS },
            ),
            (LoginStage::AwaitingOperator, LoginEvent::Confirmed) => self.go(
                LoginStage::ReadingLocation,
                LoginAction::ReadLocation,
            ),
            (LoginStage::AwaitingOperator, LoginEvent::TimedOut) => self.go(
                LoginStage::ReadingLocation,
                LoginAction::ReadLocation,
            ),
            (LoginStage::AwaitingOperator, LoginEvent::InputFailed(reason)) => {
                let message = joined("Failed to read input: ", reason.as_str());
                self.fail(AppError::AuthError(message))
            },
            (LoginStage::ReadingLocation, LoginEvent::Location(location)) => {
                let verdict = verify_location(&location);
                self.go(LoginStage::Finished, LoginAction::Done(verdict))
            },
            (LoginStage::OpeningSignIn, LoginEvent::Completed) => {
                let action = fill_form_field(
                    "input[name='email'], input[name='ap_email']",
                    self.email.as_str(),
                );
                self.go(LoginStage::EnteringEmail, action)
            },
            (LoginStage::EnteringEmail, LoginEvent::Completed) => self.go(
                LoginStage::Continuing,
                click_element("#continue"),
            ),
            (LoginStage::Continuing, LoginEvent::Completed) => {
                let action = fill_form_field(
                    "input[name='password'], input[name='ap_password']",
                    self.password.as_str(),
                );
                self.go(LoginStage::EnteringPassword, action)
            },
            (LoginStage::EnteringPassword, LoginEvent::Completed) => self.go(
                LoginStage::Submitting,
                click_element("#signInSubmit"),
            ),
            (LoginStage::Submitting, LoginEvent::Completed) => self.go(
                LoginStage::CheckingTwoFactor,
                LoginAction::Probe {
                    selector: "#auth-mfa-otpcode, .cvf-widget-input-code".to_owned(),
                },
            ),
            (LoginStage::CheckingTwoFactor, LoginEvent::Probed { found }) => {
                if found {
                    self.fail(AppError::AuthError("2FA detected - manual login required".to_owned()))
                } else {
                    self.go(LoginStage::Inspecting, LoginAction::Inspect { selectors: page_checks() })
                }
            },
            (LoginStage::Inspecting, LoginEvent::Inspected(page)) => {
                if is_logged_in(&page) {
                    self.go(LoginStage::Finished, LoginAction::Done(Ok(())))
                } else {
                    self.fail(AppError::AuthError("Automated login failed".to_owned()))
                }
            },
            _ => self.fail(AppError::BrowserError("event out of turn".to_owned())),
        }
    }
}

/// Starts a manual login: the browser opens the watch-history page.
pub fn manual_login() -> (started: (LoginFlow, LoginAction))
    ensures
        started.0.spec_stage() == spec_begin(LoginMethod::Manual).0,
        started.1@ == spec_begin(LoginMethod::Manual).1,
        started.0.spec_email() == Seq::<char>::empty(),
        started.0.spec_password() == Seq::<char>::empty(),
{
    (
        LoginFlow { stage: LoginStage::Navigating, email: String::new(), password: String::new() },
        LoginAction::Goto { url: "https://www.primevideo.com/settings/watch-history".to_owned() },
    )
}

/// Starts an automated login: the browser opens the sign-in page of the
/// site that the address belongs to.
pub fn automated_login(email: &str, password: &str) -> (started: (LoginFlow, LoginAction))
    ensures
        started.0.spec_stage() is OpeningSignIn,
        started.1@ == (LoginActionView::Goto { url: spec_login_url(email@) }),
        started.0.spec_email() == email@,
        started.0.spec_password() == password@,
{
    (
        LoginFlow {
            stage: LoginStage::OpeningSignIn,
            email: email.to_owned(),
            password: password.to_owned(),
        },
        LoginAction::Goto { url: login_url(email) },
    )
}

/// The address that a login method types.
pub open spec fn method_email(method: LoginMethod) -> Seq<char> {
    match method {
        LoginMethod::Manual => Seq::empty(),
        LoginMethod::Automated { email, password } => email@,
    }
}

/// The password that a login method types.
pub open spec fn method_password(method: LoginMethod) -> Seq<char> {
    match method {
        LoginMethod::Manual => Seq::empty(),
        LoginMethod::Automated { email, password } => password@,
    }
}

/// Starts a login by the given method.
pub fn handle_login(method: LoginMethod) -> (started: (LoginFlow, LoginAction))
    ensures
        started.0.spec_stage() == spec_begin(method).0,
        started.1@ == spec_begin(method).1,
        started.0.spec_email() == method_email(method),
        started.0.spec_password() == method_password(method),
{
    match method {
        LoginMethod::Manual => manual_login(),
        LoginMethod::Automated { email, password } => automated_login(
            email.as_str(),
            password.as_str(),
        ),
    }
}

/// A page whose URL names the watch history and whose path is that of no
/// sign-in page passes the check of the place; a page whose path is that of
/// a sign-in page fails it with an `AuthError`, whatever its URL.
pub proof fn lemma_location_check(url: Seq<char>, path: Seq<char>)
    ensures
        on_history_page(url) && !on_sign_in_page(path) ==> spec_verify_location(url, path) is Ok,
        on_sign_in_page(path) ==> spec_verify_location(url, path) == Err::<(), AppErrorView>(
            AppErrorView::Auth(sign_in_first_message()),
        ),
        spec_verify_location(url, path) is Ok ==> on_history_page(url) && !on_sign_in_page(path),
        spec_verify_location(url, path) matches Err(e) ==> e is Auth,
{
}

/// A two-factor challenge always ends an automated login with an
/// `AuthError`: nothing is attempted after it.
pub proof fn lemma_two_factor_is_fatal(email: Seq<char>, password: Seq<char>)
    ensures
        spec_advance(
            LoginStage::CheckingTwoFactor,
            email,
            password,
            LoginEvent::Probed { found: true },
        ) == spec_fail(AppErrorView::Auth(two_factor_message())),
{
}

/// Every step of a login that does not end it leaves fewer actions to ask
/// for, and a login is over exactly when its action says so: nothing is
/// tried twice.
pub proof fn lemma_login_terminates(
    stage: LoginStage,
    email: Seq<char>,
    password: Seq<char>,
    event: LoginEvent,
)
    ensures
        spec_advance(stage, email, password, event).1 is Done <==> spec_advance(
            stage,
            email,
            password,
            event,
        ).0 is Finished,
        !(stage is Finished) ==> spec_actions_left(spec_advance(stage, email, password, event).0)
            < spec_actions_left(stage),
{
}

/// A login succeeds only on a page that passes the check of the place: a
/// manual one after the place was read, an automated one after the page was
/// inspected.
pub proof fn lemma_success_needs_history_page(
    stage: LoginStage,
    email: Seq<char>,
    password: Seq<char>,
    event: LoginEvent,
)
    requires
        spec_advance(stage, email, password, event).1 == LoginActionView::Done(Ok(())),
    ensures
        match event {
            LoginEvent::Location(location) => stage is ReadingLocation && on_history_page(
                location.url@,
            ) && !on_sign_in_page(location.path@),
            LoginEvent::Inspected(page) => stage is Inspecting && on_history_page(
                page.location.url@,
            ) && !on_sign_in_page(page.location.path@) && !form_found(page.found@)
                && marker_found(page.found@),
            _ => false,
        },
{
}

} // verus!
