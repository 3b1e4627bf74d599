use media_identity::error::AppError;
use media_identity::scraping::login::{
    automated_login, click_element, fill_form_field, handle_login, is_logged_in, login_domain,
    login_url, manual_login, page_checks, verify_location, LoginAction, LoginEvent, LoginMethod,
    LoginStage, PageLocation, PageSnapshot, ELEMENT_WAIT_SECONDS, OPERATOR_CEILING_SECONDS,
};

fn location(url: &str, path: &str) -> PageLocation {
    PageLocation { url: url.to_string(), path: path.to_string() }
}

fn history() -> PageLocation {
    location("https://www.primevideo.com/settings/watch-history", "/settings/watch-history")
}

fn snapshot(location: PageLocation, found: [bool; 10]) -> PageSnapshot {
    PageSnapshot { location, found: found.to_vec() }
}

fn auth(message: &str) -> AppError {
    AppError::AuthError(message.to_string())
}

const MARKER: [bool; 10] = [false, false, false, true, false, false, false, false, false, false];

#[test]
fn history_page_without_sign_in_path_is_authenticated() {
    assert_eq!(verify_location(&history()), Ok(()));
    assert_eq!(
        verify_location(&location(
            "https://www.primevideo.com/region/eu/settings/watch-history?ref=signin",
            "/region/eu/settings/watch-history",
        )),
        Ok(())
    );
}

#[test]
fn sign_in_path_is_an_auth_error() {
    for path in ["/ap/signin", "/login", "/auth/start", "/x/signin/watch-history"] {
        let url = format!("https://www.amazon.com{}?next=watch-history", path);
        assert_eq!(
            verify_location(&location(&url, path)),
            Err(auth("Please log in to Prime Video first")),
            "{}",
            path
        );
    }
}

#[test]
fn other_page_is_an_auth_error() {
    assert_eq!(
        verify_location(&location("https://www.primevideo.com/", "/")),
        Err(auth("Please navigate to your Prime Video watch history page"))
    );
}

#[test]
fn page_checks_list_markers_before_form_fields() {
    assert_eq!(
        page_checks(),
        vec![
            "[data-testid='watch-history']",
            ".watch-history",
            "[data-automation-id='watch-history']",
            "[data-testid='account-menu']",
            ".account-menu",
            "[data-automation-id='account-menu']",
            "[data-testid='av-nav-main']",
            ".av-nav-main",
            "input[name='email']",
            "input[name='password']",
        ]
    );
}

#[test]
fn logged_in_needs_place_marker_and_no_form() {
    assert!(is_logged_in(&snapshot(history(), MARKER)));

    let mut with_form = MARKER;
    with_form[8] = true;
    assert!(!is_logged_in(&snapshot(history(), with_form)));
    let mut with_form = MARKER;
    with_form[9] = true;
    assert!(!is_logged_in(&snapshot(history(), with_form)));

    assert!(!is_logged_in(&snapshot(history(), [false; 10])));
    assert!(!is_logged_in(&snapshot(location("https://www.amazon.com/ap/signin", "/ap/signin"), MARKER)));
    assert!(!is_logged_in(&PageSnapshot { location: history(), found: vec![true; 8] }));
    assert!(!is_logged_in(&PageSnapshot { location: history(), found: Vec::new() }));
}

#[test]
fn login_site_follows_the_suffix_of_the_address() {
    assert_eq!(login_domain("viewer@example.co.uk"), "amazon.co.uk");
    assert_eq!(login_domain("viewer@example.de"), "amazon.de");
    assert_eq!(login_domain("viewer@example.it"), "amazon.it");
    assert_eq!(login_domain("viewer@example.com"), "amazon.com");
    assert_eq!(login_domain("john.dean@example.com"), "amazon.com");
    assert_eq!(login_domain(""), "amazon.com");
    assert_eq!(login_url("viewer@example.de"), "https://www.amazon.de/ap/signin");
    assert_eq!(login_url("viewer@example.org"), "https://www.amazon.com/ap/signin");
}

#[test]
fn form_actions_wait_ten_seconds() {
    assert_eq!(ELEMENT_WAIT_SECONDS, 10);
    assert_eq!(
        fill_form_field("#a", "text"),
        LoginAction::Fill { selector: "#a".to_string(), value: "text".to_string(), wait_seconds: 10 }
    );
    assert_eq!(
        click_element("#b"),
        LoginAction::Click { selector: "#b".to_string(), wait_seconds: 10 }
    );
}

#[test]
fn manual_login_waits_for_the_operator_and_checks_the_place() {
    let (mut flow, action) = handle_login(LoginMethod::Manual);
    assert_eq!(
        action,
        LoginAction::Goto { url: "https://www.primevideo.com/settings/watch-history".to_string() }
    );
    assert_eq!(flow.stage(), LoginStage::Navigating);

    assert_eq!(
        flow.advance(LoginEvent::Completed),
        LoginAction::AwaitOperator { ceiling_seconds: OPERATOR_CEILING_SECONDS }
    );
    assert_eq!(flow.advance(LoginEvent::Confirmed), LoginAction::ReadLocation);
    assert_eq!(flow.advance(LoginEvent::Location(history())), LoginAction::Done(Ok(())));
    assert!(flow.is_finished());
}

#[test]
fn manual_login_proceeds_at_the_ceiling_and_fails_on_a_sign_in_page() {
    let (mut flow, _) = manual_login();
    flow.advance(LoginEvent::Completed);
    assert_eq!(flow.advance(LoginEvent::TimedOut), LoginAction::ReadLocation);
    assert_eq!(
        flow.advance(LoginEvent::Location(location("https://www.amazon.com/ap/signin", "/ap/signin"))),
        LoginAction::Done(Err(auth("Please log in to Prime Video first")))
    );
    assert!(flow.is_finished());
}

#[test]
fn manual_login_reports_unreadable_confirmation() {
    let (mut flow, _) = manual_login();
    flow.advance(LoginEvent::Completed);
    assert_eq!(
        flow.advance(LoginEvent::InputFailed("stdin closed".to_string())),
        LoginAction::Done(Err(auth("Failed to read input: stdin closed")))
    );
}

#[test]
fn automated_login_drives_the_form_in_order() {
    let method = LoginMethod::Automated {
        email: "viewer@example.co.uk".to_string(),
        password: "hunter2".to_string(),
    };
    let (mut flow, action) = handle_login(method);
    assert_eq!(
        action,
        LoginAction::Goto { url: "https://www.amazon.co.uk/ap/signin".to_string() }
    );

    assert_eq!(
        flow.advance(LoginEvent::Completed),
        fill_form_field("input[name='email'], input[name='ap_email']", "viewer@example.co.uk")
    );
    assert_eq!(flow.advance(LoginEvent::Completed), click_element("#continue"));
    assert_eq!(
        flow.advance(LoginEvent::Completed),
        fill_form_field("input[name='password'], input[name='ap_password']", "hunter2")
    );
    assert_eq!(flow.advance(LoginEvent::Completed), click_element("#signInSubmit"));
    assert_eq!(
        flow.advance(LoginEvent::Completed),
        LoginAction::Probe { selector: "#auth-mfa-otpcode, .cvf-widget-input-code".to_string() }
    );
    assert_eq!(flow.stage(), LoginStage::CheckingTwoFactor);
    assert_eq!(
        flow.advance(LoginEvent::Probed { found: false }),
        LoginAction::Inspect { selectors: page_checks() }
    );
    assert_eq!(
        flow.advance(LoginEvent::Inspected(snapshot(history(), MARKER))),
        LoginAction::Done(Ok(()))
    );
    assert!(flow.is_finished());
}

fn at_two_factor_check() -> media_identity::scraping::login::LoginFlow {
    let (mut flow, _) = automated_login("viewer@example.com", "pw");
    for _ in 0..5 {
        flow.advance(LoginEvent::Completed);
    }
    assert_eq!(flow.stage(), LoginStage::CheckingTwoFactor);
    flow
}

#[test]
fn two_factor_challenge_fails_fast() {
    let mut flow = at_two_factor_check();
    assert_eq!(
        flow.advance(LoginEvent::Probed { found: true }),
        LoginAction::Done(Err(auth("2FA detected - manual login required")))
    );
    assert!(flow.is_finished());
}

#[test]
fn automated_login_fails_when_the_page_is_not_that_of_a_session() {
    let mut flow = at_two_factor_check();
    flow.advance(LoginEvent::Probed { found: false });
    assert_eq!(
        flow.advance(LoginEvent::Inspected(snapshot(history(), [false; 10]))),
        LoginAction::Done(Err(auth("Automated login failed")))
    );

    let mut flow = at_two_factor_check();
    flow.advance(LoginEvent::Probed { found: false });
    let mut form = MARKER;
    form[8] = true;
    assert_eq!(
        flow.advance(LoginEvent::Inspected(snapshot(history(), form))),
        LoginAction::Done(Err(auth("Automated login failed")))
    );
}

#[test]
fn browser_failure_ends_the_login_with_a_browser_error() {
    let (mut flow, _) = automated_login("viewer@example.com", "pw");
    flow.advance(LoginEvent::Completed);
    assert_eq!(
        flow.advance(LoginEvent::Failed("element not found".to_string())),
        LoginAction::Done(Err(AppError::BrowserError("element not found".to_string())))
    );
    assert!(flow.is_finished());
    assert_eq!(
        flow.advance(LoginEvent::Completed),
        LoginAction::Done(Err(AppError::BrowserError("event out of turn".to_string())))
    );
}

#[test]
fn event_out_of_turn_ends_the_login() {
    let (mut flow, _) = manual_login();
    assert_eq!(
        flow.advance(LoginEvent::Confirmed),
        LoginAction::Done(Err(AppError::BrowserError("event out of turn".to_string())))
    );
    assert!(flow.is_finished());
}
