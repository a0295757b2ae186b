use scrapedown::{Action, ErrorKind, Event, Mode, Pipeline, Script, Scraper};

/// A fake session provider: counts how often the driver was asked to
/// acquire and to close a session.
struct FakeProvider {
    acquired: usize,
    closed: usize,
}

impl FakeProvider {
    fn new() -> FakeProvider {
        FakeProvider { acquired: 0, closed: 0 }
    }

    fn observe(&mut self, action: &Action) {
        match action {
            Action::AcquireSession => self.acquired += 1,
            Action::CloseSession => self.closed += 1,
            _ => {}
        }
    }
}

fn feed(pipeline: &mut Pipeline, provider: &mut FakeProvider, event: Event) -> Action {
    let action = pipeline.step(event);
    provider.observe(&action);
    action
}

#[test]
fn raw_mode_happy_path_scenario() {
    let url = String::from("https://example.com/article");
    let mut p = Scraper::scrape_url(url.clone());
    let mut provider = FakeProvider::new();

    let a = feed(&mut p, &mut provider, Event::Begin);
    assert!(matches!(a, Action::AcquireSession));
    let a = feed(&mut p, &mut provider, Event::SessionReady);
    match a {
        Action::Navigate(u) => assert_eq!(u, url),
        _ => panic!("expected navigation"),
    }
    let a = feed(&mut p, &mut provider, Event::Navigated);
    assert!(matches!(a, Action::Settle(1000)));
    let a = feed(&mut p, &mut provider, Event::Settled);
    assert!(matches!(a, Action::ReadTitle));
    let a = feed(&mut p, &mut provider, Event::TitleRead(String::from("Example")));
    assert!(matches!(a, Action::Evaluate(Script::ReadHtml, false)));
    let page = String::from("<html><body><h1>Example</h1><p>Hi</p></body></html>");
    let a = feed(&mut p, &mut provider, Event::EvalOk(Some(page)));
    assert!(matches!(a, Action::CloseSession));
    let a = feed(&mut p, &mut provider, Event::Closed);
    assert!(matches!(a, Action::Finish));
    assert!(p.is_done());

    let outcome = p.take_outcome().expect("finished request has an outcome");
    let result = outcome.expect("raw mode succeeds on a rendered page");
    assert_eq!(result.title, "Example");
    // The adopted converter renders top-level headers in setext form.
    assert_eq!(result.markdown, "Example\n==========\n\nHi");
    assert!(result.html.is_none());

    assert_eq!(provider.acquired, 1);
    assert_eq!(provider.closed, 1);
}

#[test]
fn readable_mode_happy_path_scenario() {
    let url = String::from("https://example.com/article");
    let mut p = Scraper::scrape_readable_url(url.clone());
    let mut provider = FakeProvider::new();

    let a = feed(&mut p, &mut provider, Event::Begin);
    assert!(matches!(a, Action::AcquireSession));
    let a = feed(&mut p, &mut provider, Event::SessionReady);
    assert!(matches!(a, Action::Navigate(_)));
    let a = feed(&mut p, &mut provider, Event::Navigated);
    assert!(matches!(a, Action::Settle(1500)));
    let a = feed(&mut p, &mut provider, Event::Settled);
    assert!(matches!(a, Action::Evaluate(Script::Scroll, true)));
    let a = feed(&mut p, &mut provider, Event::EvalOk(None));
    assert!(matches!(a, Action::Settle(500)));
    let a = feed(&mut p, &mut provider, Event::Settled);
    assert!(matches!(a, Action::Evaluate(Script::FixImages, false)));
    let a = feed(&mut p, &mut provider, Event::EvalOk(None));
    assert!(matches!(a, Action::Evaluate(Script::InjectReadability, false)));
    let a = feed(&mut p, &mut provider, Event::EvalOk(None));
    assert!(matches!(a, Action::Evaluate(Script::Extract, false)));
    let envelope = String::from(
        "{\"title\":\"Example\",\"content\":\"<p>Hi</p>\",\"textContent\":\"Hi\",\"excerpt\":\"Hi\"}",
    );
    let a = feed(&mut p, &mut provider, Event::EvalOk(Some(envelope)));
    assert!(matches!(a, Action::CloseSession));
    let a = feed(&mut p, &mut provider, Event::Closed);
    assert!(matches!(a, Action::Finish));

    let result = p.take_outcome().unwrap().expect("readable mode succeeds");
    assert_eq!(result.title, "Example");
    assert_eq!(result.markdown, "Hi");
    assert_eq!(result.html.as_deref(), Some("<p>Hi</p>"));

    assert_eq!(provider.acquired, 1);
    assert_eq!(provider.closed, 1);
}

#[test]
fn navigation_failure_closes_session() {
    let mut p = Scraper::scrape_url(String::from("https://unreachable.invalid/"));
    let mut provider = FakeProvider::new();

    feed(&mut p, &mut provider, Event::Begin);
    feed(&mut p, &mut provider, Event::SessionReady);
    let a = feed(
        &mut p,
        &mut provider,
        Event::NavigationError(String::from("net::ERR_NAME_NOT_RESOLVED")),
    );
    assert!(matches!(a, Action::CloseSession));
    let a = feed(&mut p, &mut provider, Event::Closed);
    assert!(matches!(a, Action::Finish));

    let err = p.take_outcome().unwrap().expect_err("navigation failed");
    assert_eq!(err.kind, ErrorKind::NavigationFailed);
    assert_eq!(err.detail, "net::ERR_NAME_NOT_RESOLVED");
    assert_eq!(err.message(), "navigation failed: net::ERR_NAME_NOT_RESOLVED");

    assert_eq!(provider.acquired, 1);
    assert_eq!(provider.closed, 1);
}

#[test]
fn navigation_timeout_closes_session() {
    let mut p = Scraper::scrape_readable_url(String::from("https://slow.example/"));
    let mut provider = FakeProvider::new();

    feed(&mut p, &mut provider, Event::Begin);
    feed(&mut p, &mut provider, Event::SessionReady);
    let a = feed(&mut p, &mut provider, Event::TimedOut(String::from("navigation")));
    assert!(matches!(a, Action::CloseSession));
    feed(&mut p, &mut provider, Event::Closed);

    let err = p.take_outcome().unwrap().expect_err("navigation timed out");
    assert_eq!(err.kind, ErrorKind::Timeout);
    assert_eq!(provider.acquired, 1);
    assert_eq!(provider.closed, 1);
}

#[test]
fn extraction_timeout_closes_session() {
    let mut p = Scraper::scrape_readable_url(String::from("https://example.com/"));
    let mut provider = FakeProvider::new();

    feed(&mut p, &mut provider, Event::Begin);
    feed(&mut p, &mut provider, Event::SessionReady);
    feed(&mut p, &mut provider, Event::Navigated);
    feed(&mut p, &mut provider, Event::Settled);
    feed(&mut p, &mut provider, Event::EvalOk(None));
    feed(&mut p, &mut provider, Event::Settled);
    feed(&mut p, &mut provider, Event::EvalOk(None));
    feed(&mut p, &mut provider, Event::EvalOk(None));
    let a = feed(&mut p, &mut provider, Event::TimedOut(String::from("evaluation")));
    assert!(matches!(a, Action::CloseSession));
    feed(&mut p, &mut provider, Event::Closed);

    let err = p.take_outcome().unwrap().expect_err("extraction timed out");
    assert_eq!(err.kind, ErrorKind::Timeout);
    assert_eq!(provider.acquired, 1);
    assert_eq!(provider.closed, 1);
}

#[test]
fn engine_unavailable_opens_no_session() {
    let mut p = Scraper::scrape_url(String::from("https://example.com/"));
    let mut provider = FakeProvider::new();

    feed(&mut p, &mut provider, Event::Begin);
    let a = feed(&mut p, &mut provider, Event::EngineDown(String::from("no process")));
    assert!(matches!(a, Action::Finish));

    let err = p.take_outcome().unwrap().expect_err("engine down");
    assert_eq!(err.kind, ErrorKind::EngineUnavailable);
    assert_eq!(err.message(), "engine unavailable: no process");
    assert_eq!(provider.acquired, 1);
    assert_eq!(provider.closed, 0);
}

#[test]
fn session_creation_failure_reported() {
    let mut p = Scraper::scrape_url(String::from("https://example.com/"));
    let mut provider = FakeProvider::new();

    feed(&mut p, &mut provider, Event::Begin);
    feed(&mut p, &mut provider, Event::SessionFailed(String::from("tab limit")));

    let err = p.take_outcome().unwrap().expect_err("session creation failed");
    assert_eq!(err.kind, ErrorKind::SessionCreationFailed);
    assert_eq!(err.message(), "session creation failed: tab limit");
    assert_eq!(provider.closed, 0);
}

#[test]
fn injection_failure_surfaces_evaluation_failed() {
    let mut p = Scraper::scrape_readable_url(String::from("https://example.com/"));
    let mut provider = FakeProvider::new();

    feed(&mut p, &mut provider, Event::Begin);
    feed(&mut p, &mut provider, Event::SessionReady);
    feed(&mut p, &mut provider, Event::Navigated);
    feed(&mut p, &mut provider, Event::Settled);
    feed(&mut p, &mut provider, Event::EvalOk(None));
    feed(&mut p, &mut provider, Event::Settled);
    feed(&mut p, &mut provider, Event::EvalOk(None));
    let a = feed(&mut p, &mut provider, Event::EvalError(String::from("rejected")));
    assert!(matches!(a, Action::CloseSession));
    feed(&mut p, &mut provider, Event::Closed);

    let err = p.take_outcome().unwrap().expect_err("injection failed");
    assert_eq!(err.kind, ErrorKind::EvaluationFailed);
    assert_eq!(provider.closed, 1);
}

#[test]
fn scroll_failure_is_swallowed() {
    let mut p = Scraper::scrape_readable_url(String::from("https://example.com/"));
    let mut provider = FakeProvider::new();

    feed(&mut p, &mut provider, Event::Begin);
    feed(&mut p, &mut provider, Event::SessionReady);
    feed(&mut p, &mut provider, Event::Navigated);
    feed(&mut p, &mut provider, Event::Settled);
    // The scroll evaluation fails; the pipeline continues regardless.
    let a = feed(&mut p, &mut provider, Event::EvalError(String::from("scroll broke")));
    assert!(matches!(a, Action::Settle(500)));
    feed(&mut p, &mut provider, Event::Settled);
    // The image repair fails too; still best effort.
    let a = feed(&mut p, &mut provider, Event::EvalError(String::from("repair broke")));
    assert!(matches!(a, Action::Evaluate(Script::InjectReadability, false)));
}

#[test]
fn page_side_throw_degrades_to_empty_result() {
    let mut p = Scraper::scrape_readable_url(String::from("https://example.com/"));
    let mut provider = FakeProvider::new();

    feed(&mut p, &mut provider, Event::Begin);
    feed(&mut p, &mut provider, Event::SessionReady);
    feed(&mut p, &mut provider, Event::Navigated);
    feed(&mut p, &mut provider, Event::Settled);
    feed(&mut p, &mut provider, Event::EvalOk(None));
    feed(&mut p, &mut provider, Event::Settled);
    feed(&mut p, &mut provider, Event::EvalOk(None));
    feed(&mut p, &mut provider, Event::EvalOk(None));
    // The in-page script threw; its catch handler returned an error
    // envelope with empty content and a diagnostic.
    let envelope = String::from(
        "{\"title\":\"Example\",\"content\":\"\",\"error\":\"TypeError: boom\"}",
    );
    let a = feed(&mut p, &mut provider, Event::EvalOk(Some(envelope)));
    assert!(matches!(a, Action::CloseSession));
    feed(&mut p, &mut provider, Event::Closed);

    let result = p.take_outcome().unwrap().expect("a throw is not a system failure");
    assert_eq!(result.title, "Example");
    assert_eq!(result.markdown, "");
    assert_eq!(result.html.as_deref(), Some(""));
    assert_eq!(provider.closed, 1);
}

#[test]
fn malformed_envelope_degrades_to_empty_result() {
    let mut p = Scraper::scrape_readable_url(String::from("https://example.com/"));
    let mut provider = FakeProvider::new();

    feed(&mut p, &mut provider, Event::Begin);
    feed(&mut p, &mut provider, Event::SessionReady);
    feed(&mut p, &mut provider, Event::Navigated);
    feed(&mut p, &mut provider, Event::Settled);
    feed(&mut p, &mut provider, Event::EvalOk(None));
    feed(&mut p, &mut provider, Event::Settled);
    feed(&mut p, &mut provider, Event::EvalOk(None));
    feed(&mut p, &mut provider, Event::EvalOk(None));
    let a = feed(&mut p, &mut provider, Event::EvalOk(Some(String::from("not json"))));
    assert!(matches!(a, Action::CloseSession));
    feed(&mut p, &mut provider, Event::Closed);

    let result = p.take_outcome().unwrap().expect("malformed text is not fatal");
    assert_eq!(result.title, "");
    assert_eq!(result.markdown, "");
    assert_eq!(result.html.as_deref(), Some(""));
}

#[test]
fn unexpected_event_changes_nothing() {
    let mut p = Scraper::scrape_url(String::from("https://example.com/"));
    let mut provider = FakeProvider::new();

    feed(&mut p, &mut provider, Event::Begin);
    // The driver reports an event that does not belong to the pending
    // stage; the machine stays where it is.
    let a = feed(&mut p, &mut provider, Event::Closed);
    assert!(matches!(a, Action::Idle));
    let a = feed(&mut p, &mut provider, Event::SessionReady);
    assert!(matches!(a, Action::Navigate(_)));
    assert_eq!(provider.closed, 0);
}

#[test]
fn settle_delays_match_modes() {
    assert_eq!(scrapedown::settle_after_nav_ms(Mode::Raw), 1000);
    assert_eq!(scrapedown::settle_after_nav_ms(Mode::Readable), 1500);
    assert_eq!(scrapedown::settle_after_scroll_ms(), 500);
}
