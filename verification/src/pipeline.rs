//! The pipeline orchestrator, written as a state machine.
//!
//! The rendering engine is slow, external and partially unreliable, so
//! the library never touches it directly. Instead, a [`Pipeline`] value
//! holds the state of one extraction request; [`Pipeline::step`] takes
//! the event the engine driver reported and decides the next [`Action`]
//! for the driver to perform. The driver (outside this library) performs
//! navigation, settling, script evaluation and session closure, and
//! hands the outcome of each action back as the next [`Event`].
//!
//! Both request modes share this one machine: raw mode converts the
//! whole page, readable mode runs the lazy-load and extraction stages
//! first. Session closure is unconditional: on every exit path after a
//! session was acquired, the machine emits exactly one `CloseSession`.

use vstd::prelude::*;

use crate::envelope::{spec_parse_envelope, parse_envelope};
use crate::markdown::{markdown_of, to_markdown};
use crate::types::{ErrorKind, ExtractionResult, Mode, ScrapeError, Scraper};

verus! {

/// Where one extraction request stands: which engine answer the machine
/// is waiting for.
#[derive(Clone, Copy, PartialEq, Eq, Structural, Debug)]
pub enum Stage {
    /// Nothing has happened yet.
    Start,
    /// A page session was requested from the session provider.
    AwaitSession,
    /// Navigation to the target URL was issued.
    AwaitNav,
    /// The fixed post-navigation settle delay is running.
    AwaitNavSettle,
    /// Raw mode: the page title was requested.
    AwaitTitle,
    /// Raw mode: the full-document HTML was requested.
    AwaitHtml,
    /// Readable mode: the scroll simulation is running in the page.
    AwaitScroll,
    /// Readable mode: the post-scroll settle delay is running.
    AwaitScrollSettle,
    /// Readable mode: the image attribute repair is running in the page.
    AwaitImageFix,
    /// Readable mode: the readability source is being injected.
    AwaitInject,
    /// Readable mode: the extraction script is running in the page.
    AwaitExtract,
    /// The session is being closed; the outcome is already decided.
    AwaitClose,
    /// The request is finished; the outcome holds the result.
    Done,
}

/// The in-page scripts the driver can be asked to evaluate. The script
/// texts themselves live with the driver; the machine names them.
#[derive(Clone, Copy, PartialEq, Eq, Structural, Debug)]
pub enum Script {
    /// Read the full document HTML (raw mode).
    ReadHtml,
    /// Scroll the viewport down the document and back (lazy loading).
    Scroll,
    /// Repair deferred image source attributes.
    FixImages,
    /// Inject the bundled readability source verbatim.
    InjectReadability,
    /// Remove hidden and comment nodes, run readability, return the
    /// serialized extraction envelope.
    Extract,
}

/// What the engine driver reports back to the machine.
pub enum Event {
    /// Start the request.
    Begin,
    /// The session provider handed out an isolated page session.
    SessionReady,
    /// No usable rendering process exists.
    EngineDown(String),
    /// The engine runs but could not create a session.
    SessionFailed(String),
    /// Navigation reached its load-complete signal.
    Navigated,
    /// Navigation failed.
    NavigationError(String),
    /// A settle delay elapsed.
    Settled,
    /// The page title was read (empty when the page has none or the
    /// read failed; a missing title is not an error).
    TitleRead(String),
    /// A script evaluation returned; the payload is the evaluation's
    /// text value, absent when the evaluation produced none.
    EvalOk(Option<String>),
    /// The engine rejected the script or the evaluation failed.
    EvalError(String),
    /// The pending stage exceeded its time bound.
    TimedOut(String),
    /// The session was closed.
    Closed,
}

/// What the machine asks the engine driver to do next.
pub enum Action {
    /// Acquire an isolated page session from the session provider.
    AcquireSession,
    /// Navigate the session to the given URL and wait for the
    /// load-complete signal.
    Navigate(String),
    /// Sleep for the given number of milliseconds.
    Settle(u64),
    /// Read the page title; report `TitleRead` (empty on failure).
    ReadTitle,
    /// Evaluate the named script; the flag asks the driver to await an
    /// in-page promise.
    Evaluate(Script, bool),
    /// Close the session; report `Closed`.
    CloseSession,
    /// The request is finished: read the outcome off the pipeline.
    Finish,
    /// Nothing to do (the event did not belong to the pending stage).
    Idle,
}

/// The mathematical model of an extraction result.
pub struct ResultModel {
    pub title: Seq<char>,
    pub markdown: Seq<char>,
    pub html: Option<Seq<char>>,
}

/// The mathematical model of a pipeline failure.
pub struct ErrorModel {
    pub kind: ErrorKind,
    pub detail: Seq<char>,
}

impl View for ExtractionResult {
    type V = ResultModel;

    open spec fn view(&self) -> ResultModel {
        ResultModel {
            title: self.title@,
            markdown: self.markdown@,
            html: match self.html {
                Some(ref h) => Some(h@),
                None => None,
            },
        }
    }
}

impl View for ScrapeError {
    type V = ErrorModel;

    open spec fn view(&self) -> ErrorModel {
        ErrorModel { kind: self.kind, detail: self.detail@ }
    }
}

/// The mathematical model of an event.
pub enum EventModel {
    Begin,
    SessionReady,
    EngineDown(Seq<char>),
    SessionFailed(Seq<char>),
    Navigated,
    NavigationError(Seq<char>),
    Settled,
    TitleRead(Seq<char>),
    EvalOk(Option<Seq<char>>),
    EvalError(Seq<char>),
    TimedOut(Seq<char>),
    Closed,
}

impl View for Event {
    type V = EventModel;

    open spec fn view(&self) -> EventModel {
        match *self {
            Event::Begin => EventModel::Begin,
            Event::SessionReady => EventModel::SessionReady,
            Event::EngineDown(ref d) => EventModel::EngineDown(d@),
            Event::SessionFailed(ref d) => EventModel::SessionFailed(d@),
            Event::Navigated => EventModel::Navigated,
            Event::NavigationError(ref d) => EventModel::NavigationError(d@),
            Event::Settled => EventModel::Settled,
            Event::TitleRead(ref t) => EventModel::TitleRead(t@),
            Event::EvalOk(ref v) => EventModel::EvalOk(match *v {
                Some(ref s) => Some(s@),
                None => None,
            }),
            Event::EvalError(ref d) => EventModel::EvalError(d@),
            Event::TimedOut(ref d) => EventModel::TimedOut(d@),
            Event::Closed => EventModel::Closed,
        }
    }
}

/// The mathematical model of an action.
pub enum ActionModel {
    AcquireSession,
    Navigate(Seq<char>),
    Settle(u64),
    ReadTitle,
    Evaluate(Script, bool),
    CloseSession,
    Finish,
    Idle,
}

impl View for Action {
    type V = ActionModel;

    open spec fn view(&self) -> ActionModel {
        match *self {
            Action::AcquireSession => ActionModel::AcquireSession,
            Action::Navigate(ref u) => ActionModel::Navigate(u@),
            Action::Settle(ms) => ActionModel::Settle(ms),
            Action::ReadTitle => ActionModel::ReadTitle,
            Action::Evaluate(s, p) => ActionModel::Evaluate(s, p),
            Action::CloseSession => ActionModel::CloseSession,
            Action::Finish => ActionModel::Finish,
            Action::Idle => ActionModel::Idle,
        }
    }
}

/// The state of one extraction request.
pub struct Pipeline {
    pub mode: Mode,
    pub url: String,
    pub stage: Stage,
    /// The page title read so far (raw mode).
    pub title: String,
    /// The decided outcome, set before the session is closed.
    pub outcome: Option<Result<ExtractionResult, ScrapeError>>,
    /// Whether a page session is currently held.
    pub session_open: bool,
    /// How many sessions this request has acquired.
    pub opens: u64,
    /// How many session closures this request has issued.
    pub closes: u64,
}

/// The mathematical model of a pipeline.
pub struct PipelineModel {
    pub mode: Mode,
    pub url: Seq<char>,
    pub stage: Stage,
    pub title: Seq<char>,
    pub outcome: Option<Result<ResultModel, ErrorModel>>,
    pub session_open: bool,
    pub opens: nat,
    pub closes: nat,
}

/// The model of an outcome value.
pub open spec fn spec_outcome_view(o: Option<Result<ExtractionResult, ScrapeError>>) -> Option<
    Result<ResultModel, ErrorModel>,
> {
    match o {
        None => None,
        Some(Ok(r)) => Some(Ok(r@)),
        Some(Err(e)) => Some(Err(e@)),
    }
}

impl View for Pipeline {
    type V = PipelineModel;

    open spec fn view(&self) -> PipelineModel {
        PipelineModel {
            mode: self.mode,
            url: self.url@,
            stage: self.stage,
            title: self.title@,
            outcome: spec_outcome_view(self.outcome),
            session_open: self.session_open,
            opens: self.opens as nat,
            closes: self.closes as nat,
        }
    }
}

/// The fixed post-navigation settle delay in milliseconds: raw mode
/// waits about a second, readable mode half a second longer so
/// asynchronous page scripts can finish their initial rendering.
pub open spec fn spec_settle_after_nav_ms(mode: Mode) -> u64 {
    match mode {
        Mode::Raw => 1000,
        Mode::Readable => 1500,
    }
}

/// The fixed settle delay after the scroll simulation, in milliseconds.
pub open spec fn spec_settle_after_scroll_ms() -> u64 {
    500
}

/// The stages during which a page session is held. Once `CloseSession`
/// has been issued the session counts as released.
pub open spec fn spec_holds_session(stage: Stage) -> bool {
    match stage {
        Stage::Start => false,
        Stage::AwaitSession => false,
        Stage::AwaitClose => false,
        Stage::Done => false,
        _ => true,
    }
}

/// The pipeline invariant: session accounting matches the stage, a
/// session is acquired at most once, and a finished request has an
/// outcome.
pub open spec fn spec_inv(m: PipelineModel) -> bool {
    &&& m.opens <= 1
    &&& (if m.session_open {
        m.opens == m.closes + 1
    } else {
        m.opens == m.closes
    })
    &&& m.session_open == spec_holds_session(m.stage)
    &&& ((m.stage == Stage::Start || m.stage == Stage::AwaitSession) ==> m.opens == 0)
    &&& (m.stage == Stage::AwaitClose ==> m.outcome is Some)
    &&& (m.stage == Stage::Done ==> m.outcome is Some)
}

/// The initial state of a request.
pub open spec fn spec_init(url: Seq<char>, mode: Mode) -> PipelineModel {
    PipelineModel {
        mode,
        url,
        stage: Stage::Start,
        title: Seq::<char>::empty(),
        outcome: None,
        session_open: false,
        opens: 0,
        closes: 0,
    }
}

/// A decided failure: the outcome is set and the session, still held,
/// is to be closed.
pub open spec fn spec_fail(m: PipelineModel, kind: ErrorKind, detail: Seq<char>) -> (
    PipelineModel,
    ActionModel,
) {
    (
        PipelineModel {
            stage: Stage::AwaitClose,
            outcome: Some(Err(ErrorModel { kind, detail })),
            session_open: false,
            closes: m.closes + 1,
            ..m
        },
        ActionModel::CloseSession,
    )
}

/// A decided success: the outcome is set and the session is to be
/// closed.
pub open spec fn spec_succeed(m: PipelineModel, r: ResultModel) -> (PipelineModel, ActionModel) {
    (
        PipelineModel {
            stage: Stage::AwaitClose,
            outcome: Some(Ok(r)),
            session_open: false,
            closes: m.closes + 1,
            ..m
        },
        ActionModel::CloseSession,
    )
}

/// The transition function of the pipeline: from the current state and
/// the event the driver reported, the next state and the next action.
/// An event that does not belong to the pending stage changes nothing.
pub open spec fn spec_step(m: PipelineModel, e: EventModel) -> (PipelineModel, ActionModel) {
    match (m.stage, e) {
        (Stage::Start, EventModel::Begin) => (
            PipelineModel { stage: Stage::AwaitSession, ..m },
            ActionModel::AcquireSession,
        ),
        (Stage::AwaitSession, EventModel::SessionReady) => (
            PipelineModel {
                stage: Stage::AwaitNav,
                session_open: true,
                opens: m.opens + 1,
                ..m
            },
            ActionModel::Navigate(m.url),
        ),
        (Stage::AwaitSession, EventModel::EngineDown(d)) => (
            PipelineModel {
                stage: Stage::Done,
                outcome: Some(Err(ErrorModel { kind: ErrorKind::EngineUnavailable, detail: d })),
                ..m
            },
            ActionModel::Finish,
        ),
        (Stage::AwaitSession, EventModel::SessionFailed(d)) => (
            PipelineModel {
                stage: Stage::Done,
                outcome: Some(
                    Err(ErrorModel { kind: ErrorKind::SessionCreationFailed, detail: d }),
                ),
                ..m
            },
            ActionModel::Finish,
        ),
        (Stage::AwaitNav, EventModel::Navigated) => (
            PipelineModel { stage: Stage::AwaitNavSettle, ..m },
            ActionModel::Settle(spec_settle_after_nav_ms(m.mode)),
        ),
        (Stage::AwaitNav, EventModel::NavigationError(d)) => spec_fail(
            m,
            ErrorKind::NavigationFailed,
            d,
        ),
        (Stage::AwaitNav, EventModel::TimedOut(d)) => spec_fail(m, ErrorKind::Timeout, d),
        (Stage::AwaitNavSettle, EventModel::Settled) => if m.mode == Mode::Raw {
            (PipelineModel { stage: Stage::AwaitTitle, ..m }, ActionModel::ReadTitle)
        } else {
            (
                PipelineModel { stage: Stage::AwaitScroll, ..m },
                ActionModel::Evaluate(Script::Scroll, true),
            )
        },
        (Stage::AwaitTitle, EventModel::TitleRead(t)) => (
            PipelineModel { stage: Stage::AwaitHtml, title: t, ..m },
            ActionModel::Evaluate(Script::ReadHtml, false),
        ),
        (Stage::AwaitHtml, EventModel::EvalOk(v)) => spec_succeed(
            m,
            ResultModel {
                title: m.title,
                markdown: markdown_of(spec_value_text(v)),
                html: None,
            },
        ),
        (Stage::AwaitHtml, EventModel::EvalError(d)) => spec_fail(
            m,
            ErrorKind::EvaluationFailed,
            d,
        ),
        (Stage::AwaitHtml, EventModel::TimedOut(d)) => spec_fail(m, ErrorKind::Timeout, d),
        (Stage::AwaitScroll, EventModel::EvalOk(_)) => spec_after_scroll(m),
        (Stage::AwaitScroll, EventModel::EvalError(_)) => spec_after_scroll(m),
        (Stage::AwaitScroll, EventModel::TimedOut(_)) => spec_after_scroll(m),
        (Stage::AwaitScrollSettle, EventModel::Settled) => (
            PipelineModel { stage: Stage::AwaitImageFix, ..m },
            ActionModel::Evaluate(Script::FixImages, false),
        ),
        (Stage::AwaitImageFix, EventModel::EvalOk(_)) => spec_after_image_fix(m),
        (Stage::AwaitImageFix, EventModel::EvalError(_)) => spec_after_image_fix(m),
        (Stage::AwaitImageFix, EventModel::TimedOut(_)) => spec_after_image_fix(m),
        (Stage::AwaitInject, EventModel::EvalOk(_)) => (
            PipelineModel { stage: Stage::AwaitExtract, ..m },
            ActionModel::Evaluate(Script::Extract, false),
        ),
        (Stage::AwaitInject, EventModel::EvalError(d)) => spec_fail(
            m,
            ErrorKind::EvaluationFailed,
            d,
        ),
        (Stage::AwaitInject, EventModel::TimedOut(d)) => spec_fail(m, ErrorKind::Timeout, d),
        (Stage::AwaitExtract, EventModel::EvalOk(v)) => spec_succeed(
            m,
            ResultModel {
                title: spec_parse_envelope(v).title,
                markdown: markdown_of(spec_parse_envelope(v).content),
                html: Some(spec_parse_envelope(v).content),
            },
        ),
        (Stage::AwaitExtract, EventModel::EvalError(d)) => spec_fail(
            m,
            ErrorKind::EvaluationFailed,
            d,
        ),
        (Stage::AwaitExtract, EventModel::TimedOut(d)) => spec_fail(m, ErrorKind::Timeout, d),
        (Stage::AwaitClose, EventModel::Closed) => (
            PipelineModel { stage: Stage::Done, ..m },
            ActionModel::Finish,
        ),
        _ => (m, ActionModel::Idle),
    }
}

/// The text of an evaluation value: a missing value reads as empty.
pub open spec fn spec_value_text(v: Option<Seq<char>>) -> Seq<char> {
    match v {
        Some(s) => s,
        None => Seq::<char>::empty(),
    }
}

/// After the scroll simulation, whatever its outcome (scrolling is best
/// effort): run the post-scroll settle delay.
pub open spec fn spec_after_scroll(m: PipelineModel) -> (PipelineModel, ActionModel) {
    (
        PipelineModel { stage: Stage::AwaitScrollSettle, ..m },
        ActionModel::Settle(spec_settle_after_scroll_ms()),
    )
}

/// After the image repair, whatever its outcome (the repair is best
/// effort): inject the readability source.
pub open spec fn spec_after_image_fix(m: PipelineModel) -> (PipelineModel, ActionModel) {
    (
        PipelineModel { stage: Stage::AwaitInject, ..m },
        ActionModel::Evaluate(Script::InjectReadability, false),
    )
}

/// Stepping a well-formed pipeline keeps it well-formed.
pub proof fn lemma_step_preserves_inv(m: PipelineModel, e: EventModel)
    requires
        spec_inv(m),
    ensures
        spec_inv(spec_step(m, e).0),
{
}

/// Every acquired page session is closed exactly once per request: a
/// close is asked for only while a session is held and releases it, and
/// a finished request has issued exactly as many closes as it acquired
/// sessions (at most one), on every path, navigation and extraction
/// timeouts included.
pub proof fn lemma_session_closed_exactly_once(m: PipelineModel, e: EventModel)
    requires
        spec_inv(m),
    ensures
        spec_step(m, e).1 == ActionModel::CloseSession ==> m.session_open && !spec_step(
            m,
            e,
        ).0.session_open && spec_step(m, e).0.closes == m.closes + 1,
        spec_step(m, e).0.stage == Stage::Done ==> spec_step(m, e).0.closes == spec_step(
            m,
            e,
        ).0.opens && spec_step(m, e).0.opens <= 1 && !spec_step(m, e).0.session_open,
{
}

/// Readable mode derives its markdown from the envelope content alone:
/// the extraction evaluation's value is decoded into an envelope, and
/// the outcome's markdown is the converter applied to that envelope's
/// content — never to the full page HTML, which raw mode alone reads.
pub proof fn lemma_readable_markdown_from_content(m: PipelineModel, v: Option<Seq<char>>)
    requires
        m.stage == Stage::AwaitExtract,
    ensures
        ({
            let next = spec_step(m, EventModel::EvalOk(v)).0;
            next.outcome == Some(
                Ok::<ResultModel, ErrorModel>(
                    ResultModel {
                        title: spec_parse_envelope(v).title,
                        markdown: markdown_of(spec_parse_envelope(v).content),
                        html: Some(spec_parse_envelope(v).content),
                    },
                ),
            )
        }),
{
}

/// Raw mode returns, for every page the engine hands back, a result and
/// not an error: the title as read, and the markdown conversion of the
/// full-document HTML (a missing value reads as the empty document).
pub proof fn lemma_raw_result(m: PipelineModel, v: Option<Seq<char>>)
    requires
        m.stage == Stage::AwaitHtml,
    ensures
        ({
            let next = spec_step(m, EventModel::EvalOk(v)).0;
            next.outcome == Some(
                Ok::<ResultModel, ErrorModel>(
                    ResultModel {
                        title: m.title,
                        markdown: markdown_of(spec_value_text(v)),
                        html: None,
                    },
                ),
            )
        }),
{
}

/// The raw-mode happy path: when the engine answers every stage, the
/// request finishes with the page title, the markdown conversion of the
/// page HTML, no article HTML — and the one acquired session closed.
pub proof fn lemma_raw_happy_path(url: Seq<char>, title: Seq<char>, html: Option<Seq<char>>)
    ensures
        ({
            let m0 = spec_init(url, Mode::Raw);
            let m1 = spec_step(m0, EventModel::Begin).0;
            let m2 = spec_step(m1, EventModel::SessionReady).0;
            let m3 = spec_step(m2, EventModel::Navigated).0;
            let m4 = spec_step(m3, EventModel::Settled).0;
            let m5 = spec_step(m4, EventModel::TitleRead(title)).0;
            let m6 = spec_step(m5, EventModel::EvalOk(html)).0;
            let m7 = spec_step(m6, EventModel::Closed).0;
            &&& m7.stage == Stage::Done
            &&& m7.outcome == Some(
                Ok::<ResultModel, ErrorModel>(
                    ResultModel {
                        title,
                        markdown: markdown_of(spec_value_text(html)),
                        html: None,
                    },
                ),
            )
            &&& m7.opens == 1
            &&& m7.closes == 1
            &&& !m7.session_open
        }),
{
}

/// The readable-mode happy path: when the engine answers every stage,
/// the request finishes with the decoded envelope's title, the markdown
/// conversion of the envelope's content, that content as the article
/// HTML — and the one acquired session closed.
pub proof fn lemma_readable_happy_path(url: Seq<char>, v: Option<Seq<char>>)
    ensures
        ({
            let m0 = spec_init(url, Mode::Readable);
            let m1 = spec_step(m0, EventModel::Begin).0;
            let m2 = spec_step(m1, EventModel::SessionReady).0;
            let m3 = spec_step(m2, EventModel::Navigated).0;
            let m4 = spec_step(m3, EventModel::Settled).0;
            let m5 = spec_step(m4, EventModel::EvalOk(None)).0;
            let m6 = spec_step(m5, EventModel::Settled).0;
            let m7 = spec_step(m6, EventModel::EvalOk(None)).0;
            let m8 = spec_step(m7, EventModel::EvalOk(None)).0;
            let m9 = spec_step(m8, EventModel::EvalOk(v)).0;
            let m10 = spec_step(m9, EventModel::Closed).0;
            &&& m10.stage == Stage::Done
            &&& m10.outcome == Some(
                Ok::<ResultModel, ErrorModel>(
                    ResultModel {
                        title: spec_parse_envelope(v).title,
                        markdown: markdown_of(spec_parse_envelope(v).content),
                        html: Some(spec_parse_envelope(v).content),
                    },
                ),
            )
            &&& m10.opens == 1
            &&& m10.closes == 1
            &&& !m10.session_open
        }),
{
}

/// A failed navigation surfaces as `NavigationFailed` and still closes
/// the session: afterwards no session remains open.
pub proof fn lemma_navigation_failure_closes(m: PipelineModel, d: Seq<char>)
    requires
        spec_inv(m),
        m.stage == Stage::AwaitNav,
    ensures
        ({
            let r = spec_step(m, EventModel::NavigationError(d));
            &&& r.1 == ActionModel::CloseSession
            &&& r.0.outcome == Some(
                Err::<ResultModel, ErrorModel>(
                    ErrorModel { kind: ErrorKind::NavigationFailed, detail: d },
                ),
            )
            &&& !r.0.session_open
            &&& r.0.closes == r.0.opens
            &&& spec_step(r.0, EventModel::Closed).0.stage == Stage::Done
        }),
{
}

impl Pipeline {
    /// Whether this pipeline is well-formed.
    pub open spec fn inv(&self) -> bool {
        spec_inv(self@)
    }

    /// Start a request for the given URL in the given mode.
    pub fn new(url: String, mode: Mode) -> (p: Pipeline)
        ensures
            p@ == spec_init(url@, mode),
            p.inv(),
    {
        Pipeline {
            mode,
            url,
            stage: Stage::Start,
            title: String::new(),
            outcome: None,
            session_open: false,
            opens: 0,
            closes: 0,
        }
    }

    /// Feed the machine the event the driver reported; it moves to the
    /// next state and returns the next action to perform.
    ///
    /// Beyond refining the transition function, the contract pins the
    /// degraded path down: when the extraction evaluation comes back
    /// with an envelope whose content is empty (the in-page script
    /// caught an error or found no article), the request still ends in
    /// a success outcome whose markdown is empty and whose HTML is the
    /// empty fragment.
    pub fn step(&mut self, event: Event) -> (a: Action)
        requires
            old(self).inv(),
        ensures
            final(self).inv(),
            final(self)@ == spec_step(old(self)@, event@).0,
            a@ == spec_step(old(self)@, event@).1,
            ({
                &&& old(self)@.stage == Stage::AwaitExtract
                &&& event@ matches EventModel::EvalOk(v)
                &&& spec_parse_envelope(v).content.len() == 0
            }) ==> (final(self)@.outcome matches Some(Ok(r)) && r.markdown.len() == 0 && r.html
                == Some(Seq::<char>::empty())),
    {
        proof {
            lemma_step_preserves_inv(self@, event@);
        }
        match (self.stage, event) {
            (Stage::Start, Event::Begin) => {
                self.stage = Stage::AwaitSession;
                Action::AcquireSession
            },
            (Stage::AwaitSession, Event::SessionReady) => {
                self.stage = Stage::AwaitNav;
                self.session_open = true;
                proof {
                    assert(self.opens < 1);
                }
                self.opens = self.opens + 1;
                Action::Navigate(self.url.clone())
            },
            (Stage::AwaitSession, Event::EngineDown(d)) => {
                self.stage = Stage::Done;
                self.outcome = Some(
                    Err(ScrapeError { kind: ErrorKind::EngineUnavailable, detail: d }),
                );
                Action::Finish
            },
            (Stage::AwaitSession, Event::SessionFailed(d)) => {
                self.stage = Stage::Done;
                self.outcome = Some(
                    Err(ScrapeError { kind: ErrorKind::SessionCreationFailed, detail: d }),
                );
                Action::Finish
            },
            (Stage::AwaitNav, Event::Navigated) => {
                self.stage = Stage::AwaitNavSettle;
                Action::Settle(settle_after_nav_ms(self.mode))
            },
            (Stage::AwaitNav, Event::NavigationError(d)) => self.fail(
                ErrorKind::NavigationFailed,
                d,
            ),
            (Stage::AwaitNav, Event::TimedOut(d)) => self.fail(ErrorKind::Timeout, d),
            (Stage::AwaitNavSettle, Event::Settled) => {
                if self.mode == Mode::Raw {
                    self.stage = Stage::AwaitTitle;
                    Action::ReadTitle
                } else {
                    self.stage = Stage::AwaitScroll;
                    Action::Evaluate(Script::Scroll, true)
                }
            },
            (Stage::AwaitTitle, Event::TitleRead(t)) => {
                self.stage = Stage::AwaitHtml;
                self.title = t;
                Action::Evaluate(Script::ReadHtml, false)
            },
            (Stage::AwaitHtml, Event::EvalOk(v)) => {
                let html = value_text(v);
                let markdown = to_markdown(html.as_str());
                let result = ExtractionResult {
                    title: self.title.clone(),
                    markdown,
                    html: None,
                };
                self.succeed(result)
            },
            (Stage::AwaitHtml, Event::EvalError(d)) => self.fail(ErrorKind::EvaluationFailed, d),
            (Stage::AwaitHtml, Event::TimedOut(d)) => self.fail(ErrorKind::Timeout, d),
            (Stage::AwaitScroll, Event::EvalOk(_)) => self.after_scroll(),
            (Stage::AwaitScroll, Event::EvalError(_)) => self.after_scroll(),
            (Stage::AwaitScroll, Event::TimedOut(_)) => self.after_scroll(),
            (Stage::AwaitScrollSettle, Event::Settled) => {
                self.stage = Stage::AwaitImageFix;
                Action::Evaluate(Script::FixImages, false)
            },
            (Stage::AwaitImageFix, Event::EvalOk(_)) => self.after_image_fix(),
            (Stage::AwaitImageFix, Event::EvalError(_)) => self.after_image_fix(),
            (Stage::AwaitImageFix, Event::TimedOut(_)) => self.after_image_fix(),
            (Stage::AwaitInject, Event::EvalOk(_)) => {
                self.stage = Stage::AwaitExtract;
                Action::Evaluate(Script::Extract, false)
            },
            (Stage::AwaitInject, Event::EvalError(d)) => self.fail(ErrorKind::EvaluationFailed, d),
            (Stage::AwaitInject, Event::TimedOut(d)) => self.fail(ErrorKind::Timeout, d),
            (Stage::AwaitExtract, Event::EvalOk(v)) => {
                let env = parse_envelope(v);
                let markdown = to_markdown(env.content.as_str());
                let result = ExtractionResult {
                    title: env.title,
                    markdown,
                    html: Some(env.content),
                };
                self.succeed(result)
            },
            (Stage::AwaitExtract, Event::EvalError(d)) => self.fail(ErrorKind::EvaluationFailed, d),
            (Stage::AwaitExtract, Event::TimedOut(d)) => self.fail(ErrorKind::Timeout, d),
            (Stage::AwaitClose, Event::Closed) => {
                self.stage = Stage::Done;
                Action::Finish
            },
            (_, _) => Action::Idle,
        }
    }

    /// Decide a failure outcome and ask for the session to be closed.
    fn fail(&mut self, kind: ErrorKind, detail: String) -> (a: Action)
        requires
            old(self).inv(),
            spec_holds_session(old(self).stage),
        ensures
            (final(self)@, a@) == spec_fail(old(self)@, kind, detail@),
    {
        self.stage = Stage::AwaitClose;
        self.outcome = Some(Err(ScrapeError { kind, detail }));
        self.session_open = false;
        self.closes = self.closes + 1;
        Action::CloseSession
    }

    /// Decide a success outcome and ask for the session to be closed.
    fn succeed(&mut self, result: ExtractionResult) -> (a: Action)
        requires
            old(self).inv(),
            spec_holds_session(old(self).stage),
        ensures
            (final(self)@, a@) == spec_succeed(old(self)@, result@),
    {
        self.stage = Stage::AwaitClose;
        self.outcome = Some(Ok(result));
        self.session_open = false;
        self.closes = self.closes + 1;
        Action::CloseSession
    }

    fn after_scroll(&mut self) -> (a: Action)
        requires
            old(self).inv(),
        ensures
            (final(self)@, a@) == spec_after_scroll(old(self)@),
    {
        self.stage = Stage::AwaitScrollSettle;
        Action::Settle(settle_after_scroll_ms())
    }

    fn after_image_fix(&mut self) -> (a: Action)
        requires
            old(self).inv(),
        ensures
            (final(self)@, a@) == spec_after_image_fix(old(self)@),
    {
        self.stage = Stage::AwaitInject;
        Action::Evaluate(Script::InjectReadability, false)
    }

    /// Whether this pipeline is well-formed, decided at run time: what
    /// `step` requires of its callers. Every pipeline the library hands
    /// out, and every state `step` leaves behind, passes this check.
    pub fn is_well_formed(&self) -> (r: bool)
        ensures
            r == self.inv(),
    {
        let session_accounting = if self.session_open {
            self.opens > 0 && self.opens - 1 == self.closes
        } else {
            self.opens == self.closes
        };
        let stage_session = self.session_open == match self.stage {
            Stage::Start => false,
            Stage::AwaitSession => false,
            Stage::AwaitClose => false,
            Stage::Done => false,
            _ => true,
        };
        let fresh = match self.stage {
            Stage::Start => self.opens == 0,
            Stage::AwaitSession => self.opens == 0,
            _ => true,
        };
        let decided = match self.stage {
            Stage::AwaitClose => self.outcome.is_some(),
            Stage::Done => self.outcome.is_some(),
            _ => true,
        };
        self.opens <= 1 && session_accounting && stage_session && fresh && decided
    }

    /// Whether the request is finished.
    pub fn is_done(&self) -> (r: bool)
        ensures
            r == (self@.stage == Stage::Done),
    {
        self.stage == Stage::Done
    }

    /// Take the decided outcome off a finished pipeline.
    pub fn take_outcome(self) -> (r: Option<Result<ExtractionResult, ScrapeError>>)
        ensures
            spec_outcome_view(r) == self@.outcome,
    {
        self.outcome
    }
}

impl Scraper {
    /// Begin a raw-mode request: navigate, read the whole page, convert
    /// it to markdown.
    pub fn scrape_url(url: String) -> (p: Pipeline)
        ensures
            p@ == spec_init(url@, Mode::Raw),
            p.inv(),
    {
        Pipeline::new(url, Mode::Raw)
    }

    /// Begin a readable-mode request: navigate, settle lazily loaded
    /// content, extract the main article, convert it to markdown.
    pub fn scrape_readable_url(url: String) -> (p: Pipeline)
        ensures
            p@ == spec_init(url@, Mode::Readable),
            p.inv(),
    {
        Pipeline::new(url, Mode::Readable)
    }
}

/// The fixed settle delay, in milliseconds, applied after navigation.
pub fn settle_after_nav_ms(mode: Mode) -> (r: u64)
    ensures
        r == spec_settle_after_nav_ms(mode),
{
    match mode {
        Mode::Raw => 1000,
        Mode::Readable => 1500,
    }
}

/// The idle timeout, in seconds, after which an unused engine process
/// may be torn down. A hint to the session provider, not a guarantee
/// the engine survives between requests.
pub fn engine_idle_timeout_secs() -> (r: u64)
    ensures
        r == 300,
{
    300
}

/// The fixed settle delay, in milliseconds, applied after scrolling.
pub fn settle_after_scroll_ms() -> (r: u64)
    ensures
        r == spec_settle_after_scroll_ms(),
{
    500
}

/// The text of an evaluation value, the empty string when absent.
fn value_text(v: Option<String>) -> (r: String)
    ensures
        r@ == spec_value_text(match v {
            Some(ref s) => Some(s@),
            None => None,
        }),
{
    match v {
        Some(s) => s,
        None => String::new(),
    }
}

} // verus!
