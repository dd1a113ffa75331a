//! The retry and redirect protocol of a remote subgraph fetch, as a state
//! machine: the caller performs each HTTP exchange and reports its outcome.

use vstd::prelude::*;

use crate::redirect::{
    opt_target, parse_target, parsed_target, redirect_target, redirect_url, RedirectError, Target,
    TargetView,
};

verus! {

/// Attempts made by default for one call.
pub const DEFAULT_MAX_RETRY_NUM: usize = 2;

/// Redirects followed by default for one call.
pub const DEFAULT_MAX_REDIRECT_NUM: usize = 10;

/// Status of a response that asks to retry later.
pub const SERVICE_UNAVAILABLE: u16 = 503;

/// Budgets of a remote subgraph call.
#[derive(Clone, Copy, PartialEq, Eq, Structural, Debug)]
pub struct FetchConfig {
    /// How many attempts a call may make on transport failures and 503s.
    pub max_retry_num: usize,
    /// How many redirects a call may follow.
    pub max_redirect_num: usize,
}

impl FetchConfig {
    /// The default budgets.
    pub fn new() -> (r: FetchConfig)
        ensures
            r.max_retry_num == DEFAULT_MAX_RETRY_NUM,
            r.max_redirect_num == DEFAULT_MAX_REDIRECT_NUM,
    {
        FetchConfig { max_retry_num: DEFAULT_MAX_RETRY_NUM, max_redirect_num: DEFAULT_MAX_REDIRECT_NUM }
    }
}

/// The two kinds of subgraph fetch failure.
#[derive(Clone, Copy, PartialEq, Eq, Structural, Debug)]
pub enum FetchErrorKind {
    /// The subgraph could not be reached: transport errors, exhausted
    /// retries, redirects that cannot be followed, an unreadable body.
    SubrequestHttpError,
    /// The subgraph answered with a body that is no valid response.
    SubrequestMalformedResponse,
}

/// A failed subgraph fetch, naming the subgraph.
#[derive(Debug, PartialEq, Eq)]
pub struct FetchError {
    pub kind: FetchErrorKind,
    pub service: String,
    pub reason: String,
}

pub struct FetchErrorView {
    pub kind: FetchErrorKind,
    pub service: Seq<char>,
    pub reason: Seq<char>,
}

impl View for FetchError {
    type V = FetchErrorView;

    open spec fn view(&self) -> FetchErrorView {
        FetchErrorView { kind: self.kind, service: self.service@, reason: self.reason@ }
    }
}

/// What a fetch waits for next.
#[derive(Debug, PartialEq, Eq)]
pub enum FetchStage {
    /// The request is to be sent to the current target.
    Send,
    /// A final response came: its body is to be read and parsed.
    ReadBody,
    /// The call failed.
    Failed(FetchError),
    /// The body was parsed: the response is to be delivered.
    Done,
}

pub enum StageView {
    Send,
    ReadBody,
    Failed(FetchErrorView),
    Done,
}

impl View for FetchStage {
    type V = StageView;

    open spec fn view(&self) -> StageView {
        match self {
            FetchStage::Send => StageView::Send,
            FetchStage::ReadBody => StageView::ReadBody,
            FetchStage::Failed(e) => StageView::Failed(e@),
            FetchStage::Done => StageView::Done,
        }
    }
}

/// The outcome of the step that a fetch asked for.
#[derive(Debug, PartialEq, Eq)]
pub enum FetchEvent {
    /// Sending failed before any response came.
    TransportFailed(String),
    /// A response came, with its status and its Location, where one was given
    /// and could be parsed.
    Responded { status: u16, location: Option<Target> },
    /// Reading the body of the final response failed.
    BodyFailed(String),
    /// The body was read but is no valid response.
    BodyMalformed(String),
    /// The body was read and parsed.
    BodyParsed,
}

pub enum EventView {
    TransportFailed(Seq<char>),
    Responded { status: u16, location: Option<TargetView> },
    BodyFailed(Seq<char>),
    BodyMalformed(Seq<char>),
    BodyParsed,
}

impl View for FetchEvent {
    type V = EventView;

    open spec fn view(&self) -> EventView {
        match self {
            FetchEvent::TransportFailed(r) => EventView::TransportFailed(r@),
            FetchEvent::Responded { status, location } => EventView::Responded {
                status: *status,
                location: opt_target(*location),
            },
            FetchEvent::BodyFailed(r) => EventView::BodyFailed(r@),
            FetchEvent::BodyMalformed(r) => EventView::BodyMalformed(r@),
            FetchEvent::BodyParsed => EventView::BodyParsed,
        }
    }
}

/// The Location that a response's header text gives, if any.
pub open spec fn location_of(header: Option<Seq<char>>) -> Option<TargetView> {
    match header {
        Some(text) => parsed_target(text),
        None => None,
    }
}

impl FetchEvent {
    /// The outcome of a response with status `status` and Location header
    /// text `location`.
    pub fn response(status: u16, location: Option<&str>) -> (e: FetchEvent)
        ensures
            e@ == (EventView::Responded {
                status,
                location: location_of(
                    match location {
                        Some(text) => Some(text@),
                        None => None,
                    },
                ),
            }),
    {
        let location = match location {
            Some(text) => parse_target(text),
            None => None,
        };
        FetchEvent::Responded { status, location }
    }
}

/// One remote subgraph call in progress.
#[derive(Debug, PartialEq, Eq)]
pub struct RemoteFetch {
    /// The subgraph's name, carried into every error.
    pub service: String,
    /// Where the request goes next.
    pub url: Target,
    pub retry_remain: usize,
    pub redirect_remain: usize,
    /// The last recorded failure.
    pub reason: String,
    pub stage: FetchStage,
}

pub struct FetchView {
    pub service: Seq<char>,
    pub url: TargetView,
    pub retry_remain: nat,
    pub redirect_remain: nat,
    pub reason: Seq<char>,
    pub stage: StageView,
}

impl View for RemoteFetch {
    type V = FetchView;

    open spec fn view(&self) -> FetchView {
        FetchView {
            service: self.service@,
            url: self.url@,
            retry_remain: self.retry_remain as nat,
            redirect_remain: self.redirect_remain as nat,
            reason: self.reason@,
            stage: self.stage@,
        }
    }
}

pub open spec fn is_redirect_status(status: u16) -> bool {
    status == 301 || status == 302 || status == 303 || status == 307 || status == 308
}

/// The failure of the call that `s` belongs to, with kind `kind`.
pub open spec fn failure(s: FetchView, kind: FetchErrorKind, reason: Seq<char>) -> StageView {
    StageView::Failed(FetchErrorView { kind, service: s.service, reason })
}

/// A call that is still sending has attempts left.
pub open spec fn fetch_wf(s: FetchView) -> bool {
    s.stage is Send ==> s.retry_remain > 0
}

/// A fresh call of subgraph `service` towards `url`.
pub open spec fn start_view(service: Seq<char>, url: TargetView, config: FetchConfig) -> FetchView {
    FetchView {
        service,
        url,
        retry_remain: config.max_retry_num as nat,
        redirect_remain: config.max_redirect_num as nat,
        reason: Seq::empty(),
        stage: if config.max_retry_num > 0 {
            StageView::Send
        } else {
            StageView::Failed(
                FetchErrorView {
                    kind: FetchErrorKind::SubrequestHttpError,
                    service,
                    reason: Seq::empty(),
                },
            )
        },
    }
}

/// One attempt used up: send again while any are left, else fail with the
/// last recorded reason.
pub open spec fn spend_attempt(s: FetchView) -> FetchView {
    let left = (s.retry_remain - 1) as nat;
    FetchView {
        retry_remain: left,
        stage: if left > 0 {
            StageView::Send
        } else {
            failure(s, FetchErrorKind::SubrequestHttpError, s.reason)
        },
        ..s
    }
}

/// Fail with an unreachable-subgraph error, recording its reason.
pub open spec fn give_up(s: FetchView, reason: Seq<char>) -> FetchView {
    FetchView { reason, stage: failure(s, FetchErrorKind::SubrequestHttpError, reason), ..s }
}

/// The state after `s` learns the outcome `e`. An outcome that the stage does
/// not wait for changes nothing.
pub open spec fn step_view(s: FetchView, e: EventView) -> FetchView {
    match s.stage {
        StageView::Send => match e {
            EventView::TransportFailed(reason) => spend_attempt(FetchView { reason, ..s }),
            EventView::Responded { status, location } => if is_redirect_status(status) {
                if s.redirect_remain == 0 {
                    give_up(s, RedirectError::Exhausted.text())
                } else {
                    let t = FetchView { redirect_remain: (s.redirect_remain - 1) as nat, ..s };
                    match redirect_target(location, s.url) {
                        Ok(u) => FetchView { url: u, ..t },
                        Err(err) => give_up(t, err.text()),
                    }
                }
            } else if status == SERVICE_UNAVAILABLE {
                spend_attempt(s)
            } else {
                FetchView { stage: StageView::ReadBody, ..s }
            },
            _ => s,
        },
        StageView::ReadBody => match e {
            EventView::BodyFailed(reason) => give_up(s, reason),
            EventView::BodyMalformed(reason) => FetchView {
                stage: failure(s, FetchErrorKind::SubrequestMalformedResponse, reason),
                ..s
            },
            EventView::BodyParsed => FetchView { stage: StageView::Done, ..s },
            _ => s,
        },
        _ => s,
    }
}

/// The state after the outcomes `events`, one after another.
pub open spec fn run(s: FetchView, events: Seq<EventView>) -> FetchView
    decreases events.len(),
{
    if events.len() == 0 {
        s
    } else {
        run(step_view(s, events[0]), events.drop_first())
    }
}

impl RemoteFetch {
    pub open spec fn wf(&self) -> bool {
        fetch_wf(self@)
    }

    /// Starts a call of subgraph `service` towards `url`.
    pub fn start(service: String, url: Target, config: FetchConfig) -> (r: RemoteFetch)
        ensures
            r.wf(),
            r@ == start_view(service@, url@, config),
    {
        let stage = if config.max_retry_num > 0 {
            FetchStage::Send
        } else {
            FetchStage::Failed(
                FetchError {
                    kind: FetchErrorKind::SubrequestHttpError,
                    service: service.clone(),
                    reason: String::new(),
                },
            )
        };
        RemoteFetch {
            service,
            url,
            retry_remain: config.max_retry_num,
            redirect_remain: config.max_redirect_num,
            reason: String::new(),
            stage,
        }
    }

    fn fail(&mut self, kind: FetchErrorKind, reason: String)
        ensures
            final(self)@ == (FetchView {
                stage: failure(old(self)@, kind, reason@),
                ..old(self)@
            }),
    {
        self.stage = FetchStage::Failed(FetchError { kind, service: self.service.clone(), reason });
    }

    fn give_up(&mut self, reason: String)
        ensures
            final(self)@ == give_up(old(self)@, reason@),
    {
        self.reason = reason.clone();
        self.fail(FetchErrorKind::SubrequestHttpError, reason);
    }

    fn spend_attempt(&mut self)
        requires
            old(self).retry_remain > 0,
            old(self).stage is Send,
        ensures
            final(self)@ == spend_attempt(old(self)@),
    {
        self.retry_remain = self.retry_remain - 1;
        if self.retry_remain == 0 {
            let reason = self.reason.clone();
            self.fail(FetchErrorKind::SubrequestHttpError, reason);
        }
    }

    /// Feeds the outcome of the step that the stage asked for.
    pub fn step(&mut self, event: FetchEvent)
        requires
            old(self).wf(),
        ensures
            final(self).wf(),
            final(self)@ == step_view(old(self)@, event@),
    {
        let sending = matches!(self.stage, FetchStage::Send);
        let reading = matches!(self.stage, FetchStage::ReadBody);
        if sending {
            match event {
                FetchEvent::TransportFailed(reason) => {
                    self.reason = reason;
                    self.spend_attempt();
                },
                FetchEvent::Responded { status, location } => {
                    if status == 301 || status == 302 || status == 303 || status == 307 || status == 308 {
                        if self.redirect_remain == 0 {
                            self.give_up(RedirectError::Exhausted.reason());
                        } else {
                            self.redirect_remain = self.redirect_remain - 1;
                            match redirect_url(location, &self.url) {
                                Ok(u) => {
                                    self.url = u;
                                },
                                Err(err) => {
                                    self.give_up(err.reason());
                                },
                            }
                        }
                    } else if status == SERVICE_UNAVAILABLE {
                        self.spend_attempt();
                    } else {
                        self.stage = FetchStage::ReadBody;
                    }
                },
                _ => {},
            }
        } else if reading {
            match event {
                FetchEvent::BodyFailed(reason) => {
                    self.give_up(reason);
                },
                FetchEvent::BodyMalformed(reason) => {
                    self.fail(FetchErrorKind::SubrequestMalformedResponse, reason);
                },
                FetchEvent::BodyParsed => {
                    self.stage = FetchStage::Done;
                },
                _ => {},
            }
        }
    }
}

} // verus!
