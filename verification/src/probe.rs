//! The detail probe: what one attempt to look up an entry's metadata means,
//! and how long to wait before the next one.
//!
//! The storefront throttles, its gateway fails now and then, and for some
//! identifiers it answers with a body that holds nothing. Throttling and
//! gateway faults are transient and retried after a pause; an empty body is a
//! final answer. Each attempt is therefore classified as either a retry, with
//! its reason, or a terminal outcome, with the detail if there is one.

use vstd::prelude::*;
use vstd::string::*;

verus! {

/// HTTP status by which the storefront signals that it is being asked too often.
pub const STATUS_TOO_MANY_REQUESTS: u16 = 429;

/// HTTP status of a transient gateway fault.
pub const STATUS_BAD_GATEWAY: u16 = 502;

/// Pause after a throttled attempt, in milliseconds: two minutes.
pub const RATE_LIMIT_COOLDOWN_MILLIS: u64 = 120_000;

/// Pause after a gateway fault, in milliseconds.
pub const GATEWAY_RETRY_MILLIS: u64 = 500;

/// The classification that marks an entry as a game.
pub const GAME_CLASSIFICATION: &'static str = "game";

/// Metadata of one catalog entry: what kind of application it is, and whether
/// it has achievements.
#[derive(Debug, PartialEq, Eq)]
pub struct EntryDetail {
    pub classification: String,
    pub has_achievements: bool,
}

/// Mathematical value of an [`EntryDetail`].
pub struct EntryDetailView {
    pub classification: Seq<char>,
    pub has_achievements: bool,
}

impl EntryDetailView {
    /// The predicate an entry must meet to stay in the filtered catalog.
    pub open spec fn is_game_with_achievements(self) -> bool {
        self.classification == GAME_CLASSIFICATION@ && self.has_achievements
    }
}

impl DeepView for EntryDetail {
    type V = EntryDetailView;

    open spec fn deep_view(&self) -> EntryDetailView {
        EntryDetailView {
            classification: self.classification@,
            has_achievements: self.has_achievements,
        }
    }
}

impl View for EntryDetail {
    type V = EntryDetailView;

    open spec fn view(&self) -> EntryDetailView {
        self.deep_view()
    }
}

impl EntryDetail {
    /// Whether the entry is a game that has achievements.
    pub fn is_game_with_achievements(&self) -> (yes: bool)
        ensures
            yes == self@.is_game_with_achievements(),
    {
        let game = String::from_str(GAME_CLASSIFICATION);
        self.has_achievements && self.classification == game
    }
}

/// What one detail request produced.
#[derive(Debug, PartialEq, Eq)]
pub enum ProbeResponse {
    /// The request itself failed: no response was obtained.
    TransportFailure,
    /// A response arrived, with this HTTP status. `detail` is the decoded body,
    /// or `None` where the body could not be read or holds no detail.
    Reply { status: u16, detail: Option<EntryDetail> },
}

/// Mathematical value of a [`ProbeResponse`].
pub enum ProbeResponseView {
    TransportFailure,
    Reply { status: u16, detail: Option<EntryDetailView> },
}

impl DeepView for ProbeResponse {
    type V = ProbeResponseView;

    open spec fn deep_view(&self) -> ProbeResponseView {
        match self {
            ProbeResponse::TransportFailure => ProbeResponseView::TransportFailure,
            ProbeResponse::Reply { status, detail } => ProbeResponseView::Reply {
                status: *status,
                detail: detail.deep_view(),
            },
        }
    }
}

impl View for ProbeResponse {
    type V = ProbeResponseView;

    open spec fn view(&self) -> ProbeResponseView {
        self.deep_view()
    }
}

/// Status of an attempt, as recorded for the progress display.
#[derive(Clone, Copy, Debug, PartialEq, Eq, Structural)]
pub enum ProbeStatus {
    /// The storefront throttled the attempt.
    RateLimited,
    /// The gateway failed.
    GatewayError,
    /// The storefront has no detail for the identifier.
    NoData,
    /// A detail was obtained.
    Success,
}

impl ProbeStatus {
    /// The status as the progress display names it.
    pub open spec fn label(self) -> Seq<char> {
        match self {
            ProbeStatus::RateLimited => "rate_limited"@,
            ProbeStatus::GatewayError => "gateway_error"@,
            ProbeStatus::NoData => "no_data"@,
            ProbeStatus::Success => "ok"@,
        }
    }

    /// The status as the progress display names it.
    pub fn as_str(&self) -> (text: &'static str)
        ensures
            text@ == self.label(),
    {
        match self {
            ProbeStatus::RateLimited => "rate_limited",
            ProbeStatus::GatewayError => "gateway_error",
            ProbeStatus::NoData => "no_data",
            ProbeStatus::Success => "ok",
        }
    }
}

/// Why an attempt has to be made again.
#[derive(Clone, Copy, Debug, PartialEq, Eq, Structural)]
pub enum RetryReason {
    /// No response was obtained.
    TransportFailure,
    /// The storefront throttled the attempt.
    RateLimited,
    /// The gateway failed.
    GatewayFault,
}

impl RetryReason {
    /// How long to wait before the next attempt, in milliseconds: not at all
    /// after a transport failure, the cooldown after throttling, a short delay
    /// after a gateway fault.
    pub open spec fn backoff(self) -> u64 {
        match self {
            RetryReason::TransportFailure => 0,
            RetryReason::RateLimited => RATE_LIMIT_COOLDOWN_MILLIS,
            RetryReason::GatewayFault => GATEWAY_RETRY_MILLIS,
        }
    }

    /// The status recorded for an attempt that ended this way. A transport
    /// failure records none.
    pub open spec fn status(self) -> Option<ProbeStatus> {
        match self {
            RetryReason::TransportFailure => None,
            RetryReason::RateLimited => Some(ProbeStatus::RateLimited),
            RetryReason::GatewayFault => Some(ProbeStatus::GatewayError),
        }
    }

    /// How long to wait before the next attempt, in milliseconds.
    pub fn backoff_millis(&self) -> (millis: u64)
        ensures
            millis == self.backoff(),
    {
        match self {
            RetryReason::TransportFailure => 0,
            RetryReason::RateLimited => RATE_LIMIT_COOLDOWN_MILLIS,
            RetryReason::GatewayFault => GATEWAY_RETRY_MILLIS,
        }
    }

    /// The status recorded for an attempt that ended this way, if any.
    pub fn recorded_status(&self) -> (status: Option<ProbeStatus>)
        ensures
            status == self.status(),
    {
        match self {
            RetryReason::TransportFailure => None,
            RetryReason::RateLimited => Some(ProbeStatus::RateLimited),
            RetryReason::GatewayFault => Some(ProbeStatus::GatewayError),
        }
    }
}

/// Outcome of one attempt: try again, or done.
#[derive(Debug, PartialEq, Eq)]
pub enum AttemptOutcome {
    /// The attempt gave no answer; the same identifier is asked for again.
    Retry(RetryReason),
    /// The attempt gave the final answer for the identifier: its detail, or
    /// `None` where the storefront has none.
    Terminal(Option<EntryDetail>),
}

/// Mathematical value of an [`AttemptOutcome`].
pub enum AttemptOutcomeView {
    Retry(RetryReason),
    Terminal(Option<EntryDetailView>),
}

impl AttemptOutcomeView {
    /// The status recorded for the attempt, if any.
    pub open spec fn status(self) -> Option<ProbeStatus> {
        match self {
            AttemptOutcomeView::Retry(reason) => reason.status(),
            AttemptOutcomeView::Terminal(None) => Some(ProbeStatus::NoData),
            AttemptOutcomeView::Terminal(Some(_)) => Some(ProbeStatus::Success),
        }
    }

    /// Whether the attempt settles that the entry stays in the filtered catalog.
    pub open spec fn keeps_entry(self) -> bool {
        self matches AttemptOutcomeView::Terminal(Some(detail))
            && detail.is_game_with_achievements()
    }
}

impl DeepView for AttemptOutcome {
    type V = AttemptOutcomeView;

    open spec fn deep_view(&self) -> AttemptOutcomeView {
        match self {
            AttemptOutcome::Retry(reason) => AttemptOutcomeView::Retry(*reason),
            AttemptOutcome::Terminal(detail) => AttemptOutcomeView::Terminal(detail.deep_view()),
        }
    }
}

impl View for AttemptOutcome {
    type V = AttemptOutcomeView;

    open spec fn view(&self) -> AttemptOutcomeView {
        self.deep_view()
    }
}

impl AttemptOutcome {
    /// The status recorded for the attempt, if any.
    pub fn recorded_status(&self) -> (status: Option<ProbeStatus>)
        ensures
            status == self@.status(),
    {
        match self {
            AttemptOutcome::Retry(reason) => reason.recorded_status(),
            AttemptOutcome::Terminal(None) => Some(ProbeStatus::NoData),
            AttemptOutcome::Terminal(Some(_)) => Some(ProbeStatus::Success),
        }
    }

    /// Whether the attempt settles that the entry stays in the filtered catalog.
    pub fn keeps_entry(&self) -> (keep: bool)
        ensures
            keep == self@.keeps_entry(),
    {
        match self {
            AttemptOutcome::Terminal(Some(detail)) => detail.is_game_with_achievements(),
            _ => false,
        }
    }
}

/// The outcome that a response stands for.
///
/// No response at all, a throttled one and a gateway fault are retried, each
/// for its own reason and whatever body came with it. Any other response is
/// final: with the decoded detail where there is one, without where the body
/// held none.
pub open spec fn attempt_outcome(response: ProbeResponseView) -> AttemptOutcomeView {
    match response {
        ProbeResponseView::TransportFailure => AttemptOutcomeView::Retry(
            RetryReason::TransportFailure,
        ),
        ProbeResponseView::Reply { status, detail } => if status == STATUS_TOO_MANY_REQUESTS {
            AttemptOutcomeView::Retry(RetryReason::RateLimited)
        } else if status == STATUS_BAD_GATEWAY {
            AttemptOutcomeView::Retry(RetryReason::GatewayFault)
        } else {
            AttemptOutcomeView::Terminal(detail)
        },
    }
}

/// Classifies one response as a retry or as the final answer.
pub fn classify_attempt(response: ProbeResponse) -> (outcome: AttemptOutcome)
    ensures
        outcome@ == attempt_outcome(response@),
{
    match response {
        ProbeResponse::TransportFailure => AttemptOutcome::Retry(RetryReason::TransportFailure),
        ProbeResponse::Reply { status, detail } => {
            if status == STATUS_TOO_MANY_REQUESTS {
                AttemptOutcome::Retry(RetryReason::RateLimited)
            } else if status == STATUS_BAD_GATEWAY {
                AttemptOutcome::Retry(RetryReason::GatewayFault)
            } else {
                AttemptOutcome::Terminal(detail)
            }
        },
    }
}

} // verus!
