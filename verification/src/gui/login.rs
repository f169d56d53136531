//! Starting the bridge by itself after a sign-in: how far it has come, and how long it waits.

use crate::clock::{LAST_MOMENT, SECOND};
use core::time::Duration;
use vstd::prelude::*;

verus! {

/// How long the saved devices may take to become ready, in nanoseconds.
pub const LOGIN_AUTO_START_TIMEOUT: u64 = 90_000_000_000;

/// How far the start after a sign-in has come.
#[derive(Debug)]
pub enum LoginAutoStartState {
    /// It is not wanted.
    Inactive,
    /// The devices are not ready yet.
    Waiting { deadline: u64, next_retry: u64, attempt: u8, last_issue: Option<String> },
    /// The streams are opening.
    Starting { deadline: u64, attempt: u8 },
    /// It was called off while the streams were opening.
    Cancelling,
    /// The bridge runs.
    Complete,
    /// It was called off.
    Cancelled,
    /// It was given up, for a reason.
    Failed(String),
}

/// How far the start has come, with texts by characters.
pub enum LoginView {
    Inactive,
    Waiting { deadline: u64, next_retry: u64, attempt: u8, last_issue: Option<Seq<char>> },
    Starting { deadline: u64, attempt: u8 },
    Cancelling,
    Complete,
    Cancelled,
    Failed(Seq<char>),
}

impl View for LoginAutoStartState {
    type V = LoginView;

    open spec fn view(&self) -> LoginView {
        match self {
            LoginAutoStartState::Inactive => LoginView::Inactive,
            LoginAutoStartState::Waiting { deadline, next_retry, attempt, last_issue } => {
                LoginView::Waiting {
                    deadline: *deadline,
                    next_retry: *next_retry,
                    attempt: *attempt,
                    last_issue: last_issue.deep_view(),
                }
            },
            LoginAutoStartState::Starting { deadline, attempt } => LoginView::Starting {
                deadline: *deadline,
                attempt: *attempt,
            },
            LoginAutoStartState::Cancelling => LoginView::Cancelling,
            LoginAutoStartState::Complete => LoginView::Complete,
            LoginAutoStartState::Cancelled => LoginView::Cancelled,
            LoginAutoStartState::Failed(message) => LoginView::Failed(message@),
        }
    }
}

impl LoginView {
    /// The start as it begins to wait: ninety seconds for everything, the first retry after one.
    pub open spec fn begun(now: u64) -> LoginView {
        LoginView::Waiting {
            deadline: (now + LOGIN_AUTO_START_TIMEOUT) as u64,
            next_retry: (now + SECOND) as u64,
            attempt: 0,
            last_issue: None,
        }
    }

    /// Whether a started bridge is the work of this start.
    pub open spec fn completed_start(self) -> bool {
        self is Complete || self is Cancelling
    }

    /// The moment until which the start goes on trying.
    pub open spec fn deadline(self) -> Option<u64> {
        match self {
            LoginView::Waiting { deadline, .. } => Some(deadline),
            LoginView::Starting { deadline, .. } => Some(deadline),
            _ => None,
        }
    }
}

impl LoginAutoStartState {
    /// The start as it begins to wait.
    pub fn waiting(now: u64) -> (state: LoginAutoStartState)
        requires
            now <= LAST_MOMENT,
        ensures
            state@ == LoginView::begun(now),
    {
        LoginAutoStartState::Waiting {
            deadline: now + LOGIN_AUTO_START_TIMEOUT,
            next_retry: now + SECOND,
            attempt: 0,
            last_issue: None,
        }
    }

    /// Whether the start waits for devices.
    pub fn is_waiting(&self) -> (waiting: bool)
        ensures
            waiting == self@ is Waiting,
    {
        match self {
            LoginAutoStartState::Waiting { .. } => true,
            _ => false,
        }
    }

    /// Whether a started bridge is the work of this start.
    pub fn is_completed_start(&self) -> (completed: bool)
        ensures
            completed == self@.completed_start(),
    {
        match self {
            LoginAutoStartState::Complete => true,
            LoginAutoStartState::Cancelling => true,
            _ => false,
        }
    }
}

/// The seconds before an attempt is repeated: one, two, four, and from then on five.
pub open spec fn retry_seconds(attempt: u8) -> u64 {
    if attempt <= 1 {
        1
    } else if attempt == 2 {
        2
    } else if attempt == 3 {
        4
    } else {
        5
    }
}

/// The seconds before an attempt is repeated.
pub fn login_retry_seconds(attempt: u8) -> (seconds: u64)
    ensures
        seconds == retry_seconds(attempt),
{
    match attempt {
        0 | 1 => 1,
        2 => 2,
        3 => 4,
        _ => 5,
    }
}

/// A span of whole seconds, as `Duration::from_secs` makes it.
pub uninterp spec fn span_of_seconds(seconds: u64) -> Duration;

/// Names what `Duration::from_secs` returns: it depends on the number of seconds alone.
pub assume_specification[ Duration::from_secs ](seconds: u64) -> (span: Duration)
    ensures
        span == span_of_seconds(seconds),
;

/// How long is waited before an attempt is repeated.
pub fn login_retry_delay(attempt: u8) -> (delay: Duration)
    ensures
        delay == span_of_seconds(retry_seconds(attempt)),
{
    Duration::from_secs(login_retry_seconds(attempt))
}

/// Waiting never gets shorter from one attempt to the next, and never longer than five seconds.
pub proof fn retry_delay_grows_to_a_limit(attempt: u8, later: u8)
    requires
        attempt <= later,
    ensures
        1 <= retry_seconds(attempt) <= retry_seconds(later) <= 5,
{
}

/// A start by itself has ninety seconds from its beginning, and looks again after one.
pub proof fn a_start_has_ninety_seconds(now: u64)
    requires
        now <= LAST_MOMENT,
    ensures
        LoginView::begun(now) matches LoginView::Waiting {
            deadline,
            next_retry,
            attempt,
            last_issue,
        } && deadline - now == 90 * 1_000_000_000 && next_retry - now == 1_000_000_000 && attempt
            == 0 && last_issue is None,
        LoginView::begun(now).deadline() == Some((now + 90_000_000_000) as u64),
{
}

/// The wait is one second before the first attempts, doubles with every further one, and stays at
/// five seconds once twice as long would be longer than that.
pub proof fn the_wait_doubles_up_to_five_seconds(attempt: u8)
    ensures
        attempt <= 1 ==> retry_seconds(attempt) == 1,
        1 <= attempt < 255 ==> retry_seconds((attempt + 1) as u8) == if 2 * retry_seconds(attempt)
            <= 5 {
            2 * retry_seconds(attempt)
        } else {
            5
        },
{
}

/// A bridge is the work of the start by itself where that start came to its end, or was called off
/// while the bridge was opening; and the start goes on trying only while it waits or opens streams.
pub proof fn a_start_is_under_way_or_over(state: LoginView)
    ensures
        state.completed_start() <==> state == LoginView::Complete || state == LoginView::Cancelling,
        state.deadline() is Some <==> state is Waiting || state is Starting,
        state.completed_start() ==> state.deadline() is None,
{
}

} // verus!
