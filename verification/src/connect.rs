//! Finding the region, and what to do while it is not there yet.
//!
//! The process that starts first creates the region; the other attaches to
//! it. An attach that comes too early finds nothing. The transport itself
//! never waits or tries again: the caller does, a bounded number of times at
//! a fixed interval, and this module decides after each attempt what the
//! caller does next.

use vstd::prelude::*;
use vstd::string::StringExecFns;
use crate::error::TransportError;

verus! {

/// Number of attempts to attach before the caller gives up.
pub const MAX_ATTACH_ATTEMPTS: u32 = 10;

/// Seconds to wait between two attempts.
pub const RETRY_INTERVAL_SECS: u64 = 1;

/// Prefix of the backing file's name.
pub const BACKING_FILE_PREFIX: &'static str = "monkey_shm_";

/// How one attempt to attach ended.
#[derive(Clone, Copy, Debug, PartialEq, Eq, Structural)]
pub enum AttachOutcome {
    /// The region was there and is now mapped.
    Attached,
    /// The region is not there.
    NotFound,
    /// The region is there but could not be opened or mapped.
    Failed,
}

/// What the caller does after an attempt.
#[derive(Clone, Copy, Debug, PartialEq, Eq, Structural)]
pub enum ConnectStep {
    /// Go on: the region is attached.
    Connected,
    /// Wait this many seconds, then try again.
    RetryAfter { secs: u64 },
    /// Stop: the region cannot be had.
    GiveUp { error: TransportError },
}

/// What follows an attempt, given how many attempts came before it. A
/// region that is there settles the matter at once, either way. A region
/// that is not there is tried again until the attempts are used up.
pub open spec fn spec_connect_step(attempts_before: u32, outcome: AttachOutcome) -> ConnectStep {
    match outcome {
        AttachOutcome::Attached => ConnectStep::Connected,
        AttachOutcome::Failed => ConnectStep::GiveUp { error: TransportError::Io },
        AttachOutcome::NotFound => {
            if attempts_before + 1 < MAX_ATTACH_ATTEMPTS {
                ConnectStep::RetryAfter { secs: RETRY_INTERVAL_SECS }
            } else {
                ConnectStep::GiveUp { error: TransportError::NotFound }
            }
        },
    }
}

/// Counts the attempts of one caller to attach.
#[derive(Clone, Copy, Debug, PartialEq, Eq)]
pub struct Connector {
    attempts: u32,
}

impl Connector {
    /// Number of attempts made so far.
    pub closed spec fn spec_attempts(self) -> u32 {
        self.attempts
    }

    /// A caller that has not tried yet.
    pub fn new() -> (connector: Connector)
        ensures
            connector.spec_attempts() == 0,
    {
        Connector { attempts: 0 }
    }

    /// Number of attempts made so far.
    pub fn attempts(&self) -> (n: u32)
        ensures
            n == self.spec_attempts(),
    {
        self.attempts
    }

    /// Takes note of an attempt and says what the caller does next.
    pub fn record(&mut self, outcome: AttachOutcome) -> (step: ConnectStep)
        ensures
            step == spec_connect_step(old(self).spec_attempts(), outcome),
            final(self).spec_attempts() == (if old(self).spec_attempts() < u32::MAX {
                (old(self).spec_attempts() + 1) as u32
            } else {
                old(self).spec_attempts()
            }),
    {
        let before = self.attempts;
        if before < u32::MAX {
            self.attempts = before + 1;
        }
        match outcome {
            AttachOutcome::Attached => ConnectStep::Connected,
            AttachOutcome::Failed => ConnectStep::GiveUp { error: TransportError::Io },
            AttachOutcome::NotFound => {
                if before < MAX_ATTACH_ATTEMPTS - 1 {
                    ConnectStep::RetryAfter { secs: RETRY_INTERVAL_SECS }
                } else {
                    ConnectStep::GiveUp { error: TransportError::NotFound }
                }
            },
        }
    }
}

/// What a caller ends with who goes by the steps, given how each of its
/// attempts would end: `outcomes[k]` is the end of attempt `k`. The caller
/// has made `made` attempts and is about to make the next.
pub open spec fn spec_connect_result(outcomes: Seq<AttachOutcome>, made: nat) -> Option<
    ConnectStep,
>
    decreases MAX_ATTACH_ATTEMPTS - made,
{
    if made >= outcomes.len() || made >= MAX_ATTACH_ATTEMPTS {
        None
    } else {
        let step = spec_connect_step(made as u32, outcomes[made as int]);
        if step is RetryAfter {
            spec_connect_result(outcomes, made + 1)
        } else {
            Some(step)
        }
    }
}

/// Goes by the steps through attempts whose ends are given, and says how
/// the caller ends and after how many attempts. The caller stops at the
/// first attempt after which it is not told to try again: it ends with the
/// step of that attempt, connected or given up, and has made that attempt
/// and those before it. Where the given ends run out while the caller would
/// still try, it ends with neither and has made every attempt given.
pub fn replay(outcomes: &Vec<AttachOutcome>) -> (r: (Option<ConnectStep>, u32))
    ensures
        r.0 == spec_connect_result(outcomes@, 0),
        r.1 <= MAX_ATTACH_ATTEMPTS,
        r.1 <= outcomes@.len(),
        r.0 is None ==> r.1 == outcomes@.len(),
        r.0 is None ==> forall|j: int|
            0 <= j < r.1 ==> spec_connect_step(j as u32, #[trigger] outcomes@[j]) is RetryAfter,
        r.0 is Some ==> r.1 >= 1 && r.0 == Some(
            spec_connect_step((r.1 - 1) as u32, outcomes@[r.1 - 1]),
        ),
        r.0 is Some ==> !(r.0 matches Some(ConnectStep::RetryAfter { .. })),
        r.0 is Some ==> forall|j: int|
            0 <= j < r.1 - 1 ==> spec_connect_step(j as u32, #[trigger] outcomes@[j]) is RetryAfter,
{
    let mut connector = Connector::new();
    let mut k: usize = 0;
    while k < outcomes.len()
        invariant
            k <= outcomes@.len(),
            k == connector.spec_attempts(),
            k < MAX_ATTACH_ATTEMPTS,
            spec_connect_result(outcomes@, 0) == spec_connect_result(outcomes@, k as nat),
            forall|j: int|
                0 <= j < k ==> spec_connect_step(j as u32, #[trigger] outcomes@[j]) is RetryAfter,
        decreases outcomes@.len() - k,
    {
        let step = connector.record(outcomes[k]);
        match step {
            ConnectStep::RetryAfter { .. } => {
                k += 1;
            },
            _ => {
                return (Some(step), connector.attempts());
            },
        }
    }
    (None, connector.attempts())
}

/// A caller never makes more attempts than allowed, and with the region
/// missing throughout it gives up on the last allowed attempt with
/// `NotFound`.
pub proof fn lemma_attempts_bounded(attempts_before: u32, outcome: AttachOutcome)
    ensures
        attempts_before + 1 >= MAX_ATTACH_ATTEMPTS ==> !(spec_connect_step(
            attempts_before,
            outcome,
        ) is RetryAfter),
        attempts_before + 1 < MAX_ATTACH_ATTEMPTS ==> spec_connect_step(
            attempts_before,
            AttachOutcome::NotFound,
        ) == (ConnectStep::RetryAfter { secs: RETRY_INTERVAL_SECS }),
        spec_connect_step(attempts_before, AttachOutcome::Attached) == ConnectStep::Connected,
        spec_connect_step(attempts_before, AttachOutcome::Failed) == (ConnectStep::GiveUp {
            error: TransportError::Io,
        }),
        outcome == AttachOutcome::NotFound ==> (spec_connect_step(attempts_before, outcome)
            matches ConnectStep::GiveUp { error } ==> error.spec_is_recoverable()),
{
}

/// The name of the file that backs the region called `name`: both
/// processes derive it from the same name and so find the same file.
pub fn backing_file_name(name: &str) -> (file_name: String)
    ensures
        file_name@ == BACKING_FILE_PREFIX@ + name@,
{
    let prefix: String = BACKING_FILE_PREFIX.to_owned();
    prefix.concat(name)
}

} // verus!
