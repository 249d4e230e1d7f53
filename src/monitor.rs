//! Watching a build on the device: poll its status at a fixed cadence until
//! it ends or the time allowed for it runs out.
use vstd::prelude::*;
use crate::status::BuildStatus;

verus! {

/// How a watched build ended.
#[derive(PartialEq, Eq, Structural, Clone, Copy, Debug)]
pub enum BuildVerdict {
    Succeeded,
    /// The build failed; its diagnostics are to be fetched once.
    Failed,
    TimedOut,
    /// A status reply could not be read.
    Unparseable,
}

/// What the watcher asks for next.
#[derive(PartialEq, Eq, Structural, Clone, Copy, Debug)]
pub enum MonitorStep {
    /// Wait one interval, then poll the status again.
    Poll,
    /// The build has ended.
    Finish(BuildVerdict),
}

/// The number of polls that fit in a time budget, polling once per interval;
/// at least one.
pub open spec fn poll_limit(budget_ms: u64, interval_ms: u64) -> u64 {
    if interval_ms == 0 || budget_ms / interval_ms == 0 {
        1
    } else {
        (budget_ms / interval_ms) as u64
    }
}

/// The step that follows the `polls`-th status reply `reply` (`None` for a
/// reply that could not be read), with `limit` polls allowed.
pub open spec fn step_after(reply: Option<BuildStatus>, polls: nat, limit: nat) -> MonitorStep {
    match reply {
        None => MonitorStep::Finish(BuildVerdict::Unparseable),
        Some(BuildStatus::Succeeded) => MonitorStep::Finish(BuildVerdict::Succeeded),
        Some(BuildStatus::Failed) => MonitorStep::Finish(BuildVerdict::Failed),
        Some(BuildStatus::Running) => if polls >= limit {
            MonitorStep::Finish(BuildVerdict::TimedOut)
        } else {
            MonitorStep::Poll
        },
    }
}

/// Polls made so far and polls allowed.
pub struct BuildMonitor {
    pub polls: u64,
    pub limit: u64,
}

impl BuildMonitor {
    pub open spec fn well_formed(&self) -> bool {
        1 <= self.limit && self.polls <= self.limit
    }

    /// Whether the watcher may still poll.
    pub open spec fn may_poll(&self) -> bool {
        self.polls < self.limit
    }

    /// A watcher that has not polled yet, allowed as many polls as fit in
    /// `budget_ms` at one poll every `interval_ms`.
    pub fn new(budget_ms: u64, interval_ms: u64) -> (m: BuildMonitor)
        ensures
            m.polls == 0,
            m.limit == poll_limit(budget_ms, interval_ms),
            m.well_formed(),
            m.may_poll(),
    {
        let limit = if interval_ms == 0 || budget_ms / interval_ms == 0 {
            1
        } else {
            budget_ms / interval_ms
        };
        BuildMonitor { polls: 0, limit }
    }

    /// Takes the status reply to one poll and says what follows.
    pub fn on_reply(&mut self, reply: Option<BuildStatus>) -> (step: MonitorStep)
        requires
            old(self).well_formed(),
            old(self).may_poll(),
        ensures
            final(self).polls == old(self).polls + 1,
            final(self).limit == old(self).limit,
            final(self).well_formed(),
            step == step_after(reply, final(self).polls as nat, final(self).limit as nat),
            step == MonitorStep::Poll ==> final(self).may_poll(),
    {
        self.polls = self.polls + 1;
        match reply {
            None => MonitorStep::Finish(BuildVerdict::Unparseable),
            Some(BuildStatus::Succeeded) => MonitorStep::Finish(BuildVerdict::Succeeded),
            Some(BuildStatus::Failed) => MonitorStep::Finish(BuildVerdict::Failed),
            Some(BuildStatus::Running) => if self.polls >= self.limit {
                MonitorStep::Finish(BuildVerdict::TimedOut)
            } else {
                MonitorStep::Poll
            },
        }
    }
}

/// The number of polls a watcher allowed `limit` polls makes, and the step it
/// ends on, when the `i`-th reply it gets is `replies(i)`, having made `done`.
pub open spec fn watch_from(
    replies: spec_fn(nat) -> Option<BuildStatus>,
    done: nat,
    limit: nat,
) -> (nat, MonitorStep)
    decreases limit - done,
{
    let step = step_after(replies(done), done + 1, limit);
    if step == MonitorStep::Poll && done + 1 < limit {
        watch_from(replies, done + 1, limit)
    } else {
        (done + 1, step)
    }
}

/// Whatever the device replies, a watcher stops within the polls it is
/// allowed, and it stops on a finished step, never on another poll.
pub proof fn lemma_watch_bounded(replies: spec_fn(nat) -> Option<BuildStatus>, limit: nat)
    requires
        limit >= 1,
    ensures
        1 <= watch_from(replies, 0, limit).0 <= limit,
        watch_from(replies, 0, limit).1 is Finish,
{
    lemma_watch_from_bounded(replies, 0, limit);
}

proof fn lemma_watch_from_bounded(
    replies: spec_fn(nat) -> Option<BuildStatus>,
    done: nat,
    limit: nat,
)
    requires
        done < limit,
    ensures
        done + 1 <= watch_from(replies, done, limit).0 <= limit,
        watch_from(replies, done, limit).1 is Finish,
    decreases limit - done,
{
    let step = step_after(replies(done), done + 1, limit);
    if step == MonitorStep::Poll && done + 1 < limit {
        lemma_watch_from_bounded(replies, done + 1, limit);
    }
}

/// A watcher asks for a build's diagnostics only after the device reported
/// the build as failed, and stops on success only after it reported success.
pub proof fn lemma_verdict_follows_reply(reply: Option<BuildStatus>, polls: nat, limit: nat)
    ensures
        step_after(reply, polls, limit) == MonitorStep::Finish(BuildVerdict::Failed) <==> reply
            == Some(BuildStatus::Failed),
        step_after(reply, polls, limit) == MonitorStep::Finish(BuildVerdict::Succeeded) <==> reply
            == Some(BuildStatus::Succeeded),
        step_after(reply, polls, limit) == MonitorStep::Finish(BuildVerdict::Unparseable) <==> reply
            is None,
{
}

} // verus!
