use vstd::prelude::*;

use crate::alertmanager::{Alert, Payload};
use crate::gotify::{gen_notification, notification_for, Notification, NotificationView};
use crate::routes::{Reply, ReplyBody, STATUS_OK};

verus! {

/// How one delivery attempt to the gateway ended.
pub enum DispatchOutcome {
    Delivered,
    Failed,
}

/// The state of one batch: the notifications in input order, the position of
/// the next one to send, and the positions whose delivery failed.
pub struct RunView {
    pub notifications: Seq<NotificationView>,
    pub next: nat,
    pub failed: Seq<nat>,
}

impl RunView {
    /// Every notification of the batch has had its one attempt.
    pub open spec fn complete(self) -> bool {
        self.next >= self.notifications.len()
    }

    /// The state once the attempt for the current notification ended with
    /// `outcome`. A failure is recorded and the batch moves on all the same.
    pub open spec fn after(self, outcome: DispatchOutcome) -> RunView {
        if self.complete() {
            self
        } else {
            RunView {
                notifications: self.notifications,
                next: self.next + 1,
                failed: if outcome is Failed {
                    self.failed.push(self.next)
                } else {
                    self.failed
                },
            }
        }
    }
}

/// The state of a batch of alerts before any attempt.
pub open spec fn batch_start(alerts: Seq<Alert>) -> RunView {
    RunView {
        notifications: alerts.map_values(|a: Alert| notification_for(a.annotations)),
        next: 0,
        failed: Seq::empty(),
    }
}

/// The state after the attempts ended with `outcomes`, in order.
pub open spec fn replay(r: RunView, outcomes: Seq<DispatchOutcome>) -> RunView
    decreases outcomes.len(),
{
    if outcomes.len() == 0 {
        r
    } else {
        replay(r.after(outcomes[0]), outcomes.drop_first())
    }
}

/// The notifications handed out for delivery, one per attempt, while the
/// attempts end with `outcomes`.
pub open spec fn dispatched(r: RunView, outcomes: Seq<DispatchOutcome>) -> Seq<NotificationView>
    decreases outcomes.len(),
{
    if outcomes.len() == 0 || r.complete() {
        Seq::empty()
    } else {
        seq![r.notifications[r.next as int]] + dispatched(r.after(outcomes[0]), outcomes.drop_first())
    }
}

/// The positions, counted from `start`, of the failed outcomes.
pub open spec fn failed_positions(outcomes: Seq<DispatchOutcome>, start: nat) -> Seq<nat>
    decreases outcomes.len(),
{
    if outcomes.len() == 0 {
        Seq::empty()
    } else if outcomes[0] is Failed {
        seq![start] + failed_positions(outcomes.drop_first(), start + 1)
    } else {
        failed_positions(outcomes.drop_first(), start + 1)
    }
}

/// One batch being relayed, one notification at a time.
pub struct BatchRun {
    pub notifications: Vec<Notification>,
    pub next: usize,
    pub failed: Vec<usize>,
}

impl View for BatchRun {
    type V = RunView;

    open spec fn view(&self) -> RunView {
        RunView {
            notifications: self.notifications@.map_values(|n: Notification| n@),
            next: self.next as nat,
            failed: self.failed@.map_values(|i: usize| i as nat),
        }
    }
}

impl BatchRun {
    pub open spec fn wf(&self) -> bool {
        self.next <= self.notifications@.len()
    }

    /// Maps every alert of the batch, in order; nothing is sent yet.
    pub fn start(payload: Payload) -> (r: BatchRun)
        ensures
            r.wf(),
            r@ == batch_start(payload.alerts@),
    {
        let mut alerts = payload.alerts;
        let ghost all = alerts@;
        let mut notifications: Vec<Notification> = Vec::new();
        while alerts.len() > 0
            invariant
                notifications@.len() + alerts@.len() == all.len(),
                alerts@ == all.subrange(notifications@.len() as int, all.len() as int),
                forall|i: int|
                    0 <= i < notifications@.len() ==> #[trigger] notifications@[i]@
                        == notification_for(all[i].annotations),
            decreases alerts.len(),
        {
            let alert = alerts.remove(0);
            let notify = gen_notification(alert);
            notifications.push(notify);
        }
        let r = BatchRun { notifications, next: 0, failed: Vec::new() };
        assert(r@.notifications =~= batch_start(all).notifications);
        assert(r@.failed =~= Seq::<nat>::empty());
        r
    }

    /// The notification to send next, if any is left.
    pub fn current(&self) -> (r: Option<&Notification>)
        ensures
            r is Some <==> !self@.complete(),
            r matches Some(n) ==> n@ == self@.notifications[self@.next as int],
    {
        if self.next < self.notifications.len() {
            Some(&self.notifications[self.next])
        } else {
            None
        }
    }

    /// Records how the attempt for the current notification ended and moves
    /// on to the next one.
    pub fn record(&mut self, outcome: DispatchOutcome)
        requires
            old(self).wf(),
        ensures
            final(self).wf(),
            final(self)@ == old(self)@.after(outcome),
    {
        if self.next < self.notifications.len() {
            if let DispatchOutcome::Failed = outcome {
                self.failed.push(self.next);
            }
            self.next = self.next + 1;
        }
        assert(self@.failed =~= old(self)@.after(outcome).failed);
    }

    /// Whether every notification has had its attempt.
    pub fn is_complete(&self) -> (r: bool)
        ensures
            r == self@.complete(),
    {
        self.next >= self.notifications.len()
    }

    /// The reply to the alert source once the batch is through: success,
    /// whatever became of the single deliveries.
    pub fn reply(&self) -> (r: Reply)
        requires
            self@.complete(),
        ensures
            r.status == STATUS_OK,
            r.body is Empty,
    {
        Reply { status: STATUS_OK, body: ReplyBody::Empty }
    }
}

proof fn lemma_replay(r: RunView, outcomes: Seq<DispatchOutcome>)
    requires
        r.next + outcomes.len() == r.notifications.len(),
    ensures
        dispatched(r, outcomes) == r.notifications.subrange(r.next as int, r.notifications.len() as int),
        replay(r, outcomes).notifications == r.notifications,
        replay(r, outcomes).complete(),
        replay(r, outcomes).failed == r.failed + failed_positions(outcomes, r.next),
    decreases outcomes.len(),
{
    let len = r.notifications.len() as int;
    if outcomes.len() == 0 {
        assert(r.notifications.subrange(r.next as int, len) =~= Seq::<NotificationView>::empty());
        assert(r.failed + Seq::<nat>::empty() =~= r.failed);
    } else {
        let s = r.after(outcomes[0]);
        lemma_replay(s, outcomes.drop_first());
        assert(r.notifications.subrange(r.next as int, len) =~= seq![r.notifications[r.next as int]]
            + r.notifications.subrange(s.next as int, len));
        let rest = failed_positions(outcomes.drop_first(), r.next + 1);
        if outcomes[0] is Failed {
            assert(r.failed.push(r.next) + rest =~= r.failed + (seq![r.next] + rest));
        }
    }
}

/// A batch of alerts is relayed whole: when every attempt has ended, however
/// many of them failed, each alert's notification was handed out exactly once
/// and in input order, the batch is complete (so the reply to the alert source
/// is success), and the failed positions are exactly those whose attempt
/// failed.
pub proof fn lemma_batch_runs_past_failures(alerts: Seq<Alert>, outcomes: Seq<DispatchOutcome>)
    requires
        outcomes.len() == alerts.len(),
    ensures
        dispatched(batch_start(alerts), outcomes) == alerts.map_values(
            |a: Alert| notification_for(a.annotations),
        ),
        replay(batch_start(alerts), outcomes).complete(),
        replay(batch_start(alerts), outcomes).failed == failed_positions(outcomes, 0),
{
    let r = batch_start(alerts);
    lemma_replay(r, outcomes);
    assert(r.notifications.subrange(0, r.notifications.len() as int) =~= r.notifications);
    assert(Seq::<nat>::empty() + failed_positions(outcomes, 0) =~= failed_positions(outcomes, 0));
}

/// An empty batch needs no delivery at all and is complete from the start.
pub proof fn lemma_empty_batch(outcomes: Seq<DispatchOutcome>)
    ensures
        batch_start(Seq::empty()).complete(),
        dispatched(batch_start(Seq::empty()), outcomes) == Seq::<NotificationView>::empty(),
{
    let r = batch_start(Seq::<Alert>::empty());
    assert(r.notifications.len() == 0);
    if outcomes.len() > 0 {
        assert(r.complete());
    }
}

} // verus!
