//! Unsubscribing from a list of accounts, one request at a time.
//!
//! The sweeper is a state machine. Its driver starts it, carries out each
//! action that `Sweeper::step` returns, and hands back what came of it as the
//! next event: the server's reply to a request, that an outcome has been
//! reported, that a wait is over, or that a request failed altogether. A reply
//! that refuses one account does not stop the sweep. A request without a
//! usable reply stops it for good, and then there is no manifest.

use crate::model::{Relation, RelationView, RequestError, relation_views};
use crate::wire::{decimal, decimal_string, unsub_body, unsub_body_text};
use vstd::prelude::*;
use vstd::string::*;

verus! {

/// What came of the request for one account.
#[derive(Debug, PartialEq, Eq)]
pub enum Outcome {
    /// The server removed the follow relationship with the account `mid`.
    Removed { mid: u64 },
    /// The server refused, and gave `message` as its reason.
    Refused { message: String },
}

/// What an `Outcome` holds, as mathematical values.
pub enum OutcomeView {
    Removed { mid: u64 },
    Refused { message: Seq<char> },
}

impl View for Outcome {
    type V = OutcomeView;

    open spec fn view(&self) -> OutcomeView {
        match self {
            Outcome::Removed { mid } => OutcomeView::Removed { mid: *mid },
            Outcome::Refused { message } => OutcomeView::Refused { message: message@ },
        }
    }
}

/// How a reply is judged: the code 0 means that the account `mid` was
/// removed, and any other code that the server refused for the reason in
/// `message`.
pub open spec fn judged(mid: u64, code: i32, message: Seq<char>) -> OutcomeView {
    if code == 0 {
        OutcomeView::Removed { mid }
    } else {
        OutcomeView::Refused { message }
    }
}

/// Judges the server's reply to the request for the account `mid`.
pub fn judge(mid: u64, code: i32, message: String) -> (outcome: Outcome)
    ensures
        outcome@ == judged(mid, code, message@),
{
    if code == 0 {
        Outcome::Removed { mid }
    } else {
        Outcome::Refused { message }
    }
}

/// The line that reports an outcome: the account that was removed, or the
/// reason why the server refused.
pub open spec fn report_text(outcome: OutcomeView) -> Seq<char> {
    match outcome {
        OutcomeView::Removed { mid } => "Unsub: "@ + decimal(mid as nat),
        OutcomeView::Refused { message } => "Unsub failed: "@ + message,
    }
}

/// Writes the line that reports an outcome.
pub fn report_line(outcome: &Outcome) -> (line: String)
    ensures
        line@ == report_text(outcome@),
{
    match outcome {
        Outcome::Removed { mid } => {
            let number = decimal_string(*mid);
            "Unsub: ".to_owned().concat(number.as_str())
        },
        Outcome::Refused { message } => "Unsub failed: ".to_owned().concat(message.as_str()),
    }
}

/// Where a sweep stands.
#[derive(Clone, Copy, Debug, PartialEq, Eq, Structural)]
pub enum SweepPhase {
    /// Nothing has been asked for yet.
    Idle,
    /// A request is on its way and its reply is awaited.
    Calling,
    /// A reply has been judged and its outcome is being reported.
    Reporting,
    /// The wait before the next request is running.
    Pausing,
    /// Every account has been dealt with.
    Finished,
    /// A request gave no usable reply; the sweep has stopped.
    Failed(RequestError),
}

/// What the driver tells the sweeper.
#[derive(Debug, PartialEq, Eq)]
pub enum SweepEvent {
    /// The sweep is to begin.
    Start,
    /// The server answered the last request.
    Reply { code: i32, message: String },
    /// The last outcome has been reported.
    Reported,
    /// The wait is over.
    Paused,
    /// The last request gave no usable reply.
    Failed(RequestError),
}

/// What a `SweepEvent` holds, as mathematical values.
pub enum SweepEventView {
    Start,
    Reply { code: i32, message: Seq<char> },
    Reported,
    Paused,
    Failed(RequestError),
}

impl View for SweepEvent {
    type V = SweepEventView;

    open spec fn view(&self) -> SweepEventView {
        match self {
            SweepEvent::Start => SweepEventView::Start,
            SweepEvent::Reply { code, message } => SweepEventView::Reply {
                code: *code,
                message: message@,
            },
            SweepEvent::Reported => SweepEventView::Reported,
            SweepEvent::Paused => SweepEventView::Paused,
            SweepEvent::Failed(error) => SweepEventView::Failed(*error),
        }
    }
}

/// What the sweeper tells the driver to do next.
#[derive(Debug, PartialEq, Eq)]
pub enum SweepAction {
    /// Post `body` to remove the follow relationship with the account `mid`.
    Unsubscribe { mid: u64, body: String },
    /// Report what came of the last request.
    Report(Outcome),
    /// Wait before the next request.
    Pause,
    /// The sweep is complete: store the manifest.
    Finish,
    /// Give the run up with this error, and store nothing.
    Abort(RequestError),
}

/// What a `SweepAction` holds, as mathematical values.
pub enum SweepActionView {
    Unsubscribe { mid: u64, body: Seq<char> },
    Report(OutcomeView),
    Pause,
    Finish,
    Abort(RequestError),
}

impl View for SweepAction {
    type V = SweepActionView;

    open spec fn view(&self) -> SweepActionView {
        match self {
            SweepAction::Unsubscribe { mid, body } => SweepActionView::Unsubscribe {
                mid: *mid,
                body: body@,
            },
            SweepAction::Report(outcome) => SweepActionView::Report(outcome@),
            SweepAction::Pause => SweepActionView::Pause,
            SweepAction::Finish => SweepActionView::Finish,
            SweepAction::Abort(error) => SweepActionView::Abort(*error),
        }
    }
}

/// The state of a sweep, as mathematical values.
pub struct SweeperView {
    /// Where the sweep stands.
    pub phase: SweepPhase,
    /// The accounts to unsubscribe from, in the order of the requests.
    pub targets: Seq<RelationView>,
    /// The token that authorises each request.
    pub csrf_token: Seq<char>,
    /// The number of requests handed to the driver so far.
    pub calls: nat,
    /// The number of replies that reported a removal.
    pub removed: nat,
    /// The number of replies that refused.
    pub refused: nat,
    /// The number of waits handed to the driver so far.
    pub pauses: nat,
}

/// The sweep before anything has happened.
pub open spec fn sweep_start(targets: Seq<RelationView>, csrf_token: Seq<char>) -> SweeperView {
    SweeperView {
        phase: SweepPhase::Idle,
        targets,
        csrf_token,
        calls: 0,
        removed: 0,
        refused: 0,
        pauses: 0,
    }
}

/// The request for the next account that has had none yet.
pub open spec fn next_call(s: SweeperView) -> (SweeperView, SweepActionView)
    recommends
        s.calls < s.targets.len(),
{
    let mid = s.targets[s.calls as int].mid;
    (
        SweeperView { phase: SweepPhase::Calling, calls: s.calls + 1, ..s },
        SweepActionView::Unsubscribe { mid, body: unsub_body_text(mid as nat, s.csrf_token) },
    )
}

/// The sweep stopped by `error`.
pub open spec fn sweep_failed(s: SweeperView, error: RequestError) -> (SweeperView, SweepActionView) {
    (SweeperView { phase: SweepPhase::Failed(error), ..s }, SweepActionView::Abort(error))
}

/// One step of the sweep: the state after `event`, and what the driver is to
/// do next.
///
/// A finished sweep stays finished and a failed one failed, whatever comes.
/// Otherwise a failed request stops the sweep. The start leads to the first
/// request, or straight to the end where there is no account. A reply is
/// judged and counted, and its outcome goes out to be reported, whether the
/// server removed or refused. Once it is reported, a wait follows if an
/// account is left, and the end if none is. After the wait comes the next
/// request. An event that the phase does not expect stops the sweep as a
/// reply out of turn.
pub open spec fn sweep_step(s: SweeperView, event: SweepEventView) -> (SweeperView, SweepActionView) {
    match s.phase {
        SweepPhase::Finished => (s, SweepActionView::Finish),
        SweepPhase::Failed(error) => (s, SweepActionView::Abort(error)),
        SweepPhase::Idle => match event {
            SweepEventView::Failed(error) => sweep_failed(s, error),
            SweepEventView::Start => if s.targets.len() == 0 {
                (SweeperView { phase: SweepPhase::Finished, ..s }, SweepActionView::Finish)
            } else {
                next_call(s)
            },
            _ => sweep_failed(s, RequestError::Protocol),
        },
        SweepPhase::Calling => match event {
            SweepEventView::Failed(error) => sweep_failed(s, error),
            SweepEventView::Reply { code, message } => {
                let outcome = judged(s.targets[s.calls - 1].mid, code, message);
                (
                    SweeperView {
                        phase: SweepPhase::Reporting,
                        removed: if code == 0 {
                            s.removed + 1
                        } else {
                            s.removed
                        },
                        refused: if code == 0 {
                            s.refused
                        } else {
                            s.refused + 1
                        },
                        ..s
                    },
                    SweepActionView::Report(outcome),
                )
            },
            _ => sweep_failed(s, RequestError::Protocol),
        },
        SweepPhase::Reporting => match event {
            SweepEventView::Failed(error) => sweep_failed(s, error),
            SweepEventView::Reported => if s.calls < s.targets.len() {
                (
                    SweeperView { phase: SweepPhase::Pausing, pauses: s.pauses + 1, ..s },
                    SweepActionView::Pause,
                )
            } else {
                (SweeperView { phase: SweepPhase::Finished, ..s }, SweepActionView::Finish)
            },
            _ => sweep_failed(s, RequestError::Protocol),
        },
        SweepPhase::Pausing => match event {
            SweepEventView::Failed(error) => sweep_failed(s, error),
            SweepEventView::Paused => next_call(s),
            _ => sweep_failed(s, RequestError::Protocol),
        },
    }
}

/// What holds of a sweep at every moment: no more requests have gone out than
/// there are accounts, every reply has been counted once, and a wait has been
/// taken between each request and the next, and nowhere else.
pub open spec fn sweep_inv(s: SweeperView) -> bool {
    &&& s.calls <= s.targets.len()
    &&& s.removed + s.refused <= s.calls
    &&& s.pauses <= s.calls
    &&& match s.phase {
        SweepPhase::Idle => s.calls == 0 && s.pauses == 0,
        SweepPhase::Calling => s.calls >= 1 && s.removed + s.refused == s.calls - 1 && s.pauses
            == s.calls - 1,
        SweepPhase::Reporting => s.calls >= 1 && s.removed + s.refused == s.calls && s.pauses
            == s.calls - 1,
        SweepPhase::Pausing => s.calls >= 1 && s.calls < s.targets.len() && s.removed + s.refused
            == s.calls && s.pauses == s.calls,
        SweepPhase::Finished => s.calls == s.targets.len() && s.removed + s.refused == s.calls
            && (s.calls == 0 ==> s.pauses == 0) && (s.calls > 0 ==> s.pauses == s.calls - 1),
        SweepPhase::Failed(_) => true,
    }
}

/// The manifest of a sweep: every account that the sweep was given, once it
/// has finished, and nothing before that or after a failure.
pub open spec fn manifest_of(s: SweeperView) -> Option<Seq<RelationView>> {
    if s.phase == SweepPhase::Finished {
        Some(s.targets)
    } else {
        None
    }
}

/// A sweep in progress.
pub struct Sweeper {
    phase: SweepPhase,
    targets: Vec<Relation>,
    csrf_token: String,
    calls: usize,
    removed: usize,
    refused: usize,
    pauses: usize,
}

impl View for Sweeper {
    type V = SweeperView;

    closed spec fn view(&self) -> SweeperView {
        SweeperView {
            phase: self.phase,
            targets: relation_views(self.targets@),
            csrf_token: self.csrf_token@,
            calls: self.calls as nat,
            removed: self.removed as nat,
            refused: self.refused as nat,
            pauses: self.pauses as nat,
        }
    }
}

impl Sweeper {
    #[verifier::type_invariant]
    spec fn sound(self) -> bool {
        sweep_inv(self@)
    }

    /// A sweep of `targets` that has not begun.
    pub fn new(targets: Vec<Relation>, csrf_token: String) -> (sweeper: Sweeper)
        ensures
            sweeper@ == sweep_start(relation_views(targets@), csrf_token@),
            sweep_inv(sweeper@),
    {
        Sweeper {
            phase: SweepPhase::Idle,
            targets,
            csrf_token,
            calls: 0,
            removed: 0,
            refused: 0,
            pauses: 0,
        }
    }

    /// Where the sweep stands.
    pub fn phase(&self) -> (phase: SweepPhase)
        ensures
            phase == self@.phase,
    {
        self.phase
    }

    /// The accounts that the sweep was given.
    pub fn targets(&self) -> (targets: &Vec<Relation>)
        ensures
            relation_views(targets@) == self@.targets,
    {
        &self.targets
    }

    /// The number of requests handed to the driver so far.
    pub fn calls(&self) -> (calls: usize)
        ensures
            calls == self@.calls,
    {
        self.calls
    }

    /// The number of replies so far that reported a removal.
    pub fn removed(&self) -> (removed: usize)
        ensures
            removed == self@.removed,
    {
        self.removed
    }

    /// The number of replies so far that refused.
    pub fn refused(&self) -> (refused: usize)
        ensures
            refused == self@.refused,
    {
        self.refused
    }

    /// The number of waits handed to the driver so far.
    pub fn pauses(&self) -> (pauses: usize)
        ensures
            pauses == self@.pauses,
    {
        self.pauses
    }

    /// The manifest: every account that the sweep was given, whatever came of
    /// each request, once the sweep has finished. There is none before that,
    /// and none after a failure.
    pub fn manifest(&self) -> (manifest: Option<&Vec<Relation>>)
        ensures
            manifest is Some <==> self@.phase == SweepPhase::Finished,
            manifest matches Some(list) ==> manifest_of(self@) == Some(relation_views(list@)),
    {
        match self.phase {
            SweepPhase::Finished => Some(&self.targets),
            _ => None,
        }
    }

    /// Gives up the sweeper for its manifest.
    pub fn into_manifest(self) -> (manifest: Option<Vec<Relation>>)
        ensures
            manifest is Some <==> self@.phase == SweepPhase::Finished,
            manifest matches Some(list) ==> manifest_of(self@) == Some(relation_views(list@)),
    {
        match self.phase {
            SweepPhase::Finished => Some(self.targets),
            _ => None,
        }
    }

    fn fail(self, error: RequestError) -> (next: (Sweeper, SweepAction))
        ensures
            (next.0@, next.1@) == sweep_failed(self@, error),
    {
        proof {
            use_type_invariant(&self);
        }
        (Sweeper { phase: SweepPhase::Failed(error), ..self }, SweepAction::Abort(error))
    }

    fn call(self) -> (next: (Sweeper, SweepAction))
        requires
            self@.calls < self@.targets.len(),
            self@.phase == SweepPhase::Idle || self@.phase == SweepPhase::Pausing,
        ensures
            (next.0@, next.1@) == next_call(self@),
    {
        proof {
            use_type_invariant(&self);
            assert(self@.targets.len() == self.targets@.len());
        }
        let mid: u64 = self.targets[self.calls].mid;
        let body = unsub_body(mid, self.csrf_token.as_str());
        assert(self.calls < self.targets.len());
        let calls: usize = self.calls + 1;
        (Sweeper { phase: SweepPhase::Calling, calls, ..self }, SweepAction::Unsubscribe { mid, body })
    }

    /// Takes one step: consumes the state and the event, and returns the next
    /// state with the action that the driver is to carry out.
    pub fn step(self, event: SweepEvent) -> (next: (Sweeper, SweepAction))
        ensures
            (next.0@, next.1@) == sweep_step(self@, event@),
            sweep_inv(next.0@),
    {
        proof {
            use_type_invariant(&self);
        }
        match self.phase {
            SweepPhase::Finished => (self, SweepAction::Finish),
            SweepPhase::Failed(error) => (self, SweepAction::Abort(error)),
            SweepPhase::Idle => match event {
                SweepEvent::Failed(error) => self.fail(error),
                SweepEvent::Start => if self.targets.len() == 0 {
                    (Sweeper { phase: SweepPhase::Finished, ..self }, SweepAction::Finish)
                } else {
                    self.call()
                },
                _ => self.fail(RequestError::Protocol),
            },
            SweepPhase::Calling => match event {
                SweepEvent::Failed(error) => self.fail(error),
                SweepEvent::Reply { code, message } => {
                    let mid: u64 = self.targets[self.calls - 1].mid;
                    let outcome = judge(mid, code, message);
                    let removed: usize = if code == 0 {
                        self.removed + 1
                    } else {
                        self.removed
                    };
                    let refused: usize = if code == 0 {
                        self.refused
                    } else {
                        self.refused + 1
                    };
                    (
                        Sweeper { phase: SweepPhase::Reporting, removed, refused, ..self },
                        SweepAction::Report(outcome),
                    )
                },
                _ => self.fail(RequestError::Protocol),
            },
            SweepPhase::Reporting => match event {
                SweepEvent::Failed(error) => self.fail(error),
                SweepEvent::Reported => if self.calls < self.targets.len() {
                    let pauses: usize = self.pauses + 1;
                    (Sweeper { phase: SweepPhase::Pausing, pauses, ..self }, SweepAction::Pause)
                } else {
                    (Sweeper { phase: SweepPhase::Finished, ..self }, SweepAction::Finish)
                },
                _ => self.fail(RequestError::Protocol),
            },
            SweepPhase::Pausing => match event {
                SweepEvent::Failed(error) => self.fail(error),
                SweepEvent::Paused => self.call(),
                _ => self.fail(RequestError::Protocol),
            },
        }
    }
}

/// A step keeps what holds of a sweep at every moment, and never touches the
/// accounts that the sweep was given nor the token.
pub proof fn lemma_sweep_step_sound(s: SweeperView, event: SweepEventView)
    requires
        sweep_inv(s),
    ensures
        sweep_inv(sweep_step(s, event).0),
        sweep_step(s, event).0.targets == s.targets,
        sweep_step(s, event).0.csrf_token == s.csrf_token,
{
}

/// The counts of a sweep count what the driver was told to do: a step raises
/// the number of requests by one exactly when it asks for a request, which is
/// then for the account at that place of the list, the number of judged
/// replies by one exactly when it asks for a report, and the number of waits
/// by one exactly when it asks for a wait.
pub proof fn lemma_sweep_counts(s: SweeperView, event: SweepEventView)
    requires
        sweep_inv(s),
    ensures
        ({
            let (next, action) = sweep_step(s, event);
            &&& next.calls == if action is Unsubscribe {
                s.calls + 1
            } else {
                s.calls
            }
            &&& action matches SweepActionView::Unsubscribe { mid, .. } ==> mid
                == s.targets[next.calls - 1].mid
            &&& next.removed + next.refused == if action is Report {
                s.removed + s.refused + 1
            } else {
                s.removed + s.refused
            }
            &&& next.pauses == if action is Pause {
                s.pauses + 1
            } else {
                s.pauses
            }
        }),
{
}

/// One round of a sweep that awaits a reply: the reply comes in, its outcome
/// is reported, and the wait that the sweeper then asks for, if it asks for
/// one, is taken.
pub open spec fn sweep_round(s: SweeperView, code: i32, message: Seq<char>) -> SweeperView {
    let replied = sweep_step(s, SweepEventView::Reply { code, message }).0;
    let reported = sweep_step(replied, SweepEventView::Reported);
    if reported.1 == SweepActionView::Pause {
        sweep_step(reported.0, SweepEventView::Paused).0
    } else {
        reported.0
    }
}

/// A whole sweep in which every request is answered: the start, and then one
/// round for each reply, in the order of `replies`.
pub open spec fn sweep_run(
    targets: Seq<RelationView>,
    csrf_token: Seq<char>,
    replies: Seq<(i32, Seq<char>)>,
) -> SweeperView
    decreases replies.len(),
{
    if replies.len() == 0 {
        sweep_step(sweep_start(targets, csrf_token), SweepEventView::Start).0
    } else {
        let reply = replies.last();
        sweep_round(sweep_run(targets, csrf_token, replies.drop_last()), reply.0, reply.1)
    }
}

/// The replies that report a removal.
pub open spec fn removals(replies: Seq<(i32, Seq<char>)>) -> Seq<(i32, Seq<char>)> {
    replies.filter(|reply: (i32, Seq<char>)| reply.0 == 0)
}

/// While replies keep coming, a sweep goes through its accounts in order:
/// after as many replies as there are accounts it has finished, and before
/// that it awaits the reply for the next account. Each reply has been counted
/// as a removal or as a refusal by its code alone, and a wait has been taken
/// after every reply but the last.
pub proof fn lemma_sweep_progress(
    targets: Seq<RelationView>,
    csrf_token: Seq<char>,
    replies: Seq<(i32, Seq<char>)>,
)
    requires
        replies.len() <= targets.len(),
    ensures
        ({
            let s = sweep_run(targets, csrf_token, replies);
            &&& sweep_inv(s)
            &&& s.targets == targets
            &&& s.csrf_token == csrf_token
            &&& s.removed == removals(replies).len()
            &&& s.refused == replies.len() - removals(replies).len()
            &&& s.phase == if replies.len() < targets.len() {
                SweepPhase::Calling
            } else {
                SweepPhase::Finished
            }
            &&& s.calls == if replies.len() < targets.len() {
                replies.len() + 1
            } else {
                replies.len()
            }
        }),
    decreases replies.len(),
{
    reveal(Seq::filter);
    if replies.len() > 0 {
        lemma_sweep_progress(targets, csrf_token, replies.drop_last());
    }
}

/// The manifest of a sweep in which every request was answered is the list
/// of accounts that the sweep was given, in the same order and of the same
/// length, whatever the replies said. The sweep has then made one request for
/// each account and has waited between each request and the next.
pub proof fn lemma_manifest_is_targets(
    targets: Seq<RelationView>,
    csrf_token: Seq<char>,
    replies: Seq<(i32, Seq<char>)>,
)
    requires
        replies.len() == targets.len(),
    ensures
        manifest_of(sweep_run(targets, csrf_token, replies)) == Some(targets),
        sweep_run(targets, csrf_token, replies).calls == targets.len(),
        sweep_run(targets, csrf_token, replies).removed + sweep_run(
            targets,
            csrf_token,
            replies,
        ).refused == targets.len(),
        targets.len() > 0 ==> sweep_run(targets, csrf_token, replies).pauses == targets.len() - 1,
        targets.len() == 0 ==> sweep_run(targets, csrf_token, replies).pauses == 0,
{
    lemma_sweep_progress(targets, csrf_token, replies);
}

/// A request without a usable reply stops a sweep that has not finished, and
/// a stopped sweep has no manifest, whatever comes after.
pub proof fn lemma_failure_leaves_no_manifest(
    s: SweeperView,
    error: RequestError,
    later: SweepEventView,
)
    requires
        s.phase != SweepPhase::Finished,
    ensures
        sweep_step(s, SweepEventView::Failed(error)).1 is Abort,
        manifest_of(sweep_step(s, SweepEventView::Failed(error)).0) is None,
        sweep_step(sweep_step(s, SweepEventView::Failed(error)).0, later) == sweep_step(
            s,
            SweepEventView::Failed(error),
        ),
{
}

} // verus!
