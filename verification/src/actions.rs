//! Action system for long-running, cancellable, feedback-streaming
//! tasks.
//!
//! The server owns every goal record. Per action name, goals execute
//! serially: a second goal waits until the first has delivered its
//! result. A goal handle is the client-side token: it consumes the
//! one-shot result exactly once, drains the feedback queue, and can
//! raise the advisory cancellation signal. Cancellation is
//! cooperative: a handler that polls the signal observes it, and one
//! that never polls runs to completion regardless. The driving loop
//! around the library calls `execute_next` for each registered action,
//! standing for that action's dedicated executor.

use vstd::prelude::*;

use crate::error::RobotError;

verus! {

/// Status of an action goal. The field on the handle is
/// informational only; it is not synchronized with the execution
/// outcome.
#[derive(Debug, Clone, Copy, PartialEq, Eq, Structural)]
pub enum ActionGoalStatus {
    Pending,
    Active,
    Succeeded,
    Aborted,
    Canceled,
}

/// A goal for the simple demonstration action: run for a number of
/// steps.
#[derive(Debug)]
pub struct SimpleActionGoal {
    pub id: u128,
    pub action_name: String,
    pub duration_secs: u64,
}

impl Clone for SimpleActionGoal {
    fn clone(&self) -> (res: Self)
        ensures
            res == *self,
    {
        SimpleActionGoal {
            id: self.id,
            action_name: self.action_name.clone(),
            duration_secs: self.duration_secs,
        }
    }
}

/// Feedback from the simple action: progress in whole percent, plus a
/// note.
#[derive(Debug)]
pub struct SimpleActionFeedback {
    pub progress_percent: u64,
    pub message: String,
}

impl Clone for SimpleActionFeedback {
    fn clone(&self) -> (res: Self)
        ensures
            res == *self,
    {
        SimpleActionFeedback {
            progress_percent: self.progress_percent,
            message: self.message.clone(),
        }
    }
}

/// Result of the simple action.
#[derive(Debug)]
pub struct SimpleActionResult {
    pub success: bool,
    pub message: String,
}

impl Clone for SimpleActionResult {
    fn clone(&self) -> (res: Self)
        ensures
            res == *self,
    {
        SimpleActionResult { success: self.success, message: self.message.clone() }
    }
}

/// A handler consumes a goal, streams feedback at its own cadence,
/// and returns exactly one result. It receives the advisory
/// cancellation signal as it stood when its execution began; polling
/// it is the handler's own responsibility. `result_view` names the
/// success flag and message of the result the handler returns for a
/// goal under a given signal, and `feedback_views` the progress and
/// message of each feedback entry it streams, in order; `execute`
/// delivers exactly those.
pub trait ActionHandler {
    /// The success flag and message of the result for this goal under
    /// this cancellation signal.
    spec fn result_view(&self, goal: SimpleActionGoal, cancel_requested: bool) -> (bool, Seq<
        char,
    >);

    /// The progress and message of each feedback entry streamed for
    /// this goal under this cancellation signal, in order.
    spec fn feedback_views(&self, goal: SimpleActionGoal, cancel_requested: bool) -> Seq<
        (u64, Seq<char>),
    >;

    fn execute(
        &self,
        goal: &SimpleActionGoal,
        cancel_requested: bool,
        feedback: &mut Vec<SimpleActionFeedback>,
    ) -> (r: SimpleActionResult)
        ensures
            (r.success, r.message@) == self.result_view(*goal, cancel_requested),
            final(feedback)@.len() == old(feedback)@.len() + self.feedback_views(
                *goal,
                cancel_requested,
            ).len(),
            forall|i: int|
                0 <= i < old(feedback)@.len()
                    ==> #[trigger] final(feedback)@[i] == old(feedback)@[i],
            forall|i: int|
                0 <= i < self.feedback_views(*goal, cancel_requested).len() ==> ((
                #[trigger] final(feedback)@[old(feedback)@.len() + i]).progress_percent,
                final(feedback)@[old(feedback)@.len() + i].message@) == self.feedback_views(
                    *goal,
                    cancel_requested,
                )[i],
    ;
}

/// One submitted goal with everything the protocol tracks for it: the
/// action it was sent to, the queued feedback, the one-shot result
/// slot, and the execution and cancellation flags.
#[derive(Debug)]
pub struct GoalRecord {
    /// The action name the client sent this goal to.
    pub action: String,
    pub goal: SimpleActionGoal,
    pub feedback: Vec<SimpleActionFeedback>,
    pub result: Option<SimpleActionResult>,
    pub started: bool,
    pub cancel_requested: bool,
}

/// The record's goal has begun executing and its result is still
/// owed.
pub open spec fn is_active(g: GoalRecord) -> bool {
    g.started && g.result is None
}

/// Some goal sent to this action has begun executing and not yet
/// delivered its result.
pub open spec fn has_active_goal(goals: Seq<GoalRecord>, action: Seq<char>) -> bool {
    exists|j: int| 0 <= j < goals.len() && (#[trigger] goals[j]).action@ == action && is_active(goals[j])
}

/// Whether a `get_result` call on this handle against this server
/// would deliver the result: the handle has not consumed it and the
/// goal's one-shot slot has been filled.
pub open spec fn result_available(h: ActionGoalHandle, server: ActionServer) -> bool {
    &&& !h.result_consumed
    &&& h.goal_index < server.goals@.len()
    &&& server.goals@[h.goal_index as int].result is Some
}

/// Action server holding the registered action names and every goal
/// record.
#[derive(Debug)]
pub struct ActionServer {
    pub actions: Vec<String>,
    pub goals: Vec<GoalRecord>,
}

/// Action client for sending goals to one registered action.
#[derive(Debug)]
pub struct ActionClient {
    pub action_name: String,
}

impl Clone for ActionClient {
    fn clone(&self) -> (res: Self)
        ensures
            res == *self,
    {
        ActionClient { action_name: self.action_name.clone() }
    }
}

/// Handle for an action goal: the client-side token for one in-flight
/// invocation.
#[derive(Debug)]
pub struct ActionGoalHandle {
    pub goal_id: u128,
    pub goal: SimpleActionGoal,
    /// Informational only; never synchronized with the outcome.
    pub status: ActionGoalStatus,
    /// The goal's slot in the server that issued this handle.
    pub goal_index: usize,
    /// Whether `get_result` has already delivered the result.
    pub result_consumed: bool,
}

impl ActionServer {
    /// Whether an action with this name is registered.
    pub open spec fn has_action(&self, name: Seq<char>) -> bool {
        exists|i: int| 0 <= i < self.actions@.len() && (#[trigger] self.actions@[i])@ == name
    }

    /// Create a new action server with nothing registered.
    pub fn new() -> (r: Self)
        ensures
            r.actions@.len() == 0,
            r.goals@.len() == 0,
    {
        ActionServer { actions: Vec::new(), goals: Vec::new() }
    }

    /// Whether an action with this name is registered.
    fn find_action(&self, name: &str) -> (r: bool)
        ensures
            r == self.has_action(name@),
    {
        let n = self.actions.len();
        let mut i: usize = 0;
        while i < n
            invariant
                n == self.actions@.len(),
                i <= n,
                forall|j: int| 0 <= j < i ==> (#[trigger] self.actions@[j])@ != name@,
            decreases n - i,
        {
            if crate::messages::str_eq(self.actions[i].as_str(), name) {
                return true;
            }
            i += 1;
        }
        false
    }

    /// Register an action under a name, creating its dedicated serial
    /// executor, and return a client for it. Registering a name a
    /// second time leaves the first registration standing.
    pub fn register_action(&mut self, action_name: &str) -> (r: Result<ActionClient, RobotError>)
        ensures
            r matches Ok(c) && c.action_name@ == action_name@,
            final(self).goals == old(self).goals,
            final(self).has_action(action_name@),
            old(self).has_action(action_name@) ==> *final(self) == *old(self),
            !old(self).has_action(action_name@) ==> final(self).actions@.len() == old(
                self,
            ).actions@.len() + 1 && final(self).actions@ == old(self).actions@.push(
                final(self).actions@.last(),
            ) && final(self).actions@.last()@ == action_name@,
    {
        if !self.find_action(action_name) {
            let ghost n0 = self.actions@.len();
            self.actions.push(action_name.to_owned());
            proof {
                assert(self.actions@[n0 as int]@ == action_name@);
            }
        }
        Ok(ActionClient { action_name: action_name.to_owned() })
    }

    /// The advisory cancellation flag of the goal in this slot, for a
    /// handler or executor that polls between steps.
    pub fn cancel_requested(&self, goal_index: usize) -> (r: bool)
        requires
            goal_index < self.goals@.len(),
        ensures
            r == self.goals@[goal_index as int].cancel_requested,
    {
        self.goals[goal_index].cancel_requested
    }

    /// Pull the next goal this action's executor should run: the
    /// oldest not-yet-started goal sent to it, and only while no
    /// earlier goal of the same action is still executing — goals of
    /// one action never run concurrently with each other. Marks the
    /// pulled goal as started and returns its slot.
    pub fn take_next_goal(&mut self, action_name: &str) -> (r: Option<usize>)
        ensures
            final(self).actions == old(self).actions,
            match r {
                Some(k) => {
                    &&& !has_active_goal(old(self).goals@, action_name@)
                    &&& k < old(self).goals@.len()
                    &&& old(self).goals@[k as int].action@ == action_name@
                    &&& !old(self).goals@[k as int].started
                    &&& forall|j: int|
                        0 <= j < k ==> !((#[trigger] old(self).goals@[j]).action@ == action_name@
                            && !old(self).goals@[j].started)
                    &&& final(self).goals@ == old(self).goals@.update(
                        k as int,
                        (GoalRecord { started: true, ..old(self).goals@[k as int] }),
                    )
                },
                None => {
                    &&& final(self).goals == old(self).goals
                    &&& has_active_goal(old(self).goals@, action_name@) || (forall|j: int|
                        0 <= j < old(self).goals@.len() ==> !((
                        #[trigger] old(self).goals@[j]).action@ == action_name@ && !old(
                            self,
                        ).goals@[j].started))
                },
            },
    {
        let n = self.goals.len();
        let mut i: usize = 0;
        while i < n
            invariant
                n == self.goals@.len(),
                *self == *old(self),
                i <= n,
                forall|j: int|
                    0 <= j < i ==> !((#[trigger] self.goals@[j]).action@ == action_name@
                        && is_active(self.goals@[j])),
            decreases n - i,
        {
            let g = &self.goals[i];
            if crate::messages::str_eq(g.action.as_str(), action_name) && g.started
                && g.result.is_none() {
                proof {
                    assert(has_active_goal(self.goals@, action_name@));
                }
                return None;
            }
            i += 1;
        }
        let mut k: usize = 0;
        while k < n
            invariant
                n == self.goals@.len(),
                *self == *old(self),
                k <= n,
                forall|j: int|
                    0 <= j < self.goals@.len() ==> !((#[trigger] self.goals@[j]).action@
                        == action_name@ && is_active(self.goals@[j])),
                forall|j: int|
                    0 <= j < k ==> !((#[trigger] self.goals@[j]).action@ == action_name@ && !self.goals@[j].started),
            decreases n - k,
        {
            let g = &self.goals[k];
            if crate::messages::str_eq(g.action.as_str(), action_name) && !g.started {
                self.goals[k].started = true;
                return Some(k);
            }
            k += 1;
        }
        None
    }

    /// Run this action's executor for one goal, as its dedicated task
    /// does: pull the next eligible goal, hand it to the handler
    /// together with the advisory cancellation signal as it stands,
    /// queue whatever feedback the handler streamed, and deliver its
    /// result into the goal's one-shot slot. Returns the executed
    /// goal's slot, or nothing when no goal was eligible.
    pub fn execute_next<H: ActionHandler>(&mut self, action_name: &str, handler: &H) -> (r: Option<
        usize,
    >)
        ensures
            final(self).actions == old(self).actions,
            r is None ==> final(self).goals == old(self).goals && (has_active_goal(
                old(self).goals@,
                action_name@,
            ) || (forall|j: int|
                0 <= j < old(self).goals@.len() ==> !((#[trigger] old(self).goals@[j]).action@
                    == action_name@ && !old(self).goals@[j].started))),
            r matches Some(k) ==> {
                let goal = old(self).goals@[k as int].goal;
                let cancel = old(self).goals@[k as int].cancel_requested;
                let delivered = final(self).goals@[k as int].result->0;
                let queued = final(self).goals@[k as int].feedback@;
                let already = old(self).goals@[k as int].feedback@.len() as int;
                &&& 0 <= k < old(self).goals@.len()
                &&& old(self).goals@[k as int].action@ == action_name@
                &&& !old(self).goals@[k as int].started
                &&& forall|j: int|
                    0 <= j < k ==> !((#[trigger] old(self).goals@[j]).action@ == action_name@
                        && !old(self).goals@[j].started)
                &&& !has_active_goal(old(self).goals@, action_name@)
                &&& final(self).goals@.len() == old(self).goals@.len()
                &&& final(self).goals@[k as int].started
                &&& final(self).goals@[k as int].result is Some
                &&& (delivered.success, delivered.message@) == handler.result_view(goal, cancel)
                &&& final(self).goals@[k as int].goal == old(self).goals@[k as int].goal
                &&& final(self).goals@[k as int].action == old(self).goals@[k as int].action
                &&& final(self).goals@[k as int].cancel_requested == old(self).goals@[k as int].cancel_requested
                &&& queued.subrange(0, already) == old(self).goals@[k as int].feedback@
                &&& queued.len() == already + handler.feedback_views(goal, cancel).len()
                &&& forall|i: int|
                    0 <= i < handler.feedback_views(goal, cancel).len() ==> ((
                    #[trigger] queued[already + i]).progress_percent, queued[already + i].message@)
                        == handler.feedback_views(goal, cancel)[i]
                &&& forall|j: int|
                    0 <= j < old(self).goals@.len() && j != k
                        ==> (#[trigger] final(self).goals@[j]) == old(self).goals@[j]
            },
    {
        let k = match self.take_next_goal(action_name) {
            Some(k) => k,
            None => {
                return None;
            },
        };
        let goal = self.goals[k].goal.clone();
        let cancel_requested = self.goals[k].cancel_requested;
        let mut feedback: Vec<SimpleActionFeedback> = Vec::new();
        let result = handler.execute(&goal, cancel_requested, &mut feedback);
        let ghost fb_pre = self.goals@[k as int].feedback@;
        let ghost fb_new = feedback@;
        self.goals[k].feedback.append(&mut feedback);
        self.goals[k].result = Some(result);
        proof {
            assert(goal == old(self).goals@[k as int].goal);
            assert(cancel_requested == old(self).goals@[k as int].cancel_requested);
            let queued = self.goals@[k as int].feedback@;
            assert(queued =~= fb_pre + fb_new);
            assert(queued.subrange(0, fb_pre.len() as int) =~= fb_pre);
            let views = handler.feedback_views(goal, cancel_requested);
            assert(fb_new.len() == views.len());
            assert forall|i: int|
                0 <= i < views.len() implies ((#[trigger] queued[fb_pre.len() + i]).progress_percent,
                queued[fb_pre.len() + i].message@) == views[i] by {
                assert(queued[fb_pre.len() + i] == fb_new[i]);
                assert((fb_new[0 + i].progress_percent, fb_new[0 + i].message@) == views[i]);
            }
        }
        Some(k)
    }
}

impl ActionClient {
    /// Create a new action client for this action name.
    pub fn new(action_name: &str) -> (r: Self)
        ensures
            r.action_name@ == action_name@,
    {
        ActionClient { action_name: action_name.to_owned() }
    }

    /// Send a goal to the action server this client is bound to.
    ///
    /// Fails with "action server not available" exactly when the
    /// client's action is not registered. On success the goal is
    /// enqueued behind the action's earlier goals, with fresh feedback
    /// and result channels and the cancellation signal down, and the
    /// handle comes back immediately.
    pub fn send_goal(&self, server: &mut ActionServer, goal: SimpleActionGoal) -> (r: Result<
        ActionGoalHandle,
        RobotError,
    >)
        ensures
            final(server).actions == old(server).actions,
            !old(server).has_action(self.action_name@) ==> {
                &&& *final(server) == *old(server)
                &&& r matches Err(e) && e is Action && e.spec_message()
                    == "action server not available"@
            },
            old(server).has_action(self.action_name@) ==> {
                &&& final(server).goals@ == old(server).goals@.push(
                    (GoalRecord {
                        action: self.action_name,
                        goal: goal,
                        feedback: final(server).goals@.last().feedback,
                        result: None,
                        started: false,
                        cancel_requested: false,
                    }),
                )
                &&& final(server).goals@.last().feedback@.len() == 0
                &&& r matches Ok(h) && h.goal_id == goal.id && h.goal == goal && h.status
                    == ActionGoalStatus::Pending && h.goal_index == old(server).goals@.len()
                    && !h.result_consumed
            },
    {
        if !server.find_action(self.action_name.as_str()) {
            return Err(RobotError::Action(String::from_str("action server not available")));
        }
        let goal_id = goal.id;
        let goal_for_handle = goal.clone();
        let goal_index = server.goals.len();
        server.goals.push(
            GoalRecord {
                action: self.action_name.clone(),
                goal,
                feedback: Vec::new(),
                result: None,
                started: false,
                cancel_requested: false,
            },
        );
        Ok(
            ActionGoalHandle {
                goal_id,
                goal: goal_for_handle,
                status: ActionGoalStatus::Pending,
                goal_index,
                result_consumed: false,
            },
        )
    }
}

impl ActionGoalHandle {
    /// Take the result, exactly once.
    ///
    /// The first call returns the result once the executor has
    /// delivered it (before that it reports "result not ready", and
    /// the caller waits and asks again); every later call fails with
    /// "result already consumed".
    pub fn get_result(&mut self, server: &ActionServer) -> (r: Result<
        SimpleActionResult,
        RobotError,
    >)
        ensures
            final(self).goal_index == old(self).goal_index,
            final(self).goal == old(self).goal,
            final(self).goal_id == old(self).goal_id,
            final(self).status == old(self).status,
            r is Ok <==> result_available(*old(self), *server),
            r is Ok ==> final(self).result_consumed,
            old(self).result_consumed ==> {
                &&& *final(self) == *old(self)
                &&& r matches Err(e) && e is Action && e.spec_message() == "result already consumed"@
            },
            !old(self).result_consumed && old(self).goal_index >= server.goals@.len() ==> {
                &&& *final(self) == *old(self)
                &&& r matches Err(e) && e is Action && e.spec_message() == "unknown goal"@
            },
            !old(self).result_consumed && old(self).goal_index < server.goals@.len() ==> {
                let record = server.goals@[old(self).goal_index as int];
                &&& record.result is Some ==> final(self).result_consumed && (r matches Ok(res)
                    && Some(res) == record.result)
                &&& record.result is None ==> !final(self).result_consumed && (r matches Err(e)
                    && e is Action && e.spec_message() == "result not ready"@)
            },
    {
        if self.result_consumed {
            return Err(RobotError::Action(String::from_str("result already consumed")));
        }
        if self.goal_index >= server.goals.len() {
            return Err(RobotError::Action(String::from_str("unknown goal")));
        }
        match &server.goals[self.goal_index].result {
            Some(res) => {
                self.result_consumed = true;
                Ok(res.clone())
            },
            None => Err(RobotError::Action(String::from_str("result not ready"))),
        }
    }

    /// Try to receive the next queued feedback, without blocking.
    ///
    /// Distinguishes "nothing yet" (`Ok(None)`, the handler may still
    /// send more) from a closed channel (an error: the result has been
    /// delivered and the queue is drained, so nothing more can come).
    pub fn try_recv_feedback(&mut self, server: &mut ActionServer) -> (r: Result<
        Option<SimpleActionFeedback>,
        RobotError,
    >)
        ensures
            *final(self) == *old(self),
            final(server).actions == old(server).actions,
            old(self).goal_index >= old(server).goals@.len() ==> {
                &&& *final(server) == *old(server)
                &&& r matches Err(e) && e is Action && e.spec_message() == "unknown goal"@
            },
            old(self).goal_index < old(server).goals@.len() ==> {
                let k = old(self).goal_index as int;
                let record = old(server).goals@[k];
                &&& record.feedback@.len() > 0 ==> {
                    &&& final(server).goals@ == old(server).goals@.update(
                        k,
                        (GoalRecord {
                            feedback: final(server).goals@[k].feedback,
                            ..record
                        }),
                    )
                    &&& final(server).goals@[k].feedback@ == record.feedback@.drop_first()
                    &&& r matches Ok(f) && f == Some(record.feedback@[0])
                }
                &&& record.feedback@.len() == 0 && record.result is Some ==> {
                    &&& *final(server) == *old(server)
                    &&& r matches Err(e) && e is Action && e.spec_message()
                        == "feedback channel disconnected"@
                }
                &&& record.feedback@.len() == 0 && record.result is None ==> {
                    &&& *final(server) == *old(server)
                    &&& r matches Ok(f) && f is None
                }
            },
    {
        if self.goal_index >= server.goals.len() {
            return Err(RobotError::Action(String::from_str("unknown goal")));
        }
        if server.goals[self.goal_index].feedback.len() > 0 {
            let f = server.goals[self.goal_index].feedback.remove(0);
            proof {
                assert(final(server).goals@[old(self).goal_index as int].feedback@
                    =~= old(server).goals@[old(self).goal_index as int].feedback@.drop_first());
            }
            return Ok(Some(f));
        }
        if server.goals[self.goal_index].result.is_some() {
            return Err(RobotError::Action(String::from_str("feedback channel disconnected")));
        }
        Ok(None)
    }

    /// Raise the advisory cancellation signal for this goal.
    /// Observance is the handler's responsibility: a handler that
    /// never polls the signal completes regardless.
    pub fn cancel(&self, server: &mut ActionServer) -> (r: Result<(), RobotError>)
        ensures
            final(server).actions == old(server).actions,
            self.goal_index >= old(server).goals@.len() ==> {
                &&& *final(server) == *old(server)
                &&& r matches Err(e) && e is Action && e.spec_message() == "unknown goal"@
            },
            self.goal_index < old(server).goals@.len() ==> {
                &&& r is Ok
                &&& final(server).goals@ == old(server).goals@.update(
                    self.goal_index as int,
                    (GoalRecord {
                        cancel_requested: true,
                        ..old(server).goals@[self.goal_index as int]
                    }),
                )
            },
    {
        if self.goal_index >= server.goals.len() {
            return Err(RobotError::Action(String::from_str("unknown goal")));
        }
        server.goals[self.goal_index].cancel_requested = true;
        Ok(())
    }
}

/// The goal's result is delivered at most once: a call of
/// `get_result` that returned it leaves the handle consumed, and on a
/// consumed handle no later call, whatever the server has come to
/// hold, can deliver it again.
pub proof fn lemma_result_one_shot(h: ActionGoalHandle, server: ActionServer)
    requires
        h.result_consumed,
    ensures
        !result_available(h, server),
{
}

/// The advisory cancellation signal is observable: after `cancel`
/// raised it on a goal's slot, the flag that `cancel_requested`
/// reports — and that the executor hands to the goal's handler — is
/// up.
pub proof fn lemma_cancel_observable(
    pre: ActionServer,
    post: ActionServer,
    h: ActionGoalHandle,
)
    requires
        h.goal_index < pre.goals@.len(),
        post.goals@ == pre.goals@.update(
            h.goal_index as int,
            (GoalRecord { cancel_requested: true, ..pre.goals@[h.goal_index as int] }),
        ),
    ensures
        post.goals@[h.goal_index as int].cancel_requested,
{
}

/// The simple demonstration handler: it polls the cancellation signal
/// before doing any work, and otherwise walks its goal's steps,
/// streaming one feedback entry per step.
pub struct SimpleActionHandler;

impl ActionHandler for SimpleActionHandler {
    open spec fn result_view(&self, goal: SimpleActionGoal, cancel_requested: bool) -> (bool, Seq<
        char,
    >) {
        if cancel_requested {
            (false, "action was canceled"@)
        } else {
            (true, "action completed successfully"@)
        }
    }

    open spec fn feedback_views(&self, goal: SimpleActionGoal, cancel_requested: bool) -> Seq<
        (u64, Seq<char>),
    > {
        if cancel_requested {
            Seq::empty()
        } else {
            Seq::new(
                goal.duration_secs as nat,
                |i: int| ((i * 100 / (goal.duration_secs as int)) as u64, "step completed"@),
            )
        }
    }

    fn execute(
        &self,
        goal: &SimpleActionGoal,
        cancel_requested: bool,
        feedback: &mut Vec<SimpleActionFeedback>,
    ) -> (r: SimpleActionResult) {
        if cancel_requested {
            return SimpleActionResult {
                success: false,
                message: String::from_str("action was canceled"),
            };
        }
        let ghost base = feedback@.len() as int;
        let ghost views = self.feedback_views(*goal, cancel_requested);
        let total = goal.duration_secs;
        let mut step: u64 = 0;
        while step < total
            invariant
                total == goal.duration_secs,
                !cancel_requested,
                views == self.feedback_views(*goal, cancel_requested),
                views.len() == total,
                step <= total,
                feedback@.len() == base + step,
                forall|i: int| 0 <= i < base ==> #[trigger] feedback@[i] == old(feedback)@[i],
                base == old(feedback)@.len(),
                forall|i: int|
                    0 <= i < step ==> ((#[trigger] feedback@[base + i]).progress_percent,
                    feedback@[base + i].message@) == views[i],
            decreases total - step,
        {
            proof {
                assert((step as int) * 100 / (total as int) < 100) by (nonlinear_arith)
                    requires
                        0 <= step < total,
                ;
            }
            let progress_percent = ((step as u128 * 100u128) / (total as u128)) as u64;
            proof {
                assert(progress_percent == (step as int) * 100 / (total as int));
                assert(views[step as int] == (
                    ((step as int) * 100 / (total as int)) as u64,
                    "step completed"@,
                ));
            }
            feedback.push(
                SimpleActionFeedback {
                    progress_percent,
                    message: String::from_str("step completed"),
                },
            );
            step = step + 1;
        }
        SimpleActionResult {
            success: true,
            message: String::from_str("action completed successfully"),
        }
    }
}

/// A handler that never polls the cancellation signal: whatever the
/// signal says, it runs its goal to completion and returns the same
/// successful result — cancellation is advisory, and a handler that
/// does not look cannot be stopped.
pub struct NonPollingHandler;

impl ActionHandler for NonPollingHandler {
    open spec fn result_view(&self, goal: SimpleActionGoal, cancel_requested: bool) -> (bool, Seq<
        char,
    >) {
        (true, "completed without polling"@)
    }

    open spec fn feedback_views(&self, goal: SimpleActionGoal, cancel_requested: bool) -> Seq<
        (u64, Seq<char>),
    > {
        Seq::empty()
    }

    fn execute(
        &self,
        goal: &SimpleActionGoal,
        cancel_requested: bool,
        feedback: &mut Vec<SimpleActionFeedback>,
    ) -> (r: SimpleActionResult) {
        SimpleActionResult {
            success: true,
            message: String::from_str("completed without polling"),
        }
    }
}

} // verus!
