use vstd::prelude::*;

use crate::api_call::{set_node_health_spec, APICall, Target};

verus! {

/// What the transport returned for one attempt.
#[derive(PartialEq, Eq, Structural, Clone, Copy, Debug)]
pub enum Outcome {
    /// A response arrived with this HTTP status.
    Status(u16),
    /// No response: the connection failed, timed out, or the like.
    TransportFailure,
}

/// What the caller does after an attempt.
#[derive(PartialEq, Eq, Structural, Clone, Copy, Debug)]
pub enum Step {
    /// Hand the attempt's result to the caller.
    Finish,
    /// Wait the retry interval, then make another attempt.
    Retry,
}

/// A 5xx status: the node answered, reporting a failure of its own.
pub open spec fn is_server_error(status: u16) -> bool {
    500 <= status < 600
}

/// The attempt reached a node that answered with a status other than 5xx.
pub open spec fn is_success(outcome: Outcome) -> bool {
    match outcome {
        Outcome::Status(status) => !is_server_error(status),
        Outcome::TransportFailure => false,
    }
}

/// The step after an attempt with `outcome`, when `attempts` attempts, this
/// one included, have been made and `num_retries` more than one are allowed.
pub open spec fn step_after(attempts: int, num_retries: int, outcome: Outcome) -> Step {
    if is_success(outcome) || attempts > num_retries {
        Step::Finish
    } else {
        Step::Retry
    }
}

/// Attempts that a logical call makes when the transport answers with
/// `outcomes` in turn, `made` attempts having been made already. Should the
/// answers run out, the count stops there.
pub open spec fn attempts_made(num_retries: nat, outcomes: Seq<Outcome>, made: nat) -> nat
    decreases outcomes.len() - made,
{
    if made >= outcomes.len() {
        made
    } else if step_after((made + 1) as int, num_retries as int, outcomes[made as int]) is Finish {
        made + 1
    } else {
        attempts_made(num_retries, outcomes, made + 1)
    }
}

/// The progress of one logical call against its retry budget.
pub struct LogicalCall {
    /// Attempts made so far.
    pub attempts: u128,
    /// Attempts allowed after the first.
    pub num_retries: usize,
}

impl LogicalCall {
    /// One more attempt fits in the budget.
    pub open spec fn may_attempt(&self) -> bool {
        self.attempts <= self.num_retries
    }

    /// A call that has made no attempt yet.
    pub fn new(num_retries: usize) -> (r: LogicalCall)
        ensures
            r.attempts == 0,
            r.num_retries == num_retries,
            r.may_attempt(),
    {
        LogicalCall { attempts: 0, num_retries }
    }
}

impl APICall {
    /// Starts a logical call under this registry's retry budget.
    pub fn begin_call(&self) -> (r: LogicalCall)
        ensures
            r.attempts == 0,
            r.num_retries == self.num_retries,
            r.may_attempt(),
    {
        LogicalCall::new(self.num_retries)
    }

    /// Classifies the outcome of an attempt sent to `target` at `now` and
    /// records it as that node's health: a response other than 5xx marks the
    /// node healthy and is a success; a 5xx response or a transport failure
    /// marks it unhealthy.
    pub fn handle_result(&mut self, target: Target, outcome: Outcome, now: u128) -> (r: bool)
        requires
            old(self).valid_target(target),
        ensures
            r == is_success(outcome),
            final(self).records_health(old(self), target, r, now),
            final(self).node_at(target) == set_node_health_spec(old(self).node_at(target), r, now),
    {
        let success = match outcome {
            Outcome::Status(status) => !(500 <= status && status < 600),
            Outcome::TransportFailure => false,
        };
        self.update_node_health(target, success, now);
        success
    }

    /// Accounts for an attempt of `call` sent to `target` whose outcome came
    /// back at `now`, and says whether the call is over.
    ///
    /// The node's health is updated as `handle_result` does. The call ends on
    /// a success, and on a failure once the retry budget is spent; with no
    /// retries allowed the first attempt ends it whatever its outcome.
    pub fn after_attempt(
        &mut self,
        call: &mut LogicalCall,
        target: Target,
        outcome: Outcome,
        now: u128,
    ) -> (r: Step)
        requires
            old(self).valid_target(target),
            old(call).may_attempt(),
        ensures
            final(call).attempts == old(call).attempts + 1,
            final(call).num_retries == old(call).num_retries,
            r == step_after(final(call).attempts as int, final(call).num_retries as int, outcome),
            r is Retry ==> final(call).may_attempt(),
            final(self).records_health(old(self), target, is_success(outcome), now),
            final(self).node_at(target) == set_node_health_spec(
                old(self).node_at(target),
                is_success(outcome),
                now,
            ),
            (outcome matches Outcome::Status(s) && 400 <= s < 500) ==> (r is Finish
                && final(self).node_at(target).is_healthy),
    {
        let success = self.handle_result(target, outcome, now);
        call.attempts = call.attempts + 1;
        if success || call.attempts > call.num_retries as u128 {
            Step::Finish
        } else {
            Step::Retry
        }
    }
}

/// However the transport answers, a logical call makes at most one attempt
/// more than its retry budget.
pub proof fn lemma_attempts_within_budget(num_retries: nat, outcomes: Seq<Outcome>)
    ensures
        attempts_made(num_retries, outcomes, 0) <= num_retries + 1,
{
    lemma_attempts_within_budget_from(num_retries, outcomes, 0);
}

proof fn lemma_attempts_within_budget_from(num_retries: nat, outcomes: Seq<Outcome>, made: nat)
    requires
        made <= num_retries,
    ensures
        attempts_made(num_retries, outcomes, made) <= num_retries + 1,
    decreases outcomes.len() - made,
{
    if made < outcomes.len() && step_after(
        (made + 1) as int,
        num_retries as int,
        outcomes[made as int],
    ) is Retry {
        lemma_attempts_within_budget_from(num_retries, outcomes, made + 1);
    }
}

/// With no retries allowed, a logical call makes exactly one attempt,
/// whatever the transport answers.
pub proof fn lemma_no_retries_single_attempt(outcomes: Seq<Outcome>)
    requires
        outcomes.len() > 0,
    ensures
        attempts_made(0, outcomes, 0) == 1,
{
}

} // verus!
