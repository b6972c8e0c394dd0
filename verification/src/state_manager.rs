use crate::event_handler::State;
use crate::state_runner::StateRunnerError;
use vstd::pervasive::arbitrary;
use vstd::prelude::*;

verus! {

/// A state's behaviour: run on entering, on every cycle while active, and on
/// leaving. `CTX` is what the runner works with, `E` the input/output error.
/// What a call does is the runner's own business: each runner names it with
/// an effect relation between the runner and the context before and after
/// the call (and the result), and each call satisfies its relation.
pub trait RunnableState<CTX, E> {
    /// An `entry` call can take the runner from `self` to `after` and the
    /// context from `ctx` to `ctx_after`.
    spec fn entry_effect(&self, after: &Self, ctx: CTX, ctx_after: CTX) -> bool;

    fn entry(&mut self, ctx: &mut CTX)
        ensures
            old(self).entry_effect(&*final(self), *old(ctx), *final(ctx)),
    ;

    /// An `update` call that returned `r` can take the runner from `self` to
    /// `after` and the context from `ctx` to `ctx_after`.
    spec fn update_effect(&self, after: &Self, ctx: CTX, ctx_after: CTX, r: Result<(), StateRunnerError<E>>) -> bool;

    fn update(&mut self, ctx: &mut CTX) -> (r: Result<(), StateRunnerError<E>>)
        ensures
            old(self).update_effect(&*final(self), *old(ctx), *final(ctx), r),
    ;

    /// An `exit` call can take the runner from `self` to `after` and the
    /// context from `ctx` to `ctx_after`.
    spec fn exit_effect(&self, after: &Self, ctx: CTX, ctx_after: CTX) -> bool;

    fn exit(&mut self, ctx: &mut CTX)
        ensures
            old(self).exit_effect(&*final(self), *old(ctx), *final(ctx)),
    ;
}

/// Gives the runner of each state.
pub trait StateRunnerSelector<CTX, E> {
    type Runner: RunnableState<CTX, E>;

    /// Lending out the runner of `state`, which held `runner` when lent and
    /// `runner_after` when given back, can take the selector from `self` to
    /// `after`.
    spec fn get_runner_effect(
        &self,
        after: &Self,
        state: State,
        runner: Self::Runner,
        runner_after: Self::Runner,
    ) -> bool;

    fn get_runner(&mut self, state: State) -> (r: &mut Self::Runner)
        ensures
            old(self).get_runner_effect(&*final(self), state, *r, *final(r)),
    ;
}

/// The runners that the robot uses.
#[derive(Clone, Copy, PartialEq, Eq, Debug, Structural)]
pub enum RunnerKind {
    Default,
    Initializing,
    Homing,
    CenterHoldControl,
    CirclingControl,
    Feedforward,
}

/// The runner of each state: the triangle pattern uses the center hold
/// controller, and the states without work of their own use the default
/// runner.
pub open spec fn runner_for_state_spec(state: State) -> RunnerKind {
    match state {
        State::Initializing => RunnerKind::Initializing,
        State::Homing => RunnerKind::Homing,
        State::RunningCenterHold => RunnerKind::CenterHoldControl,
        State::RunningCircling => RunnerKind::CirclingControl,
        State::RunningTriangle => RunnerKind::CenterHoldControl,
        State::FeedForward => RunnerKind::Feedforward,
        _ => RunnerKind::Default,
    }
}

pub fn runner_for_state(state: State) -> (r: RunnerKind)
    ensures
        r == runner_for_state_spec(state),
{
    match state {
        State::Initializing => RunnerKind::Initializing,
        State::Homing => RunnerKind::Homing,
        State::RunningCenterHold => RunnerKind::CenterHoldControl,
        State::RunningCircling => RunnerKind::CirclingControl,
        State::RunningTriangle => RunnerKind::CenterHoldControl,
        State::FeedForward => RunnerKind::Feedforward,
        State::Deinit => RunnerKind::Default,
        State::Off => RunnerKind::Default,
        State::Error => RunnerKind::Default,
    }
}

/// The runner calls of one update: the state whose runner is left, the state
/// whose runner is entered, and the state whose runner then runs.
#[derive(Clone, Copy, PartialEq, Eq, Debug, Structural)]
pub struct SwitchPlan {
    pub exit: Option<State>,
    pub enter: Option<State>,
    pub run: State,
}

/// An update from `current` to `requested` leaves the current state and
/// enters the requested one only when they differ, and then runs the
/// requested state.
pub open spec fn switch_plan_spec(current: State, requested: State) -> SwitchPlan {
    if current != requested {
        SwitchPlan { exit: Some(current), enter: Some(requested), run: requested }
    } else {
        SwitchPlan { exit: None, enter: None, run: requested }
    }
}

/// Plans the runner calls of an update from `current` to `requested`.
pub fn switch_plan(current: State, requested: State) -> (r: SwitchPlan)
    ensures
        r == switch_plan_spec(current, requested),
{
    if current != requested {
        SwitchPlan { exit: Some(current), enter: Some(requested), run: requested }
    } else {
        SwitchPlan { exit: None, enter: None, run: requested }
    }
}

/// The runner calls of an update that carries out `plan`, as chains of the
/// values the selector (`sels`), the context (`ctxs`) and the runners
/// (`runners`, as lent and as given back) go through: when `plan.exit` names
/// a state, its runner is lent and left; when `plan.enter` names one, its
/// runner is lent and entered; then the runner of `plan.run` is lent and
/// updated, which returned `r`. A step that is not taken changes nothing.
pub open spec fn switch_trace<CTX, E, STRS: StateRunnerSelector<CTX, E>>(
    plan: SwitchPlan,
    sels: Seq<STRS>,
    ctxs: Seq<CTX>,
    runners: Seq<STRS::Runner>,
    r: Result<(), StateRunnerError<E>>,
) -> bool {
    &&& sels.len() == 4
    &&& ctxs.len() == 4
    &&& runners.len() == 6
    &&& match plan.exit {
        Some(left) => sels[0].get_runner_effect(&sels[1], left, runners[0], runners[1])
            && runners[0].exit_effect(&runners[1], ctxs[0], ctxs[1]),
        None => sels[1] == sels[0] && ctxs[1] == ctxs[0],
    }
    &&& match plan.enter {
        Some(entered) => sels[1].get_runner_effect(&sels[2], entered, runners[2], runners[3])
            && runners[2].entry_effect(&runners[3], ctxs[1], ctxs[2]),
        None => sels[2] == sels[1] && ctxs[2] == ctxs[1],
    }
    &&& sels[2].get_runner_effect(&sels[3], plan.run, runners[4], runners[5])
    &&& runners[4].update_effect(&runners[5], ctxs[2], ctxs[3], r)
}

/// Runs the runner of the current state and switches runners when the state
/// changes.
pub struct StateManager<STRS> {
    runners: STRS,
    current_state: State,
}

impl<STRS> StateManager<STRS> {
    /// The state whose runner is active.
    pub closed spec fn current_state_spec(&self) -> State {
        self.current_state
    }

    /// The runners.
    pub closed spec fn runners_spec(&self) -> STRS {
        self.runners
    }

    /// A manager whose active state is `Initializing`.
    pub fn new(runners: STRS) -> (r: Self)
        ensures
            r.current_state_spec() == State::Initializing,
            r.runners_spec() == runners,
    {
        StateManager { runners, current_state: State::Initializing }
    }

    /// The state whose runner is active.
    pub fn current_state(&self) -> (r: State)
        ensures
            r == self.current_state_spec(),
    {
        self.current_state
    }

    /// Makes `state` the active state and runs its runner once, carrying out
    /// `switch_plan(current, state)` in order: the old state's runner is left
    /// and the new state's runner entered when the state changes, then the new
    /// state's runner is updated and its result is returned.
    pub fn update<CTX, E>(&mut self, state: State, ctx: &mut CTX) -> (r: Result<(), StateRunnerError<E>>) where
        STRS: StateRunnerSelector<CTX, E>,

        ensures
            final(self).current_state_spec() == state,
            exists|sels: Seq<STRS>, ctxs: Seq<CTX>, runners: Seq<STRS::Runner>|
                #[trigger] switch_trace(
                    switch_plan_spec(old(self).current_state_spec(), state),
                    sels,
                    ctxs,
                    runners,
                    r,
                ) && sels[0] == old(self).runners_spec() && sels[3] == final(self).runners_spec()
                    && ctxs[0] == *old(ctx) && ctxs[3] == *final(ctx),
    {
        let plan = switch_plan(self.current_state, state);
        let ghost sel0 = self.runners;
        let ghost ctx0 = *ctx;
        let ghost mut r0: STRS::Runner = arbitrary();
        let ghost mut r1: STRS::Runner = arbitrary();
        let ghost mut r2: STRS::Runner = arbitrary();
        let ghost mut r3: STRS::Runner = arbitrary();
        if let Some(left) = plan.exit {
            let runner = self.runners.get_runner(left);
            proof {
                r0 = *runner;
            }
            runner.exit(ctx);
            proof {
                r1 = *runner;
            }
        }
        let ghost sel1 = self.runners;
        let ghost ctx1 = *ctx;
        if let Some(entered) = plan.enter {
            let runner = self.runners.get_runner(entered);
            proof {
                r2 = *runner;
            }
            runner.entry(ctx);
            proof {
                r3 = *runner;
            }
        }
        let ghost sel2 = self.runners;
        let ghost ctx2 = *ctx;
        self.current_state = plan.run;
        let runner = self.runners.get_runner(plan.run);
        let ghost r4 = *runner;
        let result = runner.update(ctx);
        let ghost r5 = *runner;
        let ghost sels = seq![sel0, sel1, sel2, self.runners];
        let ghost ctxs = seq![ctx0, ctx1, ctx2, *ctx];
        let ghost runners = seq![r0, r1, r2, r3, r4, r5];
        assert(switch_trace(plan, sels, ctxs, runners, result));
        result
    }
}

} // verus!
