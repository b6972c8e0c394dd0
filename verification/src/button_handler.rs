use crate::device_traits::Button;
use crate::event::GlobEvent;
use crate::event_queue::{enqueue_event, queued_events, EventQueue};
use crate::parameter_manager::{DoublePressThresholdMs, LongPressThresholdMs, ParameterManager};
use crate::severity::{ErrorSeverity, Severity};
use vstd::prelude::*;

verus! {

#[derive(Clone, Copy, PartialEq, Eq, Debug, Structural)]
pub enum ButtonHandlerError {
    /// The event could not be queued and was dropped.
    QueueFull(GlobEvent),
}

impl Severity for ButtonHandlerError {
    /// A lost press event is fatal.
    open spec fn severity_spec(&self) -> ErrorSeverity {
        ErrorSeverity::Panic
    }

    fn get_severity(&self) -> (r: ErrorSeverity) {
        match self {
            ButtonHandlerError::QueueFull(_) => ErrorSeverity::Panic,
        }
    }
}

/// Progress of the press detection; each stage keeps the time (in
/// microseconds) at which it was entered.
#[derive(Clone, Copy, PartialEq, Eq, Debug, Structural)]
pub enum ButtonHandlerState {
    NoPress,
    FirstDown(u64),
    FirstUp(u64),
    SecondDown(u64),
}

/// One sampling step of the press detection: the next stage and the event it
/// produces. Thresholds are in milliseconds, times in microseconds; an elapsed
/// time counts only when it is strictly above its threshold.
pub open spec fn button_step_spec(
    state: ButtonHandlerState,
    pressed: bool,
    call_time: u64,
    long_press_ms: u32,
    double_press_ms: u32,
) -> (ButtonHandlerState, Option<GlobEvent>) {
    match state {
        ButtonHandlerState::NoPress => if pressed {
            (ButtonHandlerState::FirstDown(call_time), None)
        } else {
            (ButtonHandlerState::NoPress, None)
        },
        ButtonHandlerState::FirstDown(t) => if !pressed {
            if call_time - t > long_press_ms * 1000 {
                (ButtonHandlerState::NoPress, Some(GlobEvent::ButtonLongPress))
            } else {
                (ButtonHandlerState::FirstUp(call_time), None)
            }
        } else {
            (state, None)
        },
        ButtonHandlerState::FirstUp(t) => if call_time - t > double_press_ms * 1000 {
            (ButtonHandlerState::NoPress, Some(GlobEvent::ButtonShortPress))
        } else if pressed {
            (ButtonHandlerState::SecondDown(call_time), None)
        } else {
            (state, None)
        },
        ButtonHandlerState::SecondDown(t) => if !pressed {
            if call_time - t > long_press_ms * 1000 {
                (ButtonHandlerState::NoPress, Some(GlobEvent::ButtonLongPress))
            } else {
                (ButtonHandlerState::NoPress, Some(GlobEvent::ButtonDoublePress))
            }
        } else {
            (state, None)
        },
    }
}

/// When a step can be taken without overflow or a time running backwards:
/// the stage time is not after `call_time` and the threshold that the step
/// reads fits in 32 bits once scaled to microseconds.
pub open spec fn button_step_defined(
    state: ButtonHandlerState,
    pressed: bool,
    call_time: u64,
    long_press_ms: u32,
    double_press_ms: u32,
) -> bool {
    match state {
        ButtonHandlerState::NoPress => true,
        ButtonHandlerState::FirstDown(t) => !pressed ==> (t <= call_time && long_press_ms * 1000
            <= u32::MAX),
        ButtonHandlerState::FirstUp(t) => t <= call_time && double_press_ms * 1000 <= u32::MAX,
        ButtonHandlerState::SecondDown(t) => !pressed ==> (t <= call_time && long_press_ms * 1000
            <= u32::MAX),
    }
}

/// Computes one step of the press detection.
pub fn button_step(
    state: ButtonHandlerState,
    pressed: bool,
    call_time: u64,
    long_press_ms: u32,
    double_press_ms: u32,
) -> (r: (ButtonHandlerState, Option<GlobEvent>))
    requires
        button_step_defined(state, pressed, call_time, long_press_ms, double_press_ms),
    ensures
        r == button_step_spec(state, pressed, call_time, long_press_ms, double_press_ms),
{
    match state {
        ButtonHandlerState::NoPress => {
            if pressed {
                (ButtonHandlerState::FirstDown(call_time), None)
            } else {
                (ButtonHandlerState::NoPress, None)
            }
        },
        ButtonHandlerState::FirstDown(fdt) => {
            if !pressed {
                let longpress_thrs: u64 = (long_press_ms * 1000) as u64;
                if (call_time - fdt) > longpress_thrs {
                    (ButtonHandlerState::NoPress, Some(GlobEvent::ButtonLongPress))
                } else {
                    (ButtonHandlerState::FirstUp(call_time), None)
                }
            } else {
                (state, None)
            }
        },
        ButtonHandlerState::FirstUp(fut) => {
            let doublepress_thrs: u64 = (double_press_ms * 1000) as u64;
            if (call_time - fut) > doublepress_thrs {
                (ButtonHandlerState::NoPress, Some(GlobEvent::ButtonShortPress))
            } else if pressed {
                (ButtonHandlerState::SecondDown(call_time), None)
            } else {
                (state, None)
            }
        },
        ButtonHandlerState::SecondDown(sdt) => {
            if !pressed {
                let longpress_thrs: u64 = (long_press_ms * 1000) as u64;
                if (call_time - sdt) > longpress_thrs {
                    (ButtonHandlerState::NoPress, Some(GlobEvent::ButtonLongPress))
                } else {
                    (ButtonHandlerState::NoPress, Some(GlobEvent::ButtonDoublePress))
                }
            } else {
                (state, None)
            }
        },
    }
}

/// One update of the handler for a given sample: the stage moves as
/// `button_step_spec` says, and the produced event, if any, is queued when
/// there is room; otherwise the event is reported lost and the queue is kept.
pub open spec fn button_update_spec(
    state: ButtonHandlerState,
    pressed: bool,
    call_time: u64,
    long_press_ms: u32,
    double_press_ms: u32,
    next_state: ButtonHandlerState,
    queue_before: Seq<GlobEvent>,
    queue_after: Seq<GlobEvent>,
    result: Result<(), ButtonHandlerError>,
) -> bool {
    let step = button_step_spec(state, pressed, call_time, long_press_ms, double_press_ms);
    &&& next_state == step.0
    &&& match step.1 {
        None => result is Ok && queue_after == queue_before,
        Some(event) => if queue_before.len() < 8 {
            result is Ok && queue_after == queue_before.push(event)
        } else {
            result == Err::<(), ButtonHandlerError>(ButtonHandlerError::QueueFull(event))
                && queue_after == queue_before
        },
    }
}

/// Every press event ends the gesture: after an event the detection is idle
/// again.
pub proof fn lemma_event_returns_to_idle(
    state: ButtonHandlerState,
    pressed: bool,
    call_time: u64,
    long_press_ms: u32,
    double_press_ms: u32,
)
    requires
        button_step_spec(state, pressed, call_time, long_press_ms, double_press_ms).1 is Some,
    ensures
        button_step_spec(state, pressed, call_time, long_press_ms, double_press_ms).0
            == ButtonHandlerState::NoPress,
{
}

/// Holding the button down never produces an event, however long it is held.
pub proof fn lemma_holding_emits_nothing(
    state: ButtonHandlerState,
    call_time: u64,
    long_press_ms: u32,
    double_press_ms: u32,
)
    requires
        state is FirstDown || state is SecondDown,
    ensures
        button_step_spec(state, true, call_time, long_press_ms, double_press_ms) == (state, None::<GlobEvent>),
{
}

/// A press held longer than the long press threshold is a long press when
/// it is released.
pub proof fn lemma_long_hold_is_long_press(
    down_time: u64,
    release_time: u64,
    long_press_ms: u32,
    double_press_ms: u32,
)
    requires
        release_time - down_time > long_press_ms * 1000,
    ensures
        button_step_spec(
            ButtonHandlerState::FirstDown(down_time),
            false,
            release_time,
            long_press_ms,
            double_press_ms,
        ) == (ButtonHandlerState::NoPress, Some(GlobEvent::ButtonLongPress)),
{
}

/// A press released within the long press threshold and not followed by a
/// second press before the double press threshold runs out is a short press.
pub proof fn lemma_quick_press_is_short_press(
    down_time: u64,
    release_time: u64,
    later: u64,
    long_press_ms: u32,
    double_press_ms: u32,
)
    requires
        release_time - down_time <= long_press_ms * 1000,
        later - release_time > double_press_ms * 1000,
    ensures
        button_step_spec(
            ButtonHandlerState::FirstDown(down_time),
            false,
            release_time,
            long_press_ms,
            double_press_ms,
        ) == (ButtonHandlerState::FirstUp(release_time), None::<GlobEvent>),
        button_step_spec(
            ButtonHandlerState::FirstUp(release_time),
            false,
            later,
            long_press_ms,
            double_press_ms,
        ) == (ButtonHandlerState::NoPress, Some(GlobEvent::ButtonShortPress)),
{
}

/// The second press of a double press decides between a double and a long
/// press by the long press threshold alone: released within it, it is a
/// double press, held longer, a long press, whatever the double press
/// threshold.
pub proof fn lemma_second_press_release(
    down_time: u64,
    release_time: u64,
    long_press_ms: u32,
    double_press_ms: u32,
)
    ensures
        release_time - down_time <= long_press_ms * 1000 ==> button_step_spec(
            ButtonHandlerState::SecondDown(down_time),
            false,
            release_time,
            long_press_ms,
            double_press_ms,
        ) == (ButtonHandlerState::NoPress, Some(GlobEvent::ButtonDoublePress)),
        release_time - down_time > long_press_ms * 1000 ==> button_step_spec(
            ButtonHandlerState::SecondDown(down_time),
            false,
            release_time,
            long_press_ms,
            double_press_ms,
        ) == (ButtonHandlerState::NoPress, Some(GlobEvent::ButtonLongPress)),
{
}

/// A second press within the double press threshold after a release starts
/// the second half of a double press, stamped with its own time.
pub proof fn lemma_quick_second_press(
    release_time: u64,
    press_time: u64,
    long_press_ms: u32,
    double_press_ms: u32,
)
    requires
        press_time - release_time <= double_press_ms * 1000,
    ensures
        button_step_spec(
            ButtonHandlerState::FirstUp(release_time),
            true,
            press_time,
            long_press_ms,
            double_press_ms,
        ) == (ButtonHandlerState::SecondDown(press_time), None::<GlobEvent>),
        button_step_spec(
            ButtonHandlerState::FirstUp(release_time),
            false,
            press_time,
            long_press_ms,
            double_press_ms,
        ) == (ButtonHandlerState::FirstUp(release_time), None::<GlobEvent>),
{
}

/// From idle, a press starts a gesture stamped with its time and a released
/// button stays idle; neither produces an event.
pub proof fn lemma_idle_press_starts_gesture(call_time: u64, long_press_ms: u32, double_press_ms: u32)
    ensures
        button_step_spec(ButtonHandlerState::NoPress, true, call_time, long_press_ms, double_press_ms)
            == (ButtonHandlerState::FirstDown(call_time), None::<GlobEvent>),
        button_step_spec(ButtonHandlerState::NoPress, false, call_time, long_press_ms, double_press_ms)
            == (ButtonHandlerState::NoPress, None::<GlobEvent>),
{
}

/// Turns the samples of a button into short, long and double press events.
pub struct ButtonHandler<BTN> {
    button: BTN,
    state: ButtonHandlerState,
}

impl<BTN: Button> ButtonHandler<BTN> {
    /// The current stage of the press detection.
    pub closed spec fn state_spec(&self) -> ButtonHandlerState {
        self.state
    }

    /// The button that is sampled.
    pub closed spec fn button_spec(&self) -> BTN {
        self.button
    }

    pub fn new(button: BTN) -> (r: Self)
        ensures
            r.state_spec() == ButtonHandlerState::NoPress,
            r.button_spec() == button,
    {
        ButtonHandler { button, state: ButtonHandlerState::NoPress }
    }

    /// The current stage of the press detection.
    pub fn state(&self) -> (r: ButtonHandlerState)
        ensures
            r == self.state_spec(),
    {
        self.state
    }

    /// Whether `update` may be called at `call_time`: the current stage did
    /// not start after `call_time` and the threshold it reads, scaled to
    /// microseconds, fits in 32 bits.
    pub fn can_update(&self, call_time: u64, params: &ParameterManager) -> (r: bool)
        ensures
            r == button_step_defined(
                self.state_spec(),
                false,
                call_time,
                params.value_spec::<LongPressThresholdMs>(),
                params.value_spec::<DoublePressThresholdMs>(),
            ),
    {
        let long_press_ms = params.get::<LongPressThresholdMs>();
        let double_press_ms = params.get::<DoublePressThresholdMs>();
        match self.state {
            ButtonHandlerState::NoPress => true,
            ButtonHandlerState::FirstDown(t) => t <= call_time && long_press_ms.checked_mul(1000).is_some(),
            ButtonHandlerState::FirstUp(t) => t <= call_time && double_press_ms.checked_mul(1000).is_some(),
            ButtonHandlerState::SecondDown(t) => t <= call_time && long_press_ms.checked_mul(1000).is_some(),
        }
    }

    /// Samples the button at `call_time` (microseconds) and queues the press
    /// event that the sample completes, if any; the sample is the one the
    /// button's read returned. The thresholds are the
    /// `LongPressThresholdMs` and `DoublePressThresholdMs` parameters.
    pub fn update(
        &mut self,
        call_time: u64,
        queue: &mut EventQueue,
        params: &ParameterManager,
    ) -> (r: Result<(), ButtonHandlerError>)
        requires
            button_step_defined(
                old(self).state_spec(),
                false,
                call_time,
                params.value_spec::<LongPressThresholdMs>(),
                params.value_spec::<DoublePressThresholdMs>(),
            ),
        ensures
            exists|pressed: bool|
                #[trigger] button_update_spec(
                    old(self).state_spec(),
                    pressed,
                    call_time,
                    params.value_spec::<LongPressThresholdMs>(),
                    params.value_spec::<DoublePressThresholdMs>(),
                    final(self).state_spec(),
                    queued_events(*old(queue)),
                    queued_events(*final(queue)),
                    r,
                ) && old(self).button_spec().is_pressed_effect(&final(self).button_spec(), pressed),
    {
        let long_press_ms = params.get::<LongPressThresholdMs>();
        let double_press_ms = params.get::<DoublePressThresholdMs>();
        let currently_pressed = self.button.is_pressed();
        let (next_state, event_to_send) = button_step(
            self.state,
            currently_pressed,
            call_time,
            long_press_ms,
            double_press_ms,
        );
        self.state = next_state;
        let ghost queue_before = queued_events(*queue);
        let result = match event_to_send {
            Some(event) => {
                if enqueue_event(queue, event).is_err() {
                    Err(ButtonHandlerError::QueueFull(event))
                } else {
                    Ok(())
                }
            },
            None => Ok(()),
        };
        assert(button_update_spec(
            old(self).state_spec(),
            currently_pressed,
            call_time,
            long_press_ms,
            double_press_ms,
            self.state,
            queue_before,
            queued_events(*queue),
            result,
        ));
        result
    }
}

} // verus!
