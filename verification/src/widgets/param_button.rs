//! Decisions made by the parameter button: a click toggles the parameter between its minimum and
//! maximum, and the scroll wheel switches it on or off one line at a time.

use vstd::prelude::*;

verus! {

/// An input event as the button sees it.
#[derive(Debug, Clone, Copy, PartialEq, Eq, Structural)]
pub enum ButtonEvent {
    /// A left press, double click or triple click; `currently_on` tells whether the parameter's
    /// unmodulated normalized value is at least one half.
    Press { currently_on: bool },
    /// The wheel scrolled. `whole_lines` is the integer part, toward zero, of the lines not yet
    /// turned into changes plus this event's lines.
    Scroll { whole_lines: i64 },
    /// Any other event.
    Other,
}

/// What the button asks its host view to do, in order.
#[derive(Debug, Clone, Copy, PartialEq, Eq, Structural)]
pub enum ButtonAction {
    /// Add this event's lines to the lines not yet turned into changes.
    AddScroll,
    /// Start an automation gesture.
    BeginGesture,
    /// Set the normalized value to one (`true`) or zero (`false`).
    SetValue(bool),
    /// Take one line off the scroll lines, scrolled up (`true`) or down (`false`).
    TakeScrollLine(bool),
    /// End an automation gesture.
    EndGesture,
}

/// The actions a button asks for in answer to one event, and whether the event is consumed.
pub struct ButtonResponse {
    pub actions: Vec<ButtonAction>,
    pub consumed: bool,
}

/// The actions, and whether the event is consumed, for a button that listens to the wheel or not.
pub open spec fn spec_button_handle(use_scroll_wheel: bool, e: ButtonEvent) -> (
    Seq<ButtonAction>,
    bool,
) {
    match e {
        ButtonEvent::Press { currently_on } => (
            seq![
                ButtonAction::BeginGesture,
                ButtonAction::SetValue(!currently_on),
                ButtonAction::EndGesture,
            ],
            true,
        ),
        ButtonEvent::Scroll { whole_lines } => if !use_scroll_wheel {
            (Seq::empty(), false)
        } else if whole_lines == 0 {
            (seq![ButtonAction::AddScroll], true)
        } else {
            (
                seq![
                    ButtonAction::AddScroll,
                    ButtonAction::BeginGesture,
                    ButtonAction::SetValue(whole_lines > 0),
                    ButtonAction::TakeScrollLine(whole_lines > 0),
                    ButtonAction::EndGesture,
                ],
                true,
            )
        },
        ButtonEvent::Other => (Seq::empty(), false),
    }
}

/// The button's interaction state.
#[derive(Debug, Clone, Copy, PartialEq, Eq, Structural)]
pub struct ButtonInteraction {
    /// Scroll events change the value.
    pub use_scroll_wheel: bool,
}

/// The value a click sets: the parameter's maximum when it is off, its minimum when it is on.
pub fn toggle_target(currently_on: bool) -> (on: bool)
    ensures
        on == !currently_on,
{
    !currently_on
}

impl ButtonInteraction {
    /// The state of a newly built button: it listens to the wheel.
    pub fn new() -> (s: Self)
        ensures
            s.use_scroll_wheel,
    {
        ButtonInteraction { use_scroll_wheel: true }
    }

    /// Stops listening to the scroll wheel.
    pub fn disable_scroll_wheel(&mut self)
        ensures
            !final(self).use_scroll_wheel,
    {
        self.use_scroll_wheel = false;
    }

    /// Decides how the button reacts to an input event. A click toggles the value inside its own
    /// gesture; a scroll of at least a whole line switches the value on (up) or off (down), one
    /// line per event.
    pub fn handle_event(&self, event: ButtonEvent) -> (r: ButtonResponse)
        ensures
            (r.actions@, r.consumed) == spec_button_handle(self.use_scroll_wheel, event),
    {
        let mut actions: Vec<ButtonAction> = Vec::new();
        let mut consumed = true;
        match event {
            ButtonEvent::Press { currently_on } => {
                actions.push(ButtonAction::BeginGesture);
                actions.push(ButtonAction::SetValue(toggle_target(currently_on)));
                actions.push(ButtonAction::EndGesture);
            },
            ButtonEvent::Scroll { whole_lines } => {
                if self.use_scroll_wheel {
                    actions.push(ButtonAction::AddScroll);
                    if whole_lines != 0 {
                        let up = whole_lines > 0;
                        actions.push(ButtonAction::BeginGesture);
                        actions.push(ButtonAction::SetValue(up));
                        actions.push(ButtonAction::TakeScrollLine(up));
                        actions.push(ButtonAction::EndGesture);
                    }
                } else {
                    consumed = false;
                }
            },
            ButtonEvent::Other => {
                consumed = false;
            },
        }
        ButtonResponse { actions, consumed }
    }
}

/// Every response of the button is a closed automation gesture: whenever it sets the value, it
/// begins a gesture first and ends it after, and it never leaves a gesture open.
pub proof fn lemma_button_gesture_wrapped(use_scroll_wheel: bool, e: ButtonEvent)
    ensures
        ({
            let acts = spec_button_handle(use_scroll_wheel, e).0;
            &&& acts.filter(|a: ButtonAction| a is BeginGesture).len() == acts.filter(
                |a: ButtonAction| a is EndGesture,
            ).len()
            &&& forall|i: int|
                0 <= i < acts.len() && #[trigger] acts[i] is SetValue ==> (exists|j: int|
                    0 <= j < i && acts[j] is BeginGesture) && (exists|k: int|
                    i < k < acts.len() && acts[k] is EndGesture)
        }),
{
    let acts = spec_button_handle(use_scroll_wheel, e).0;
    reveal_with_fuel(Seq::filter, 6);
    if acts.len() == 3 {
        assert(acts[0] is BeginGesture && acts[2] is EndGesture);
    } else if acts.len() == 5 {
        assert(acts[1] is BeginGesture && acts[4] is EndGesture);
    }
}

/// What the button does with each event. A click sets the opposite of the current state, and sets
/// nothing else. A wheel scroll of at least one whole line on a button that listens to the wheel
/// switches it on when scrolled up and off when scrolled down, and takes that line off in the
/// same direction; a smaller scroll only records the lines. A button that ignores the wheel, and
/// any other event, does nothing and lets the event through.
pub proof fn lemma_button_event_effects(use_scroll_wheel: bool, e: ButtonEvent)
    ensures
        ({
            let r = spec_button_handle(use_scroll_wheel, e);
            &&& e is Press ==> r.1 && r.0.contains(ButtonAction::SetValue(!e->currently_on)) && (
            forall|i: int|
                0 <= i < r.0.len() && (#[trigger] r.0[i]) is SetValue ==> r.0[i]
                    == ButtonAction::SetValue(!e->currently_on))
            &&& (e is Scroll && use_scroll_wheel && e->whole_lines != 0) ==> {
                &&& r.1
                &&& r.0.contains(ButtonAction::SetValue(e->whole_lines > 0))
                &&& r.0.contains(ButtonAction::TakeScrollLine(e->whole_lines > 0))
                &&& forall|i: int|
                    0 <= i < r.0.len() && (#[trigger] r.0[i]) is SetValue ==> r.0[i]
                        == ButtonAction::SetValue(e->whole_lines > 0)
                &&& forall|i: int|
                    0 <= i < r.0.len() && (#[trigger] r.0[i]) is TakeScrollLine ==> r.0[i]
                        == ButtonAction::TakeScrollLine(e->whole_lines > 0)
            }
            &&& (e is Scroll && use_scroll_wheel && e->whole_lines == 0) ==> r.1 && r.0.len() == 1
                && r.0[0] == ButtonAction::AddScroll
            &&& (e is Scroll && !use_scroll_wheel) ==> !r.1 && r.0.len() == 0
            &&& e is Other ==> !r.1 && r.0.len() == 0
        }),
{
    let r = spec_button_handle(use_scroll_wheel, e);
    match e {
        ButtonEvent::Press { currently_on } => {
            assert(r.0[1] == ButtonAction::SetValue(!currently_on));
        },
        ButtonEvent::Scroll { whole_lines } => {
            if use_scroll_wheel && whole_lines != 0 {
                assert(r.0[2] == ButtonAction::SetValue(whole_lines > 0));
                assert(r.0[3] == ButtonAction::TakeScrollLine(whole_lines > 0));
            }
        },
        ButtonEvent::Other => {},
    }
}

/// Two clicks in a row bring the parameter back where it was: the second click, seeing the value
/// the first one set, sets the opposite.
pub proof fn lemma_double_toggle_restores(use_scroll_wheel: bool, currently_on: bool)
    ensures
        ({
            let first = spec_button_handle(use_scroll_wheel, ButtonEvent::Press { currently_on }).0;
            let after_first = first[1]->SetValue_0;
            let second = spec_button_handle(
                use_scroll_wheel,
                ButtonEvent::Press { currently_on: after_first },
            ).0;
            second[1] == ButtonAction::SetValue(currently_on)
        }),
{
}

} // verus!
