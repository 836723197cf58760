//! Decisions made by the parameter slider: how its fill bar and its labels are laid out, how a
//! dragged value snaps to steps, and how the slider reacts to input events.

use vstd::prelude::*;

verus! {

/// How a parameter slider displays its value.
#[derive(Debug, Clone, Copy, PartialEq, Eq, Structural)]
pub enum ParamSliderStyle {
    /// Fill from the default value when it lies around the middle of the range, else from the left.
    Centered,
    /// Always fill the bar starting from the left.
    FromLeft,
    /// Show the current step instead of filling a portion of the bar.
    CurrentStep { even: bool },
    /// Like `CurrentStep`, but overlays a label over every step.
    CurrentStepLabeled { even: bool },
}

/// How the filled portion of a slider's bar is laid out.
#[derive(Debug, Clone, Copy, PartialEq, Eq, Structural)]
pub enum FillMode {
    /// From the default value to the current value.
    FromDefault,
    /// From the left edge to the current value.
    FromLeft,
    /// The current step's segment, with every step given an equal share of the bar.
    EvenStep,
    /// The segment between the neighbouring steps that the parameter itself reports.
    ParamStep,
}

/// The fill layout for a style. `stepped` tells whether the parameter has a step count, and
/// `default_centered` whether its default normalized value lies in `[0.45, 0.55]`.
pub open spec fn spec_fill_mode(style: ParamSliderStyle, stepped: bool, default_centered: bool) -> FillMode {
    match style {
        ParamSliderStyle::Centered => if !stepped && default_centered {
            FillMode::FromDefault
        } else {
            FillMode::FromLeft
        },
        ParamSliderStyle::FromLeft => FillMode::FromLeft,
        ParamSliderStyle::CurrentStep { even } => if even && stepped {
            FillMode::EvenStep
        } else {
            FillMode::ParamStep
        },
        ParamSliderStyle::CurrentStepLabeled { even } => if even && stepped {
            FillMode::EvenStep
        } else {
            FillMode::ParamStep
        },
    }
}

/// How the bar is filled, by style: the left-filling style fills from the left whatever the
/// parameter; only the centered style on a continuous parameter with a centred default fills from
/// the default; only the stepped styles draw a step's segment, evenly sized exactly when the style
/// is even and the parameter stepped.
pub proof fn lemma_fill_mode_by_style()
    ensures
        forall|stepped: bool, centered: bool|
            #[trigger] spec_fill_mode(ParamSliderStyle::FromLeft, stepped, centered)
                == FillMode::FromLeft,
        forall|stepped: bool, centered: bool|
            #[trigger] spec_fill_mode(ParamSliderStyle::Centered, stepped, centered) == (if !stepped
                && centered {
                FillMode::FromDefault
            } else {
                FillMode::FromLeft
            }),
        forall|style: ParamSliderStyle, stepped: bool, centered: bool|
            (#[trigger] spec_fill_mode(style, stepped, centered) is EvenStep
                || spec_fill_mode(style, stepped, centered) is ParamStep) <==> (style is CurrentStep
                || style is CurrentStepLabeled),
        forall|style: ParamSliderStyle, stepped: bool, centered: bool|
            #[trigger] spec_fill_mode(style, stepped, centered) is EvenStep <==> (spec_even_stepped(
                style,
            ) && stepped),
{
}

/// Chooses how the fill bar is laid out: from the default value only for the centered style on a
/// continuous parameter whose default lies around the middle, evenly per step for the even
/// stepped styles on a stepped parameter, and from the left or by the parameter's own steps
/// otherwise.
pub fn fill_mode(style: ParamSliderStyle, step_count: Option<usize>, default_centered: bool) -> (m:
    FillMode)
    ensures
        m == spec_fill_mode(style, step_count is Some, default_centered),
        style is FromLeft ==> m == FillMode::FromLeft,
        (m is EvenStep || m is ParamStep) ==> (style is CurrentStep || style is CurrentStepLabeled),
        m is FromDefault <==> (style is Centered && step_count is None && default_centered),
        m is EvenStep <==> (spec_even_stepped(style) && step_count is Some),
{
    let stepped = step_count.is_some();
    match style {
        ParamSliderStyle::Centered => if !stepped && default_centered {
            FillMode::FromDefault
        } else {
            FillMode::FromLeft
        },
        ParamSliderStyle::FromLeft => FillMode::FromLeft,
        ParamSliderStyle::CurrentStep { even } => if even && stepped {
            FillMode::EvenStep
        } else {
            FillMode::ParamStep
        },
        ParamSliderStyle::CurrentStepLabeled { even } => if even && stepped {
            FillMode::EvenStep
        } else {
            FillMode::ParamStep
        },
    }
}

/// Whether the slider draws the modulation offset: not for the stepped styles, where it would
/// mean nothing.
pub fn shows_modulation(style: ParamSliderStyle) -> (r: bool)
    ensures
        r == (style is Centered || style is FromLeft),
{
    match style {
        ParamSliderStyle::Centered | ParamSliderStyle::FromLeft => true,
        _ => false,
    }
}

/// Whether a style spreads the steps evenly over the bar.
pub open spec fn spec_even_stepped(style: ParamSliderStyle) -> bool {
    style == ParamSliderStyle::CurrentStep { even: true } || style
        == ParamSliderStyle::CurrentStepLabeled { even: true }
}

/// The step count to which a dragged value is snapped: with an even stepped style and a stepped
/// parameter, the dragged position is remapped so that every value owns an equal part of the
/// bar; otherwise the position is used as it is.
pub fn drag_snap_steps(style: ParamSliderStyle, step_count: Option<usize>) -> (r: Option<usize>)
    ensures
        r == (if spec_even_stepped(style) {
            step_count
        } else {
            None::<usize>
        }),
{
    match style {
        ParamSliderStyle::CurrentStep { even: true }
        | ParamSliderStyle::CurrentStepLabeled { even: true } => step_count,
        _ => None,
    }
}

/// What the slider shows as its text.
#[derive(Debug, Clone, Copy, PartialEq, Eq, Structural)]
pub enum LabelLayout {
    /// One label per value of a stepped parameter: `steps + 1` labels, at the normalized values
    /// `i / steps`.
    EveryStep { steps: usize },
    /// A single label: the fixed label if one was set, else the formatted value.
    Single,
}

/// Chooses the label layout: every step labelled for the labelled stepped style on a stepped
/// parameter, a single label otherwise.
pub fn label_layout(style: ParamSliderStyle, step_count: Option<usize>) -> (r: LabelLayout)
    ensures
        r == (match (style, step_count) {
            (ParamSliderStyle::CurrentStepLabeled { .. }, Some(n)) => LabelLayout::EveryStep {
                steps: n,
            },
            _ => LabelLayout::Single,
        }),
{
    match (style, step_count) {
        (ParamSliderStyle::CurrentStepLabeled { .. }, Some(n)) => LabelLayout::EveryStep { steps: n },
        _ => LabelLayout::Single,
    }
}

/// The modifier keys held during a pointer press.
#[derive(Debug, Clone, Copy, PartialEq, Eq, Structural)]
pub struct PressModifiers {
    pub alt: bool,
    pub command: bool,
    pub shift: bool,
}

/// An input event as the slider sees it.
#[derive(Debug, Clone, Copy, PartialEq, Eq, Structural)]
pub enum SliderEvent {
    /// The text box was closed without a value.
    CancelTextInput,
    /// The text box submitted a string; `parsed` tells whether the parameter accepted it.
    TextInput { parsed: bool },
    /// A left press, or a left triple click.
    PrimaryPress { modifiers: PressModifiers },
    /// A left double click, or a right press, double click or triple click.
    ResetPress,
    /// The left button was released.
    PrimaryRelease,
    /// The pointer moved; `shift` tells whether Shift is held.
    PointerMove { shift: bool },
    /// Shift was released. During a granular drag this snaps the value back to the pointer's
    /// on-screen position, as a plain drag would set it.
    ShiftReleased,
    /// The wheel scrolled. `whole_lines` is the integer part, toward zero, of the lines not yet
    /// turned into steps plus this event's lines; `finer` asks for finer steps (Shift held).
    Scroll { whole_lines: i64, finer: bool },
    /// Any other event.
    Other,
}

/// What the slider asks its host view to do, in order.
#[derive(Debug, Clone, Copy, PartialEq, Eq, Structural)]
pub enum SliderAction {
    /// Show or hide the text box.
    SetTextInputActive(bool),
    /// Mark the view as active or inactive.
    SetActive(bool),
    /// Capture the pointer.
    Capture,
    /// Release the pointer.
    Release,
    /// Take keyboard focus, so that key releases arrive.
    Focus,
    /// Start an automation gesture.
    BeginGesture,
    /// End an automation gesture.
    EndGesture,
    /// Set the parameter to its default value.
    SetToDefault,
    /// Set the parameter to the value parsed from the text box.
    SetToParsed,
    /// Record the pointer position and the current value as the start of a granular drag.
    StartGranular,
    /// Set the parameter from the pointer position, remapped for the even stepped styles.
    DragToPointer,
    /// Set the parameter from the granular drag's start plus a tenth of the pointer's travel.
    DragGranular,
    /// Add this event's lines to the lines not yet turned into steps.
    AddScroll,
    /// Move the parameter `count` steps up or down, one line of scroll each.
    ScrollSteps { up: bool, count: u64, finer: bool },
}

/// Whether an action changes the parameter's value.
pub open spec fn sets_value(a: SliderAction) -> bool {
    a is SetToDefault || a is SetToParsed || a is DragToPointer || a is DragGranular
        || a is ScrollSteps
}

/// The slider's interaction state: everything its event handling decides on.
#[derive(Debug, Clone, Copy, PartialEq, Eq, Structural)]
pub struct SliderInteraction {
    /// A drag is in progress.
    pub drag_active: bool,
    /// The drag in progress is granular (Shift held).
    pub granular_drag: bool,
    /// The text box replaces the slider.
    pub text_input_active: bool,
    /// Scroll events change the value.
    pub use_scroll_wheel: bool,
}

/// The state, the actions and whether the event is consumed, after one event.
pub open spec fn spec_handle(s: SliderInteraction, e: SliderEvent) -> (
    SliderInteraction,
    Seq<SliderAction>,
    bool,
) {
    match e {
        SliderEvent::CancelTextInput => (
            SliderInteraction { text_input_active: false, ..s },
            seq![SliderAction::SetTextInputActive(false), SliderAction::SetActive(false)],
            true,
        ),
        SliderEvent::TextInput { parsed } => (
            SliderInteraction { text_input_active: false, ..s },
            (if parsed {
                seq![
                    SliderAction::BeginGesture,
                    SliderAction::SetToParsed,
                    SliderAction::EndGesture,
                ]
            } else {
                Seq::empty()
            }).push(SliderAction::SetTextInputActive(false)),
            true,
        ),
        SliderEvent::PrimaryPress { modifiers } => if modifiers.alt {
            (
                SliderInteraction { text_input_active: true, ..s },
                seq![SliderAction::SetTextInputActive(true), SliderAction::SetActive(true)],
                true,
            )
        } else if modifiers.command {
            (
                s,
                seq![
                    SliderAction::BeginGesture,
                    SliderAction::SetToDefault,
                    SliderAction::EndGesture,
                ],
                true,
            )
        } else if !s.text_input_active {
            (
                SliderInteraction { drag_active: true, granular_drag: modifiers.shift, ..s },
                seq![
                    SliderAction::Capture,
                    SliderAction::Focus,
                    SliderAction::SetActive(true),
                    SliderAction::BeginGesture,
                    if modifiers.shift {
                        SliderAction::StartGranular
                    } else {
                        SliderAction::DragToPointer
                    },
                ],
                true,
            )
        } else {
            (s, Seq::empty(), true)
        },
        SliderEvent::ResetPress => (
            s,
            seq![SliderAction::BeginGesture, SliderAction::SetToDefault, SliderAction::EndGesture],
            true,
        ),
        SliderEvent::PrimaryRelease => if s.drag_active {
            (
                SliderInteraction { drag_active: false, ..s },
                seq![SliderAction::Release, SliderAction::SetActive(false), SliderAction::EndGesture],
                true,
            )
        } else {
            (s, Seq::empty(), false)
        },
        SliderEvent::PointerMove { shift } => if !s.drag_active {
            (s, Seq::empty(), false)
        } else if shift {
            (
                SliderInteraction { granular_drag: true, ..s },
                if s.granular_drag {
                    seq![SliderAction::DragGranular]
                } else {
                    seq![SliderAction::StartGranular, SliderAction::DragGranular]
                },
                false,
            )
        } else {
            (SliderInteraction { granular_drag: false, ..s }, seq![SliderAction::DragToPointer], false)
        },
        SliderEvent::ShiftReleased => if s.drag_active && s.granular_drag {
            (SliderInteraction { granular_drag: false, ..s }, seq![SliderAction::DragToPointer], false)
        } else {
            (s, Seq::empty(), false)
        },
        SliderEvent::Scroll { whole_lines, finer } => if !s.use_scroll_wheel {
            (s, Seq::empty(), false)
        } else if whole_lines == 0 {
            (s, seq![SliderAction::AddScroll], true)
        } else {
            let steps = SliderAction::ScrollSteps {
                up: whole_lines > 0,
                count: (if whole_lines > 0 {
                    whole_lines as int
                } else {
                    -whole_lines
                }) as u64,
                finer,
            };
            (
                s,
                if s.drag_active {
                    seq![SliderAction::AddScroll, steps]
                } else {
                    seq![
                        SliderAction::AddScroll,
                        SliderAction::BeginGesture,
                        steps,
                        SliderAction::EndGesture,
                    ]
                },
                true,
            )
        },
        SliderEvent::Other => (s, Seq::empty(), false),
    }
}

/// The change in the number of open automation gestures over a run of actions.
pub open spec fn gesture_delta(actions: Seq<SliderAction>) -> int
    decreases actions.len(),
{
    if actions.len() == 0 {
        0
    } else {
        gesture_delta(actions.drop_last()) + (if actions.last() is BeginGesture {
            1int
        } else if actions.last() is EndGesture {
            -1int
        } else {
            0int
        })
    }
}

/// Whether an event starts a drag in a state.
pub open spec fn starts_drag(s: SliderInteraction, e: SliderEvent) -> bool {
    match e {
        SliderEvent::PrimaryPress { modifiers } => !modifiers.alt && !modifiers.command
            && !s.text_input_active,
        _ => false,
    }
}

/// The state and all actions after a series of events.
pub open spec fn spec_run(s: SliderInteraction, events: Seq<SliderEvent>) -> (
    SliderInteraction,
    Seq<SliderAction>,
)
    decreases events.len(),
{
    if events.len() == 0 {
        (s, Seq::empty())
    } else {
        let prev = spec_run(s, events.drop_last());
        let step = spec_handle(prev.0, events.last());
        (step.0, prev.1 + step.1)
    }
}

/// No event of the series presses to start a drag while a drag is already in progress.
pub open spec fn no_press_while_dragging(s: SliderInteraction, events: Seq<SliderEvent>) -> bool {
    forall|i: int|
        0 <= i < events.len() ==> !(spec_run(s, events.take(i)).0.drag_active && starts_drag(
            spec_run(s, events.take(i)).0,
            #[trigger] events[i],
        ))
}

proof fn lemma_gesture_delta_concat(a: Seq<SliderAction>, b: Seq<SliderAction>)
    ensures
        gesture_delta(a + b) == gesture_delta(a) + gesture_delta(b),
    decreases b.len(),
{
    if b.len() == 0 {
        assert(a + b == a);
    } else {
        lemma_gesture_delta_concat(a, b.drop_last());
        assert((a + b).drop_last() == a + b.drop_last());
        assert((a + b).last() == b.last());
    }
}

proof fn lemma_step_gesture_delta(s: SliderInteraction, e: SliderEvent)
    requires
        !(s.drag_active && starts_drag(s, e)),
    ensures
        gesture_delta(spec_handle(s, e).1) == (if spec_handle(s, e).0.drag_active {
            1int
        } else {
            0int
        }) - (if s.drag_active {
            1int
        } else {
            0int
        }),
{
    reveal_with_fuel(gesture_delta, 6);
}

/// Automation gestures stay balanced: over any series of events that never presses to start a
/// drag while one is in progress, the slider begins exactly as many gestures as it ends, except
/// for the one gesture that a drag still in progress holds open.
pub proof fn lemma_gestures_balanced(s: SliderInteraction, events: Seq<SliderEvent>)
    requires
        !s.drag_active,
        no_press_while_dragging(s, events),
    ensures
        gesture_delta(spec_run(s, events).1) == (if spec_run(s, events).0.drag_active {
            1int
        } else {
            0int
        }),
    decreases events.len(),
{
    if events.len() > 0 {
        let init = events.drop_last();
        assert forall|i: int| 0 <= i < init.len() implies !(spec_run(s, init.take(i)).0.drag_active
            && starts_drag(spec_run(s, init.take(i)).0, #[trigger] init[i])) by {
            assert(init.take(i) == events.take(i));
            assert(init[i] == events[i]);
        }
        lemma_gestures_balanced(s, init);
        let k = init.len() as int;
        assert(events.take(k) == init);
        assert(events[k] == events.last());
        let prev = spec_run(s, init);
        lemma_step_gesture_delta(prev.0, events.last());
        lemma_gesture_delta_concat(prev.1, spec_handle(prev.0, events.last()).1);
    }
}

/// Every value change that the slider asks for is wrapped in an automation gesture: it comes
/// either during a drag, which holds a gesture open, or after a gesture begun earlier in the same
/// response and not yet ended.
pub proof fn lemma_value_changes_within_gesture(s: SliderInteraction, e: SliderEvent)
    ensures
        forall|i: int|
            0 <= i < spec_handle(s, e).1.len() && sets_value(#[trigger] spec_handle(s, e).1[i])
                ==> (if s.drag_active {
                1int
            } else {
                0int
            }) + gesture_delta(spec_handle(s, e).1.take(i)) > 0,
{
    let acts = spec_handle(s, e).1;
    assert forall|i: int| 0 <= i < acts.len() && sets_value(#[trigger] acts[i]) implies (if s.drag_active {
        1int
    } else {
        0int
    }) + gesture_delta(acts.take(i)) > 0 by {
        reveal_with_fuel(gesture_delta, 6);
        if i == 0 {
            assert(acts.take(0) =~= Seq::<SliderAction>::empty());
        } else if i == 1 {
            assert(acts.take(1) =~= seq![acts[0]]);
        } else if i == 2 {
            assert(acts.take(2) =~= seq![acts[0], acts[1]]);
        } else if i == 3 {
            assert(acts.take(3) =~= seq![acts[0], acts[1], acts[2]]);
        } else {
            assert(acts.take(4) =~= seq![acts[0], acts[1], acts[2], acts[3]]);
        }
    }
}

/// Releasing Shift during a granular drag snaps the value back to the pointer's on-screen
/// position: the slider does exactly what a plain drag move does, remap for the even stepped
/// styles included, and leaves the same state behind.
pub proof fn lemma_shift_release_snaps_like_drag(s: SliderInteraction)
    requires
        s.drag_active,
        s.granular_drag,
    ensures
        spec_handle(s, SliderEvent::ShiftReleased).0 == spec_handle(
            s,
            SliderEvent::PointerMove { shift: false },
        ).0,
        spec_handle(s, SliderEvent::ShiftReleased).1 == spec_handle(
            s,
            SliderEvent::PointerMove { shift: false },
        ).1,
{
}

/// Whether no action of a response changes the parameter's value.
pub open spec fn changes_nothing(a: Seq<SliderAction>) -> bool {
    forall|i: int| 0 <= i < a.len() ==> !sets_value(#[trigger] a[i])
}

/// What a wheel scroll does: a slider that ignores the wheel does nothing and lets the event
/// through; one that listens records the lines and, for every whole line, moves the value one
/// step, up for lines scrolled up and down for lines scrolled down, as many steps as there are
/// whole lines, whether or not a drag is in progress. It never changes the interaction state.
pub proof fn lemma_scroll_moves_by_whole_lines(s: SliderInteraction, whole_lines: i64, finer: bool)
    ensures
        ({
            let r = spec_handle(s, SliderEvent::Scroll { whole_lines, finer });
            let steps = SliderAction::ScrollSteps {
                up: 0 < whole_lines,
                count: (if 0 < whole_lines {
                    whole_lines as int
                } else {
                    -whole_lines
                }) as u64,
                finer,
            };
            &&& r.0 == s
            &&& !s.use_scroll_wheel ==> r.1.len() == 0 && !r.2
            &&& s.use_scroll_wheel ==> r.2 && r.1.len() > 0 && r.1[0] == SliderAction::AddScroll
            &&& (s.use_scroll_wheel && whole_lines == 0) ==> changes_nothing(r.1)
            &&& (s.use_scroll_wheel && whole_lines != 0) ==> r.1.contains(steps)
            &&& forall|i: int|
                0 <= i < r.1.len() && (#[trigger] r.1[i]) is ScrollSteps ==> r.1[i] == steps
        }),
{
    let r = spec_handle(s, SliderEvent::Scroll { whole_lines, finer });
    let steps = SliderAction::ScrollSteps {
        up: 0 < whole_lines,
        count: (if 0 < whole_lines {
            whole_lines as int
        } else {
            -whole_lines
        }) as u64,
        finer,
    };
    if s.use_scroll_wheel && whole_lines != 0 {
        if s.drag_active {
            assert(r.1[1] == steps);
        } else {
            assert(r.1[2] == steps);
        }
    }
}

/// What a press does. Alt opens the text box without touching the value or the drag; otherwise
/// Command sets the default value; otherwise, with the text box closed, the press starts a drag,
/// granular when Shift is held, and either records the granular start or moves the value to the
/// pointer; with the text box open a plain press does nothing. Every press is consumed.
pub proof fn lemma_press_effects(s: SliderInteraction, modifiers: PressModifiers)
    ensures
        ({
            let r = spec_handle(s, SliderEvent::PrimaryPress { modifiers });
            &&& r.2
            &&& r.0.use_scroll_wheel == s.use_scroll_wheel
            &&& modifiers.alt ==> r.0.text_input_active && r.0.drag_active == s.drag_active
                && changes_nothing(r.1) && r.1.contains(SliderAction::SetTextInputActive(true))
            &&& (!modifiers.alt && modifiers.command) ==> r.0 == s && r.1.contains(
                SliderAction::SetToDefault,
            ) && (forall|i: int|
                0 <= i < r.1.len() && sets_value(#[trigger] r.1[i]) ==> r.1[i]
                    == SliderAction::SetToDefault)
            &&& (!modifiers.alt && !modifiers.command && !s.text_input_active) ==> {
                &&& r.0.drag_active
                &&& r.0.granular_drag == modifiers.shift
                &&& r.1.contains(SliderAction::BeginGesture)
                &&& r.1.contains(SliderAction::Capture)
                &&& modifiers.shift ==> r.1.contains(SliderAction::StartGranular) && changes_nothing(
                    r.1,
                )
                &&& !modifiers.shift ==> r.1.contains(SliderAction::DragToPointer)
            }
            &&& (!modifiers.alt && !modifiers.command && s.text_input_active) ==> r.0 == s
                && r.1.len() == 0
        }),
{
    let r = spec_handle(s, SliderEvent::PrimaryPress { modifiers });
    if modifiers.alt {
        assert(r.1[0] == SliderAction::SetTextInputActive(true));
    } else if modifiers.command {
        assert(r.1[1] == SliderAction::SetToDefault);
    } else if !s.text_input_active {
        assert(r.1[3] == SliderAction::BeginGesture);
        assert(r.1[0] == SliderAction::Capture);
        assert(r.1[4] == (if modifiers.shift {
            SliderAction::StartGranular
        } else {
            SliderAction::DragToPointer
        }));
    }
}

/// What the other pointer and text events do. A reset click sets the default value; a release
/// ends a drag in progress and is otherwise let through; a move drags the value only during a
/// drag, granularly while Shift is held; releasing Shift mid granular drag ends the granular
/// part; text entry sets the parsed value if there is one and closes the text box either way;
/// cancelling closes the text box; other events do nothing.
pub proof fn lemma_pointer_and_text_effects(s: SliderInteraction, e: SliderEvent)
    ensures
        ({
            let r = spec_handle(s, e);
            &&& r.0.use_scroll_wheel == s.use_scroll_wheel
            &&& e is ResetPress ==> r.0 == s && r.2 && r.1.contains(SliderAction::SetToDefault)
                && (forall|i: int|
                0 <= i < r.1.len() && sets_value(#[trigger] r.1[i]) ==> r.1[i]
                    == SliderAction::SetToDefault)
            &&& (e is PrimaryRelease && s.drag_active) ==> !r.0.drag_active && r.2 && r.1.contains(
                SliderAction::EndGesture,
            ) && changes_nothing(r.1)
            &&& (e is PrimaryRelease && !s.drag_active) ==> r.0 == s && !r.2 && r.1.len() == 0
            &&& (e is PointerMove && !s.drag_active) ==> r.0 == s && !r.2 && r.1.len() == 0
            &&& (e is PointerMove && s.drag_active && e->shift) ==> r.0.drag_active
                && r.0.granular_drag && !r.2 && r.1.len() > 0 && r.1.last()
                == SliderAction::DragGranular
            &&& (e is PointerMove && s.drag_active && !e->shift) ==> r.0.drag_active
                && !r.0.granular_drag && !r.2 && r.1.len() == 1 && r.1[0]
                == SliderAction::DragToPointer
            &&& (e is ShiftReleased && s.drag_active && s.granular_drag) ==> r.0.drag_active
                && !r.0.granular_drag && !r.2 && r.1.len() == 1 && r.1[0]
                == SliderAction::DragToPointer
            &&& (e is ShiftReleased && !(s.drag_active && s.granular_drag)) ==> r.0 == s && !r.2
                && r.1.len() == 0
            &&& e is TextInput ==> !r.0.text_input_active && r.0.drag_active == s.drag_active
                && r.2 && r.1.contains(SliderAction::SetTextInputActive(false))
            &&& (e is TextInput && e->parsed) ==> r.1.contains(SliderAction::SetToParsed)
            &&& (e is TextInput && !e->parsed) ==> changes_nothing(r.1)
            &&& e is CancelTextInput ==> !r.0.text_input_active && r.0.drag_active == s.drag_active
                && r.2 && changes_nothing(r.1)
            &&& e is Other ==> r.0 == s && !r.2 && r.1.len() == 0
        }),
{
    let r = spec_handle(s, e);
    match e {
        SliderEvent::ResetPress => {
            assert(r.1[1] == SliderAction::SetToDefault);
        },
        SliderEvent::PrimaryRelease => {
            if s.drag_active {
                assert(r.1[2] == SliderAction::EndGesture);
            }
        },
        SliderEvent::TextInput { parsed } => {
            if parsed {
                assert(r.1[1] == SliderAction::SetToParsed);
                assert(r.1[3] == SliderAction::SetTextInputActive(false));
            } else {
                assert(r.1[0] == SliderAction::SetTextInputActive(false));
            }
        },
        _ => {},
    }
}

/// The actions a slider asks for in answer to one event, and whether the event is consumed.
pub struct SliderResponse {
    pub actions: Vec<SliderAction>,
    pub consumed: bool,
}

impl SliderInteraction {
    /// The state of a newly built slider: idle, showing the slider, listening to the wheel.
    pub fn new() -> (s: Self)
        ensures
            s == (SliderInteraction {
                drag_active: false,
                granular_drag: false,
                text_input_active: false,
                use_scroll_wheel: true,
            }),
    {
        SliderInteraction {
            drag_active: false,
            granular_drag: false,
            text_input_active: false,
            use_scroll_wheel: true,
        }
    }

    /// Stops listening to the scroll wheel.
    pub fn disable_scroll_wheel(&mut self)
        ensures
            *final(self) == (SliderInteraction { use_scroll_wheel: false, ..*old(self) }),
    {
        self.use_scroll_wheel = false;
    }

    /// Decides how the slider reacts to an input event: its next state, the actions to perform in
    /// order, and whether the event is consumed. Resetting the parameter or entering a text value
    /// never starts a drag.
    pub fn handle_event(&mut self, event: SliderEvent) -> (r: SliderResponse)
        ensures
            (*final(self), r.actions@, r.consumed) == spec_handle(*old(self), event),
            (event is ResetPress || event is TextInput || event is CancelTextInput)
                ==> final(self).drag_active == old(self).drag_active,
            final(self).use_scroll_wheel == old(self).use_scroll_wheel,
    {
        let mut actions: Vec<SliderAction> = Vec::new();
        let mut consumed = true;
        match event {
            SliderEvent::CancelTextInput => {
                self.text_input_active = false;
                actions.push(SliderAction::SetTextInputActive(false));
                actions.push(SliderAction::SetActive(false));
            },
            SliderEvent::TextInput { parsed } => {
                if parsed {
                    actions.push(SliderAction::BeginGesture);
                    actions.push(SliderAction::SetToParsed);
                    actions.push(SliderAction::EndGesture);
                }
                self.text_input_active = false;
                actions.push(SliderAction::SetTextInputActive(false));
            },
            SliderEvent::PrimaryPress { modifiers } => {
                if modifiers.alt {
                    self.text_input_active = true;
                    actions.push(SliderAction::SetTextInputActive(true));
                    actions.push(SliderAction::SetActive(true));
                } else if modifiers.command {
                    actions.push(SliderAction::BeginGesture);
                    actions.push(SliderAction::SetToDefault);
                    actions.push(SliderAction::EndGesture);
                } else if !self.text_input_active {
                    self.drag_active = true;
                    actions.push(SliderAction::Capture);
                    actions.push(SliderAction::Focus);
                    actions.push(SliderAction::SetActive(true));
                    actions.push(SliderAction::BeginGesture);
                    if modifiers.shift {
                        self.granular_drag = true;
                        actions.push(SliderAction::StartGranular);
                    } else {
                        self.granular_drag = false;
                        actions.push(SliderAction::DragToPointer);
                    }
                }
            },
            SliderEvent::ResetPress => {
                actions.push(SliderAction::BeginGesture);
                actions.push(SliderAction::SetToDefault);
                actions.push(SliderAction::EndGesture);
            },
            SliderEvent::PrimaryRelease => {
                if self.drag_active {
                    self.drag_active = false;
                    actions.push(SliderAction::Release);
                    actions.push(SliderAction::SetActive(false));
                    actions.push(SliderAction::EndGesture);
                } else {
                    consumed = false;
                }
            },
            SliderEvent::PointerMove { shift } => {
                consumed = false;
                if self.drag_active {
                    if shift {
                        if !self.granular_drag {
                            self.granular_drag = true;
                            actions.push(SliderAction::StartGranular);
                        }
                        actions.push(SliderAction::DragGranular);
                    } else {
                        self.granular_drag = false;
                        actions.push(SliderAction::DragToPointer);
                    }
                }
            },
            SliderEvent::ShiftReleased => {
                consumed = false;
                if self.drag_active && self.granular_drag {
                    self.granular_drag = false;
                    actions.push(SliderAction::DragToPointer);
                }
            },
            SliderEvent::Scroll { whole_lines, finer } => {
                if !self.use_scroll_wheel {
                    consumed = false;
                } else {
                    actions.push(SliderAction::AddScroll);
                    if whole_lines != 0 {
                        let count: u64 = if whole_lines > 0 {
                            whole_lines as u64
                        } else if whole_lines == i64::MIN {
                            9223372036854775808u64
                        } else {
                            (-whole_lines) as u64
                        };
                        if !self.drag_active {
                            actions.push(SliderAction::BeginGesture);
                        }
                        actions.push(SliderAction::ScrollSteps { up: whole_lines > 0, count, finer });
                        if !self.drag_active {
                            actions.push(SliderAction::EndGesture);
                        }
                    }
                }
            },
            SliderEvent::Other => {
                consumed = false;
            },
        }
        SliderResponse { actions, consumed }
    }
}

} // verus!
