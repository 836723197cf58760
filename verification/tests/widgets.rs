use vizia_plug::widgets::generic_ui::{generic_ui_style, visible_params};
use vizia_plug::widgets::param_button::{toggle_target, ButtonAction, ButtonEvent, ButtonInteraction};
use vizia_plug::widgets::param_slider::{
    drag_snap_steps, fill_mode, label_layout, shows_modulation, FillMode,
    LabelLayout, ParamSliderStyle, PressModifiers, SliderAction, SliderEvent, SliderInteraction,
};
use vizia_plug::widgets::peak_meter::{text_ticks, tick_marks, TickLabel, TickMark};

fn plain() -> PressModifiers {
    PressModifiers { alt: false, command: false, shift: false }
}

fn gesture_depth(actions: &[SliderAction]) -> i64 {
    actions
        .iter()
        .map(|a| match a {
            SliderAction::BeginGesture => 1,
            SliderAction::EndGesture => -1,
            _ => 0,
        })
        .sum()
}

#[test]
fn generic_ui_style_by_step_count() {
    assert_eq!(generic_ui_style(Some(0)), ParamSliderStyle::CurrentStepLabeled { even: true });
    assert_eq!(generic_ui_style(Some(1)), ParamSliderStyle::CurrentStepLabeled { even: true });
    assert_eq!(generic_ui_style(Some(2)), ParamSliderStyle::CurrentStep { even: true });
    assert_eq!(generic_ui_style(Some(3)), ParamSliderStyle::FromLeft);
    assert_eq!(generic_ui_style(None), ParamSliderStyle::Centered);
}

#[test]
fn fill_modes() {
    assert_eq!(fill_mode(ParamSliderStyle::Centered, None, true), FillMode::FromDefault);
    assert_eq!(fill_mode(ParamSliderStyle::Centered, None, false), FillMode::FromLeft);
    assert_eq!(fill_mode(ParamSliderStyle::Centered, Some(4), true), FillMode::FromLeft);
    assert_eq!(fill_mode(ParamSliderStyle::FromLeft, None, true), FillMode::FromLeft);
    assert_eq!(fill_mode(ParamSliderStyle::CurrentStep { even: true }, Some(3), false), FillMode::EvenStep);
    assert_eq!(fill_mode(ParamSliderStyle::CurrentStep { even: true }, None, false), FillMode::ParamStep);
    assert_eq!(fill_mode(ParamSliderStyle::CurrentStepLabeled { even: false }, Some(3), false), FillMode::ParamStep);
    assert_eq!(fill_mode(ParamSliderStyle::CurrentStepLabeled { even: true }, Some(1), true), FillMode::EvenStep);
}

#[test]
fn modulation_only_for_continuous_styles() {
    assert!(shows_modulation(ParamSliderStyle::Centered));
    assert!(shows_modulation(ParamSliderStyle::FromLeft));
    assert!(!shows_modulation(ParamSliderStyle::CurrentStep { even: false }));
    assert!(!shows_modulation(ParamSliderStyle::CurrentStepLabeled { even: true }));
}

#[test]
fn drag_snapping() {
    assert_eq!(drag_snap_steps(ParamSliderStyle::CurrentStep { even: true }, Some(4)), Some(4));
    assert_eq!(drag_snap_steps(ParamSliderStyle::CurrentStepLabeled { even: true }, Some(1)), Some(1));
    assert_eq!(drag_snap_steps(ParamSliderStyle::CurrentStep { even: true }, None), None);
    assert_eq!(drag_snap_steps(ParamSliderStyle::CurrentStep { even: false }, Some(4)), None);
    assert_eq!(drag_snap_steps(ParamSliderStyle::Centered, Some(4)), None);
}

#[test]
fn label_layouts() {
    assert_eq!(
        label_layout(ParamSliderStyle::CurrentStepLabeled { even: false }, Some(2)),
        LabelLayout::EveryStep { steps: 2 }
    );
    assert_eq!(label_layout(ParamSliderStyle::CurrentStepLabeled { even: true }, None), LabelLayout::Single);
    assert_eq!(label_layout(ParamSliderStyle::CurrentStep { even: true }, Some(2)), LabelLayout::Single);
    assert_eq!(label_layout(ParamSliderStyle::Centered, None), LabelLayout::Single);
}

#[test]
fn plain_press_starts_drag_and_release_ends_it() {
    let mut s = SliderInteraction::new();
    let r = s.handle_event(SliderEvent::PrimaryPress { modifiers: plain() });
    assert!(r.consumed);
    assert_eq!(
        r.actions,
        vec![
            SliderAction::Capture,
            SliderAction::Focus,
            SliderAction::SetActive(true),
            SliderAction::BeginGesture,
            SliderAction::DragToPointer,
        ]
    );
    assert!(s.drag_active && !s.granular_drag);
    let r = s.handle_event(SliderEvent::PointerMove { shift: false });
    assert!(!r.consumed);
    assert_eq!(r.actions, vec![SliderAction::DragToPointer]);
    let r = s.handle_event(SliderEvent::PrimaryRelease);
    assert!(r.consumed);
    assert_eq!(
        r.actions,
        vec![SliderAction::Release, SliderAction::SetActive(false), SliderAction::EndGesture]
    );
    assert!(!s.drag_active);
    let r = s.handle_event(SliderEvent::PrimaryRelease);
    assert!(!r.consumed);
    assert!(r.actions.is_empty());
}

#[test]
fn shift_press_starts_granular_drag() {
    let mut s = SliderInteraction::new();
    let r = s.handle_event(SliderEvent::PrimaryPress {
        modifiers: PressModifiers { alt: false, command: false, shift: true },
    });
    assert_eq!(r.actions.last(), Some(&SliderAction::StartGranular));
    assert!(s.granular_drag);
    let r = s.handle_event(SliderEvent::PointerMove { shift: true });
    assert_eq!(r.actions, vec![SliderAction::DragGranular]);
    let r = s.handle_event(SliderEvent::ShiftReleased);
    assert_eq!(r.actions, vec![SliderAction::DragToPointer]);
    assert!(!s.granular_drag && s.drag_active);
    let r = s.handle_event(SliderEvent::PointerMove { shift: true });
    assert_eq!(r.actions, vec![SliderAction::StartGranular, SliderAction::DragGranular]);
}

#[test]
fn alt_press_opens_text_input() {
    let mut s = SliderInteraction::new();
    let r = s.handle_event(SliderEvent::PrimaryPress {
        modifiers: PressModifiers { alt: true, command: true, shift: true },
    });
    assert_eq!(r.actions, vec![SliderAction::SetTextInputActive(true), SliderAction::SetActive(true)]);
    assert!(s.text_input_active && !s.drag_active);
    let r = s.handle_event(SliderEvent::PrimaryPress { modifiers: plain() });
    assert!(r.consumed);
    assert!(r.actions.is_empty());
    assert!(!s.drag_active);
    let r = s.handle_event(SliderEvent::TextInput { parsed: true });
    assert_eq!(
        r.actions,
        vec![
            SliderAction::BeginGesture,
            SliderAction::SetToParsed,
            SliderAction::EndGesture,
            SliderAction::SetTextInputActive(false),
        ]
    );
    assert!(!s.text_input_active && !s.drag_active);
}

#[test]
fn unparsed_text_and_cancel_only_close_text_input() {
    let mut s = SliderInteraction::new();
    s.text_input_active = true;
    let r = s.handle_event(SliderEvent::TextInput { parsed: false });
    assert_eq!(r.actions, vec![SliderAction::SetTextInputActive(false)]);
    s.text_input_active = true;
    let r = s.handle_event(SliderEvent::CancelTextInput);
    assert_eq!(r.actions, vec![SliderAction::SetTextInputActive(false), SliderAction::SetActive(false)]);
    assert!(!s.text_input_active);
}

#[test]
fn reset_click_and_command_click_set_default() {
    let mut s = SliderInteraction::new();
    let expected = vec![SliderAction::BeginGesture, SliderAction::SetToDefault, SliderAction::EndGesture];
    assert_eq!(s.handle_event(SliderEvent::ResetPress).actions, expected);
    let r = s.handle_event(SliderEvent::PrimaryPress {
        modifiers: PressModifiers { alt: false, command: true, shift: false },
    });
    assert_eq!(r.actions, expected);
    assert!(!s.drag_active);
}

#[test]
fn scroll_steps() {
    let mut s = SliderInteraction::new();
    let r = s.handle_event(SliderEvent::Scroll { whole_lines: 0, finer: false });
    assert!(r.consumed);
    assert_eq!(r.actions, vec![SliderAction::AddScroll]);
    let r = s.handle_event(SliderEvent::Scroll { whole_lines: -3, finer: true });
    assert_eq!(
        r.actions,
        vec![
            SliderAction::AddScroll,
            SliderAction::BeginGesture,
            SliderAction::ScrollSteps { up: false, count: 3, finer: true },
            SliderAction::EndGesture,
        ]
    );
    let r = s.handle_event(SliderEvent::Scroll { whole_lines: i64::MIN, finer: false });
    assert_eq!(r.actions[2], SliderAction::ScrollSteps { up: false, count: 1u64 << 63, finer: false });
    s.handle_event(SliderEvent::PrimaryPress { modifiers: plain() });
    let r = s.handle_event(SliderEvent::Scroll { whole_lines: 2, finer: false });
    assert_eq!(
        r.actions,
        vec![SliderAction::AddScroll, SliderAction::ScrollSteps { up: true, count: 2, finer: false }]
    );
    s.disable_scroll_wheel();
    let r = s.handle_event(SliderEvent::Scroll { whole_lines: 2, finer: false });
    assert!(!r.consumed && r.actions.is_empty());
}

#[test]
fn other_events_are_ignored() {
    let mut s = SliderInteraction::new();
    let r = s.handle_event(SliderEvent::Other);
    assert!(!r.consumed && r.actions.is_empty());
    let r = s.handle_event(SliderEvent::ShiftReleased);
    assert!(!r.consumed && r.actions.is_empty());
    let r = s.handle_event(SliderEvent::PointerMove { shift: true });
    assert!(!r.consumed && r.actions.is_empty());
}

#[test]
fn gestures_balance_over_a_session() {
    let mut s = SliderInteraction::new();
    let events = [
        SliderEvent::PrimaryPress { modifiers: plain() },
        SliderEvent::PointerMove { shift: true },
        SliderEvent::Scroll { whole_lines: 1, finer: false },
        SliderEvent::ResetPress,
        SliderEvent::ShiftReleased,
        SliderEvent::PrimaryRelease,
        SliderEvent::Scroll { whole_lines: -2, finer: false },
        SliderEvent::TextInput { parsed: true },
        SliderEvent::PrimaryPress { modifiers: plain() },
    ];
    let mut all = Vec::new();
    for e in events {
        let r = s.handle_event(e);
        all.extend(r.actions);
    }
    assert!(s.drag_active);
    assert_eq!(gesture_depth(&all), 1);
    s.handle_event(SliderEvent::PrimaryRelease).actions.iter().for_each(|a| all.push(*a));
    assert_eq!(gesture_depth(&all), 0);
}

#[test]
fn button_click_toggles() {
    let b = ButtonInteraction::new();
    assert!(toggle_target(false));
    assert!(!toggle_target(true));
    let r = b.handle_event(ButtonEvent::Press { currently_on: false });
    assert!(r.consumed);
    assert_eq!(
        r.actions,
        vec![ButtonAction::BeginGesture, ButtonAction::SetValue(true), ButtonAction::EndGesture]
    );
    let r = b.handle_event(ButtonEvent::Press { currently_on: true });
    assert_eq!(r.actions[1], ButtonAction::SetValue(false));
}

#[test]
fn button_scroll() {
    let mut b = ButtonInteraction::new();
    let r = b.handle_event(ButtonEvent::Scroll { whole_lines: 0 });
    assert!(r.consumed);
    assert_eq!(r.actions, vec![ButtonAction::AddScroll]);
    let r = b.handle_event(ButtonEvent::Scroll { whole_lines: 3 });
    assert_eq!(
        r.actions,
        vec![
            ButtonAction::AddScroll,
            ButtonAction::BeginGesture,
            ButtonAction::SetValue(true),
            ButtonAction::TakeScrollLine(true),
            ButtonAction::EndGesture,
        ]
    );
    let r = b.handle_event(ButtonEvent::Scroll { whole_lines: -1 });
    assert_eq!(r.actions[2], ButtonAction::SetValue(false));
    assert_eq!(r.actions[3], ButtonAction::TakeScrollLine(false));
    b.disable_scroll_wheel();
    let r = b.handle_event(ButtonEvent::Scroll { whole_lines: 3 });
    assert!(!r.consumed && r.actions.is_empty());
    let r = b.handle_event(ButtonEvent::Other);
    assert!(!r.consumed && r.actions.is_empty());
}

#[test]
fn generic_ui_skips_hidden_params() {
    assert_eq!(visible_params(&vec![false, true, false, false, true]), vec![0, 2, 3]);
    assert_eq!(visible_params(&vec![true, true]), Vec::<usize>::new());
    assert_eq!(visible_params(&vec![]), Vec::<usize>::new());
}

#[test]
fn peak_meter_scale() {
    let ticks = text_ticks();
    assert_eq!(ticks, vec![-80, -60, -40, -20, 0, 12]);
    let marks = tick_marks(&ticks);
    assert_eq!(marks.len(), 6);
    assert_eq!(marks[0], TickMark { label: TickLabel::MinusInfinity, has_tick: true, spacer_after: true });
    assert_eq!(marks[1], TickMark { label: TickLabel::Decibels(-60), has_tick: true, spacer_after: true });
    assert_eq!(marks[4], TickMark { label: TickLabel::Decibels(0), has_tick: true, spacer_after: true });
    assert_eq!(marks[5], TickMark { label: TickLabel::Dbfs, has_tick: false, spacer_after: false });
}

#[test]
fn peak_meter_single_value_scale() {
    let marks = tick_marks(&vec![3]);
    assert_eq!(marks, vec![TickMark { label: TickLabel::MinusInfinity, has_tick: false, spacer_after: false }]);
}

#[test]
fn shift_release_snaps_like_a_plain_drag_move() {
    let mut a = SliderInteraction::new();
    a.handle_event(SliderEvent::PrimaryPress {
        modifiers: PressModifiers { alt: false, command: false, shift: true },
    });
    let mut b = a;
    let released = a.handle_event(SliderEvent::ShiftReleased);
    let moved = b.handle_event(SliderEvent::PointerMove { shift: false });
    assert_eq!(released.actions, moved.actions);
    assert_eq!(a, b);
    assert!(!a.granular_drag && a.drag_active);
}
