use clock_core::buttons::Button;
use clock_core::buttons::ButtonState;
use clock_core::buttons::PinState;
use clock_core::menu::DisplayState;
use clock_core::menu::DisplayStateMachine;
use clock_core::menu::Message;
use clock_core::render::describe;
use clock_core::render::ImageId;
use clock_core::render::RenderCommand;
use clock_core::router::route;
use clock_core::router::ButtonId;
use clock_core::ui::ClockFSM;
use clock_core::ui::ClockState;
use clock_core::ui::Msg;

#[test]
fn new_button_starts_high_with_cleared_count() {
    let b = Button::new(15);
    assert_eq!(b.state, ButtonState::High(0));
    assert_eq!(b.threshold, 15);
}

#[test]
fn short_oscillation_reports_no_change() {
    let mut b = Button::new(15);
    let mut i: usize = 0;
    while i < 14 {
        let raw = i % 2 == 0;
        assert_eq!(b.poll(raw), PinState::Nothing);
        i += 1;
    }
}

#[test]
fn rise_reported_once_at_threshold() {
    let mut b = Button {
        state: ButtonState::Low(0),
        threshold: 15,
    };
    let mut i: usize = 0;
    while i < 20 {
        let edge = b.poll(true);
        if i == 14 {
            assert_eq!(edge, PinState::PinUp);
        } else {
            assert_eq!(edge, PinState::Nothing);
        }
        i += 1;
    }
    assert_eq!(b.state, ButtonState::High(0));
}

#[test]
fn fall_reported_once_at_threshold() {
    let mut b = Button::new(3);
    let mut i: usize = 0;
    while i < 5 {
        let edge = b.poll(false);
        if i == 2 {
            assert_eq!(edge, PinState::PinDown);
        } else {
            assert_eq!(edge, PinState::Nothing);
        }
        i += 1;
    }
    assert_eq!(b.state, ButtonState::Low(0));
}

#[test]
fn agreeing_sample_clears_contrary_count() {
    let mut b = Button::new(3);
    assert_eq!(b.poll(false), PinState::Nothing);
    assert_eq!(b.poll(false), PinState::Nothing);
    assert_eq!(b.poll(true), PinState::Nothing);
    assert_eq!(b.state, ButtonState::High(0));
    assert_eq!(b.poll(false), PinState::Nothing);
    assert_eq!(b.poll(false), PinState::Nothing);
    assert_eq!(b.poll(false), PinState::PinDown);
}

#[test]
fn router_maps_only_the_pressed_edge() {
    assert_eq!(route(ButtonId::Up, PinState::PinUp), Some(Msg::Up));
    assert_eq!(route(ButtonId::Down, PinState::PinUp), Some(Msg::Down));
    assert_eq!(route(ButtonId::Enter, PinState::PinUp), Some(Msg::Continue));
    assert_eq!(route(ButtonId::Up, PinState::PinDown), None);
    assert_eq!(route(ButtonId::Down, PinState::Nothing), None);
    assert_eq!(route(ButtonId::Enter, PinState::PinDown), None);
}

#[test]
fn clock_table_matches_documentation() {
    let cases: [(ClockState, Msg, ClockState); 9] = [
        (ClockState::Time, Msg::Up, ClockState::Alarm),
        (ClockState::Time, Msg::Down, ClockState::Image),
        (ClockState::Time, Msg::Continue, ClockState::Time),
        (ClockState::Alarm, Msg::Up, ClockState::Image),
        (ClockState::Alarm, Msg::Down, ClockState::Time),
        (ClockState::Alarm, Msg::Continue, ClockState::Alarm),
        (ClockState::Image, Msg::Up, ClockState::Time),
        (ClockState::Image, Msg::Down, ClockState::Time),
        (ClockState::Image, Msg::Continue, ClockState::Time),
    ];
    let mut i: usize = 0;
    while i < cases.len() {
        let (start, msg, want) = cases[i];
        let mut fsm = ClockFSM::init(start);
        fsm.next_state(msg);
        assert_eq!(fsm.state, want);
        i += 1;
    }
}

#[test]
fn up_up_reaches_image_via_alarm() {
    let mut fsm = ClockFSM::init(ClockState::Time);
    fsm.next_state(Msg::Up);
    assert_eq!(fsm.state, ClockState::Alarm);
    fsm.next_state(Msg::Up);
    assert_eq!(fsm.state, ClockState::Image);
}

#[test]
fn second_continue_changes_nothing() {
    let starts: [ClockState; 3] = [ClockState::Time, ClockState::Alarm, ClockState::Image];
    let mut i: usize = 0;
    while i < starts.len() {
        let mut once = ClockFSM::init(starts[i]);
        once.next_state(Msg::Continue);
        let mut twice = ClockFSM::init(starts[i]);
        twice.next_state(Msg::Continue);
        twice.next_state(Msg::Continue);
        assert_eq!(once.state, twice.state);
        i += 1;
    }
}

#[test]
fn every_screen_returns_to_time() {
    let mut from_alarm = ClockFSM::init(ClockState::Alarm);
    from_alarm.next_state(Msg::Down);
    assert_eq!(from_alarm.state, ClockState::Time);
    let mut from_image = ClockFSM::init(ClockState::Image);
    from_image.next_state(Msg::Up);
    assert_eq!(from_image.state, ClockState::Time);
}

#[test]
fn menu_rows_cycle_both_ways() {
    let cases: [(DisplayState, Message, DisplayState); 6] = [
        (DisplayState::Row1, Message::Up, DisplayState::Row3),
        (DisplayState::Row1, Message::Down, DisplayState::Row2),
        (DisplayState::Row2, Message::Up, DisplayState::Row1),
        (DisplayState::Row2, Message::Down, DisplayState::Row3),
        (DisplayState::Row3, Message::Up, DisplayState::Row2),
        (DisplayState::Row3, Message::Down, DisplayState::Row1),
    ];
    let mut i: usize = 0;
    while i < cases.len() {
        let (start, msg, want) = cases[i];
        let mut m = DisplayStateMachine::init(start);
        m.dispatch(msg);
        assert_eq!(m.current_state, want);
        i += 1;
    }
}

#[test]
fn menu_nop_keeps_the_row() {
    let mut m = DisplayStateMachine::init(DisplayState::Row2);
    m.dispatch(Message::Nop);
    assert_eq!(m.current_state, DisplayState::Row2);
}

#[test]
fn time_screen_shows_the_stamp() {
    let c = describe(ClockState::Time, Some("2023-04-11 22:18:00"));
    assert_eq!(c, RenderCommand::ShowText("2023-04-11 22:18:00", 0, 13));
}

#[test]
fn time_screen_without_stamp_stays_clear() {
    assert_eq!(describe(ClockState::Time, None), RenderCommand::Clear);
}

#[test]
fn alarm_screen_shows_its_label() {
    let c = describe(ClockState::Alarm, Some("ignored"));
    assert_eq!(c, RenderCommand::ShowText("--- Alarm ---", 0, 13));
    assert_eq!(describe(ClockState::Alarm, None), RenderCommand::ShowText("--- Alarm ---", 0, 13));
}

#[test]
fn image_screen_shows_the_logo() {
    assert_eq!(
        describe(ClockState::Image, Some("ignored")),
        RenderCommand::ShowImage(ImageId::Logo, 32, 0)
    );
    assert_eq!(
        describe(ClockState::Image, None),
        RenderCommand::ShowImage(ImageId::Logo, 32, 0)
    );
}
