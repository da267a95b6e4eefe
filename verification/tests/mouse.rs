use amulet::bitops::ClearBits;
use amulet::bitops::IsSet;
use amulet::bitops::SetBits;
use amulet::mouse::ClickStates;
use amulet::mouse::HoverState;
use amulet::mouse::MouseButton;
use amulet::mouse::MouseClickStates;

#[test]
fn mouse_test_mouse_click_states() {
    let mut mcs = MouseClickStates::default();
    assert_eq!(0b000, mcs.click_state);
    assert_eq!(0b000, mcs.event_state);

    mcs.click(MouseButton::Middle);
    assert_eq!(0b010, mcs.click_state);
    assert_eq!(0b010, mcs.event_state);
    assert!(mcs.is_click_started(MouseButton::Middle));
    assert!(mcs.is_down(MouseButton::Middle));

    mcs.unclick(MouseButton::Middle);
    assert_eq!(0b000, mcs.click_state);
    assert_eq!(0b010, mcs.event_state);
    assert!(mcs.is_click_completed(MouseButton::Middle));
    assert!(mcs.is_up(MouseButton::Middle));

    mcs.click(MouseButton::Right);
    assert_eq!(0b100, mcs.click_state);
    assert_eq!(0b110, mcs.event_state);
    assert!(mcs.is_click_completed(MouseButton::Middle));
    assert!(mcs.is_up(MouseButton::Middle));
    assert!(mcs.is_click_started(MouseButton::Right));
    assert!(mcs.is_down(MouseButton::Right));

    mcs.clear_event_state();
    assert_eq!(0b100, mcs.click_state);
    assert_eq!(0b000, mcs.event_state);
    assert!(!mcs.is_click_started(MouseButton::Middle));
    assert!(!mcs.is_click_completed(MouseButton::Middle));
    assert!(mcs.is_up(MouseButton::Middle));
    assert!(!mcs.is_click_started(MouseButton::Right));
    assert!(!mcs.is_click_completed(MouseButton::Right));
    assert!(mcs.is_down(MouseButton::Right));

    mcs.click(MouseButton::Left);
    assert_eq!(0b101, mcs.click_state);
    assert_eq!(0b001, mcs.event_state);
    assert!(mcs.is_click_started(MouseButton::Left));

    mcs.clear(MouseButton::Right);
    assert_eq!(0b001, mcs.click_state);
    assert_eq!(0b001, mcs.event_state);
    assert!(!mcs.is_click_completed(MouseButton::Right));

    mcs.unclick(MouseButton::Middle);
    // This is a special case: a mouse-up on a button that has not been "started" should not
    // result in a click-completed.
    assert!(!mcs.is_click_completed(MouseButton::Middle));
    assert_eq!(0b001, mcs.click_state);
    assert_eq!(0b001, mcs.event_state);
}

#[test]
fn click_state_test_mouse_click_states() {
    let mut mcs = ClickStates::default();
    assert_eq!(0b000, mcs.click_state);
    assert_eq!(0b000, mcs.event_state);

    mcs.click(MouseButton::Middle);
    assert_eq!(0b010, mcs.click_state);
    assert_eq!(0b010, mcs.event_state);
    assert!(mcs.has_click_started(MouseButton::Middle));
    assert!(mcs.is_down(MouseButton::Middle));

    mcs.unclick(MouseButton::Middle);
    assert_eq!(0b000, mcs.click_state);
    assert_eq!(0b010, mcs.event_state);
    assert!(mcs.has_click_completed(MouseButton::Middle));
    assert!(mcs.is_up(MouseButton::Middle));

    mcs.click(MouseButton::Right);
    assert_eq!(0b100, mcs.click_state);
    assert_eq!(0b110, mcs.event_state);
    assert!(mcs.has_click_completed(MouseButton::Middle));
    assert!(mcs.is_up(MouseButton::Middle));
    assert!(mcs.has_click_started(MouseButton::Right));
    assert!(mcs.is_down(MouseButton::Right));

    mcs.clear_event_state();
    assert_eq!(0b100, mcs.click_state);
    assert_eq!(0b000, mcs.event_state);
    assert!(!mcs.has_click_started(MouseButton::Middle));
    assert!(!mcs.has_click_completed(MouseButton::Middle));
    assert!(mcs.is_up(MouseButton::Middle));
    assert!(!mcs.has_click_started(MouseButton::Right));
    assert!(!mcs.has_click_completed(MouseButton::Right));
    assert!(mcs.is_down(MouseButton::Right));

    mcs.click(MouseButton::Left);
    assert_eq!(0b101, mcs.click_state);
    assert_eq!(0b001, mcs.event_state);
    assert!(mcs.has_click_started(MouseButton::Left));

    mcs.clear(MouseButton::Right);
    assert_eq!(0b001, mcs.click_state);
    assert_eq!(0b001, mcs.event_state);
    assert!(!mcs.has_click_completed(MouseButton::Right));

    mcs.unclick(MouseButton::Middle);
    // This is a special case: a mouse-up on a button that has not been "started" should not
    // result in a click-completed.
    assert!(!mcs.has_click_completed(MouseButton::Middle));
    assert_eq!(0b001, mcs.click_state);
    assert_eq!(0b001, mcs.event_state);
}

#[test]
fn test_hover_state() {
    let mut hs = HoverState::default();
    assert_eq!(0b00, hs.flags);

    hs.update(true);
    assert_eq!(0b11, hs.flags);
    assert!(hs.has_entered());
    assert!(hs.is_hovering());
    assert!(!hs.has_left());

    hs.clear_event_state();
    hs.update(true);
    assert_eq!(0b01, hs.flags);
    assert!(!hs.has_entered());
    assert!(hs.is_hovering());
    assert!(!hs.has_left());

    hs.clear_event_state();
    hs.update(true);
    assert_eq!(0b01, hs.flags);
    assert!(!hs.has_entered());
    assert!(hs.is_hovering());
    assert!(!hs.has_left());

    hs.clear_event_state();
    hs.update(false);
    assert_eq!(0b10, hs.flags);
    assert!(!hs.has_entered());
    assert!(!hs.is_hovering());
    assert!(hs.has_left());

    hs.clear_event_state();
    hs.update(false);
    assert_eq!(0b00, hs.flags);
    assert!(!hs.has_entered());
    assert!(!hs.is_hovering());
    assert!(!hs.has_left());
}

#[test]
fn test_hover_repeated_updates_keep_event_bit() {
    // Repeated "inside" observations within one frame do not retrigger
    // anything: the state settles after the first one.
    let mut hs = HoverState::default();
    hs.update(true);
    let after_first = hs;
    hs.update(true);
    assert_eq!(after_first, hs);
    assert!(hs.has_entered());
}

#[test]
fn test_bitops() {
    let mut flags: u8 = 0b0000_0000;
    flags.set_bits(0b101);
    assert_eq!(0b101, flags);
    assert!(flags.is_set(0b100));
    assert!(flags.is_set(0b101));
    assert!(!flags.is_set(0b010));
    assert!(!flags.is_set(0b110));
    flags.clear_bits(0b100);
    assert_eq!(0b001, flags);
    assert!(!flags.is_set(0b100));
}

#[test]
fn test_unclick_after_clear_event_state_still_completes() {
    let mut cs = ClickStates::default();
    cs.click(MouseButton::Left);
    cs.clear_event_state();
    cs.unclick(MouseButton::Left);
    // The button was still down, so the release is a legitimate click.
    assert!(cs.has_click_completed(MouseButton::Left));
    assert!(cs.is_up(MouseButton::Left));
}
