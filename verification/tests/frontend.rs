use obs_rs::frontend::{event_callback_target, save_callback_direction, Event, SaveDirection};

#[test]
fn event_raw_values_follow_obs_numbering() {
    assert_eq!(Event::StreamingStarting.as_raw(), 0);
    assert_eq!(Event::SceneChanged.as_raw(), 8);
    assert_eq!(Event::Exit.as_raw(), 17);
    assert_eq!(Event::VirtualcamStopped.as_raw(), 32);
    assert_eq!(Event::ScreenshotTaken.as_raw(), 40);
    assert_eq!(Event::from_raw(24), Ok(Event::PreviewSceneChanged));
    assert_eq!(Event::from_raw(41).unwrap_err().raw, 41);
}

#[test]
fn event_callback_only_sees_known_events() {
    assert_eq!(event_callback_target(true, 8), Some(Event::SceneChanged));
    assert_eq!(event_callback_target(true, 41), None);
    assert_eq!(event_callback_target(false, 8), None);
}

#[test]
fn save_direction_from_flag() {
    assert_eq!(SaveDirection::from_saving(true), SaveDirection::Saving);
    assert_eq!(SaveDirection::from_saving(false), SaveDirection::Loading);
    assert_eq!(save_callback_direction(true, true, true), Some(SaveDirection::Saving));
    assert_eq!(save_callback_direction(true, true, false), Some(SaveDirection::Loading));
    assert_eq!(save_callback_direction(false, true, true), None);
    assert_eq!(save_callback_direction(true, false, true), None);
}

#[test]
fn hotkey_carries_id_and_state() {
    let h = obs_rs::hotkey::Hotkey::from_parts(17, true);
    assert_eq!(h.id(), 17);
    assert!(h.pressed);
    let r = obs_rs::hotkey::Hotkey::from_parts(17, false);
    assert!(!r.pressed);
    assert_ne!(h, r);
}
