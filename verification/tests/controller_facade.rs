//! The controller facade: lifecycle, error surface, and the end-to-end
//! scenarios on concrete levels.

use volume_control::level::VolumeLevel;
use volume_control::protocol::ControlError;
use volume_control::VolumeController;

#[test]
fn operations_before_init_fail_with_not_initialized() {
    let mut c = VolumeController::new();
    assert!(matches!(c.get_volume(), Err(ControlError::NotInitialized)));
    assert!(matches!(c.volume_up(), Err(ControlError::NotInitialized)));
    assert!(matches!(c.volume_down(), Err(ControlError::NotInitialized)));
    assert!(matches!(c.set_volume(5000), Err(ControlError::NotInitialized)));
}

#[test]
fn set_volume_applies_and_returns_the_clamped_level() {
    let mut c = VolumeController::new();
    c.init_volume_controller(VolumeLevel::from_units(5000));
    assert_eq!(c.set_volume(15000).unwrap().units(), 10000);
    assert_eq!(c.get_volume().unwrap().units(), 10000);
    assert_eq!(c.set_volume(-2000).unwrap().units(), 0);
    assert_eq!(c.get_volume().unwrap().units(), 0);
    assert_eq!(c.set_volume(7345).unwrap().units(), 7345);
    assert_eq!(c.get_volume().unwrap().units(), 7345);
}

#[test]
fn up_caps_at_full_scale_instead_of_overshooting() {
    let mut c = VolumeController::new();
    c.init_volume_controller(VolumeLevel::from_units(9700));
    assert_eq!(c.volume_up().unwrap().units(), 10000);
    assert_eq!(c.get_volume().unwrap().units(), 10000);
}

#[test]
fn down_floors_at_silence_instead_of_going_negative() {
    let mut c = VolumeController::new();
    c.init_volume_controller(VolumeLevel::from_units(0));
    assert_eq!(c.volume_down().unwrap().units(), 0);
    assert_eq!(c.get_volume().unwrap().units(), 0);
}

#[test]
fn repeated_up_at_full_volume_keeps_returning_full_volume() {
    let mut c = VolumeController::new();
    c.init_volume_controller(VolumeLevel::from_units(10000));
    for _ in 0..4 {
        assert_eq!(c.volume_up().unwrap().units(), 10000);
    }
    let mut c = VolumeController::new();
    c.init_volume_controller(VolumeLevel::from_units(0));
    for _ in 0..4 {
        assert_eq!(c.volume_down().unwrap().units(), 0);
    }
}

#[test]
fn a_second_init_leaves_the_live_session_untouched() {
    let mut c = VolumeController::new();
    c.init_volume_controller(VolumeLevel::from_units(5000));
    c.init_volume_controller(VolumeLevel::from_units(2000));
    // Exactly one session resulted, still at the level the first call saw.
    assert_eq!(c.get_volume().unwrap().units(), 5000);
}

#[test]
fn operations_after_shutdown_never_silently_succeed() {
    let mut c = VolumeController::new();
    c.init_volume_controller(VolumeLevel::from_units(5000));
    assert_eq!(c.get_volume().unwrap().units(), 5000);
    c.shutdown_volume_controller();
    assert!(matches!(c.get_volume(), Err(ControlError::NotInitialized)));
    assert!(matches!(c.volume_up(), Err(ControlError::NotInitialized)));
    assert!(matches!(c.volume_down(), Err(ControlError::NotInitialized)));
    assert!(matches!(c.set_volume(1234), Err(ControlError::NotInitialized)));
}

#[test]
fn shutdown_twice_is_harmless() {
    let mut c = VolumeController::new();
    c.init_volume_controller(VolumeLevel::from_units(5000));
    c.shutdown_volume_controller();
    c.shutdown_volume_controller();
    assert!(matches!(c.get_volume(), Err(ControlError::NotInitialized)));
}

#[test]
fn n_increments_serialize_with_no_lost_update() {
    let mut c = VolumeController::new();
    c.init_volume_controller(VolumeLevel::from_units(1000));
    let mut last = 0;
    for _ in 0..10 {
        last = c.volume_up().unwrap().units();
    }
    // 1000 + 10 * 500, below the cap.
    assert_eq!(last, 6000);
    assert_eq!(c.get_volume().unwrap().units(), 6000);

    for _ in 0..10 {
        last = c.volume_up().unwrap().units();
    }
    // Twenty increments from 1000 would pass full scale: capped instead.
    assert_eq!(last, 10000);
    assert_eq!(c.get_volume().unwrap().units(), 10000);
}

#[test]
fn native_failure_variant_carries_its_description() {
    let e = ControlError::NativeOperation(String::from("device absent"));
    assert!(matches!(e, ControlError::NativeOperation(ref msg) if msg == "device absent"));
    assert_ne!(e, ControlError::ChannelError);
}
