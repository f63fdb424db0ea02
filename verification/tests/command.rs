use rupamix::command::{volume_action, VolumeAction};

#[test]
fn an_increase_comes_before_every_other_option() {
    assert_eq!(volume_action(5, 0, false, None), VolumeAction::Increase(5));
    assert_eq!(volume_action(5, 3, true, Some(70)), VolumeAction::Increase(5));
    assert_eq!(volume_action(255, 0, false, None), VolumeAction::Increase(255));
}

#[test]
fn a_decrease_comes_before_toggle_and_set() {
    assert_eq!(volume_action(0, 3, false, None), VolumeAction::Decrease(3));
    assert_eq!(volume_action(0, 3, true, Some(70)), VolumeAction::Decrease(3));
}

#[test]
fn a_toggle_comes_before_set() {
    assert_eq!(volume_action(0, 0, true, None), VolumeAction::ToggleMute);
    assert_eq!(volume_action(0, 0, true, Some(70)), VolumeAction::ToggleMute);
}

#[test]
fn a_percentage_alone_is_set() {
    assert_eq!(volume_action(0, 0, false, Some(70)), VolumeAction::SetTo(70));
    assert_eq!(volume_action(0, 0, false, Some(0)), VolumeAction::SetTo(0));
}

#[test]
fn no_option_asks_for_nothing() {
    assert_eq!(volume_action(0, 0, false, None), VolumeAction::Nothing);
}
