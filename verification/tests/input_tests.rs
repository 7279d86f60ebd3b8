use nxkit::input::frame_decision;
use nxkit::input::newly_pressed;
use nxkit::input::LoopDecision;
use nxkit::input::KEY_A;
use nxkit::input::KEY_B;
use nxkit::input::KEY_DDOWN;
use nxkit::input::KEY_DLEFT;
use nxkit::input::KEY_DRIGHT;
use nxkit::input::KEY_DUP;
use nxkit::input::KEY_L;
use nxkit::input::KEY_MINUS;
use nxkit::input::KEY_PLUS;
use nxkit::input::KEY_R;
use nxkit::input::KEY_X;
use nxkit::input::KEY_Y;
use nxkit::input::KEY_ZL;
use nxkit::input::KEY_ZR;
use nxkit::status::result_from_rc;
use nxkit::status::RcError;
use nxkit::tone::playtone_step;
use nxkit::tone::tone_for_keys;
use nxkit::tone::ToneAction;

#[test]
fn newly_pressed_diffs_frames() {
    // Held buttons are not newly pressed; fresh ones are.
    assert_eq!(newly_pressed(0, KEY_A), KEY_A);
    assert_eq!(newly_pressed(KEY_A, KEY_A), 0);
    assert_eq!(newly_pressed(KEY_A, KEY_A | KEY_B), KEY_B);
    assert_eq!(newly_pressed(KEY_A | KEY_B, 0), 0);
    assert_eq!(newly_pressed(0, 0), 0);
}

#[test]
fn exit_whenever_plus_is_newly_pressed() {
    assert_eq!(frame_decision(KEY_PLUS), LoopDecision::Exit);
    assert_eq!(frame_decision(KEY_A), LoopDecision::RunFrame);
    assert_eq!(frame_decision(0), LoopDecision::RunFrame);
    assert_eq!(frame_decision(KEY_MINUS), LoopDecision::RunFrame);
    // The exit button wins even when pressed together with another button.
    assert_eq!(frame_decision(KEY_PLUS | KEY_A), LoopDecision::Exit);
    assert_eq!(frame_decision(KEY_PLUS | KEY_MINUS), LoopDecision::Exit);
}

#[test]
fn tone_table_maps_all_twelve_buttons() {
    assert_eq!(tone_for_keys(KEY_A), Some(220));
    assert_eq!(tone_for_keys(KEY_B), Some(440));
    assert_eq!(tone_for_keys(KEY_Y), Some(880));
    assert_eq!(tone_for_keys(KEY_X), Some(1760));
    assert_eq!(tone_for_keys(KEY_DLEFT), Some(3520));
    assert_eq!(tone_for_keys(KEY_DUP), Some(7040));
    assert_eq!(tone_for_keys(KEY_DRIGHT), Some(14080));
    assert_eq!(tone_for_keys(KEY_DDOWN), Some(7040));
    assert_eq!(tone_for_keys(KEY_L), Some(3520));
    assert_eq!(tone_for_keys(KEY_R), Some(1760));
    assert_eq!(tone_for_keys(KEY_ZL), Some(880));
    assert_eq!(tone_for_keys(KEY_ZR), Some(440));
    assert_eq!(tone_for_keys(0), None);
    assert_eq!(tone_for_keys(KEY_MINUS), None);
    assert_eq!(tone_for_keys(KEY_A | KEY_B), None);
}

#[test]
fn playtone_step_plays_and_clears_latch() {
    // A fresh press plays immediately and leaves the latch empty.
    assert_eq!(playtone_step(None, KEY_A), (None, ToneAction::Play(220)));
    // A carried latch plays when nothing new is pressed.
    assert_eq!(playtone_step(Some(440), 0), (None, ToneAction::Play(440)));
    // A new press replaces the carried latch.
    assert_eq!(
        playtone_step(Some(440), KEY_X),
        (None, ToneAction::Play(1760))
    );
    // Nothing pressed, nothing latched: an idle frame.
    assert_eq!(playtone_step(None, 0), (None, ToneAction::Idle));
    assert_eq!(playtone_step(None, KEY_MINUS), (None, ToneAction::Idle));
}

#[test]
fn playtone_step_exit_makes_no_device_call() {
    assert_eq!(
        playtone_step(None, KEY_PLUS),
        (None, ToneAction::Exit)
    );
    // Even with a tone latched, the exit frame plays nothing.
    assert_eq!(
        playtone_step(Some(880), KEY_PLUS),
        (Some(880), ToneAction::Exit)
    );
    // The exit button wins even pressed together with a note button.
    assert_eq!(
        playtone_step(None, KEY_PLUS | KEY_A),
        (None, ToneAction::Exit)
    );
}

#[test]
fn status_zero_is_success() {
    assert_eq!(result_from_rc(0), Ok(0));
    assert_eq!(result_from_rc(5), Err(RcError { code: 5 }));
    assert_eq!(result_from_rc(0xDEAD), Err(RcError { code: 0xDEAD }));
    assert_eq!(RcError::from_raw(42).code, 42);
}
