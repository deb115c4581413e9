//! Behavior of the button and slider widgets, including their draw streams.

use imgui_core::draw::DrawCmd;
use imgui_core::input::InputSnapshot;
use imgui_core::state::UiState;

fn state_at(x: i32, y: i32, down: bool) -> UiState {
    let mut s = UiState::new();
    s.update_input(InputSnapshot { x, y, down });
    s
}

#[test]
fn button_fires_while_held_and_hovered() {
    // pointer inside (50,50,64,48), pressed: fires every frame while held
    let mut s = state_at(60, 60, true);
    let mut cmds = Vec::new();
    s.prepare();
    assert!(s.button(&mut cmds, 1, 50, 50, 64, 48));
    s.finish();

    // still held next frame: still firing
    s.prepare();
    assert!(s.button(&mut cmds, 1, 50, 50, 64, 48));
    s.finish();

    // released: the next frame reports false even though still hovered
    s.update_input(InputSnapshot { x: 60, y: 60, down: false });
    s.prepare();
    assert!(!s.button(&mut cmds, 1, 50, 50, 64, 48));
    s.finish();
    assert_eq!(s.hot_item, Some(1));
    assert_eq!(s.active_item, None);
}

#[test]
fn button_does_not_fire_without_hover() {
    let mut s = state_at(5, 5, true);
    let mut cmds = Vec::new();
    s.prepare();
    assert!(!s.button(&mut cmds, 1, 50, 50, 64, 48));
    s.finish();
}

#[test]
fn button_does_not_fire_when_hover_only() {
    let mut s = state_at(60, 60, false);
    let mut cmds = Vec::new();
    s.prepare();
    assert!(!s.button(&mut cmds, 1, 50, 50, 64, 48));
    s.finish();
    assert_eq!(s.hot_item, Some(1));
}

#[test]
fn press_on_first_button_never_activates_second() {
    // two buttons at disjoint regions, pointer on the first, pressed
    let mut s = state_at(60, 60, true);
    let mut cmds = Vec::new();
    s.prepare();
    let fired_1 = s.button(&mut cmds, 1, 50, 50, 64, 48);
    let fired_2 = s.button(&mut cmds, 2, 150, 50, 64, 48);
    s.finish();
    assert!(fired_1);
    assert!(!fired_2);
    assert_eq!(s.active_item, Some(1));
}

#[test]
fn button_draws_idle_body_over_shadow() {
    let mut s = state_at(0, 0, false);
    let mut cmds = Vec::new();
    s.prepare();
    s.button(&mut cmds, 1, 50, 50, 64, 48);
    assert_eq!(
        cmds,
        vec![
            DrawCmd::SetColor { r: 0, g: 0, b: 0 },
            DrawCmd::FillRect { x: 58, y: 58, w: 64, h: 48 },
            DrawCmd::SetColor { r: 127, g: 127, b: 127 },
            DrawCmd::FillRect { x: 50, y: 50, w: 64, h: 48 },
        ]
    );
}

#[test]
fn button_draws_hot_body_unshifted() {
    let mut s = state_at(60, 60, false);
    let mut cmds = Vec::new();
    s.prepare();
    s.button(&mut cmds, 1, 50, 50, 64, 48);
    assert_eq!(
        cmds,
        vec![
            DrawCmd::SetColor { r: 0, g: 0, b: 0 },
            DrawCmd::FillRect { x: 58, y: 58, w: 64, h: 48 },
            DrawCmd::SetColor { r: 255, g: 255, b: 255 },
            DrawCmd::FillRect { x: 50, y: 50, w: 64, h: 48 },
        ]
    );
}

#[test]
fn button_draws_pressed_body_depressed() {
    let mut s = state_at(60, 60, true);
    let mut cmds = Vec::new();
    s.prepare();
    s.button(&mut cmds, 1, 50, 50, 64, 48);
    assert_eq!(
        cmds,
        vec![
            DrawCmd::SetColor { r: 0, g: 0, b: 0 },
            DrawCmd::FillRect { x: 58, y: 58, w: 64, h: 48 },
            DrawCmd::SetColor { r: 255, g: 255, b: 255 },
            DrawCmd::FillRect { x: 52, y: 52, w: 64, h: 48 },
        ]
    );
}

#[test]
fn slider_untouched_when_not_active() {
    // pointer far away, button up: the slider neither grabs nor writes
    let mut s = state_at(0, 0, false);
    let mut cmds = Vec::new();
    let mut value = 77;
    s.prepare();
    let changed = s.slider(&mut cmds, 7, 500, 40, 255, &mut value);
    s.finish();
    assert!(!changed);
    assert_eq!(value, 77);
    assert_eq!(s.hot_item, None);
    assert_eq!(s.active_item, None);
}

#[test]
fn slider_drag_maps_pointer_to_value() {
    // band starts at y+8 = 48; pointer 168 is offset 120; for max 255 the
    // mapped value is 120*255/255 = 120
    let mut s = state_at(510, 168, true);
    let mut cmds = Vec::new();
    let mut value = 0;
    s.prepare();
    let changed = s.slider(&mut cmds, 7, 500, 40, 255, &mut value);
    s.finish();
    assert!(changed);
    assert_eq!(value, 120);
    assert_eq!(s.active_item, Some(7));
}

#[test]
fn slider_drag_back_to_same_value_reports_unchanged() {
    // for max 255 the drag offset equal to the value maps back to the value
    // itself, so a drag to offset 128 with value 128 writes nothing
    let mut s = state_at(510, 40 + 8 + 128, true);
    let mut cmds = Vec::new();
    let mut value = 128;
    s.prepare();
    let changed = s.slider(&mut cmds, 7, 500, 40, 255, &mut value);
    s.finish();
    assert!(!changed);
    assert_eq!(value, 128);
}

#[test]
fn slider_thumb_offset_is_not_the_drag_inverse() {
    // the thumb for value 128 of 255 sits at offset 240*128/255 = 120, but
    // dragging to that same offset maps to value 120, not back to 128: the
    // two mappings use different scales, so this drag reports a change
    let mut s = state_at(510, 40 + 8 + 120, true);
    let mut cmds = Vec::new();
    let mut value = 128;
    s.prepare();
    let changed = s.slider(&mut cmds, 7, 500, 40, 255, &mut value);
    s.finish();
    assert!(changed);
    assert_eq!(value, 120);
}

#[test]
fn slider_above_band_clamps_to_maximum() {
    // the documented quirk: once the slider is grabbed, dragging above the
    // band (offset < 0) clamps to the maximum travel-mapped value, not zero
    let mut s = state_at(510, 48, true);
    let mut cmds = Vec::new();
    let mut value = 3;
    s.prepare();
    s.slider(&mut cmds, 7, 500, 40, 255, &mut value);
    s.finish();
    assert_eq!(s.active_item, Some(7));

    // next frame: pointer above the band, button still held
    s.update_input(InputSnapshot { x: 510, y: 40, down: true });
    s.prepare();
    let changed = s.slider(&mut cmds, 7, 500, 40, 255, &mut value);
    s.finish();
    assert!(changed);
    assert_eq!(value, 255);
}

#[test]
fn slider_below_band_clamps_to_maximum() {
    let mut s = state_at(510, 48, true);
    let mut cmds = Vec::new();
    let mut value = 3;
    s.prepare();
    s.slider(&mut cmds, 7, 500, 40, 100, &mut value);
    s.finish();
    assert_eq!(s.active_item, Some(7));

    // next frame: pointer far below the band, button still held
    s.update_input(InputSnapshot { x: 510, y: 4000, down: true });
    s.prepare();
    let changed = s.slider(&mut cmds, 7, 500, 40, 100, &mut value);
    s.finish();
    assert!(changed);
    assert_eq!(value, 100);
}

#[test]
fn slider_scales_to_small_ranges() {
    // max 10: offset 128 maps to 128*10/255 = 5
    let mut s = state_at(510, 40 + 8 + 128, true);
    let mut cmds = Vec::new();
    let mut value = 0;
    s.prepare();
    let changed = s.slider(&mut cmds, 7, 500, 40, 10, &mut value);
    s.finish();
    assert!(changed);
    assert_eq!(value, 5);
}

#[test]
fn slider_draws_track_then_thumb() {
    // idle slider, value 128 of 255: thumb at offset 240*128/255 = 120
    let mut s = state_at(0, 0, false);
    let mut cmds = Vec::new();
    let mut value = 128;
    s.prepare();
    s.slider(&mut cmds, 7, 500, 40, 255, &mut value);
    assert_eq!(
        cmds,
        vec![
            DrawCmd::SetColor { r: 0x77, g: 0x77, b: 0x77 },
            DrawCmd::FillRect { x: 500, y: 40, w: 32, h: 272 },
            DrawCmd::SetColor { r: 0xaa, g: 0xaa, b: 0xaa },
            DrawCmd::FillRect { x: 508, y: 168, w: 16, h: 16 },
        ]
    );
}

#[test]
fn slider_draws_highlighted_thumb_when_hot() {
    // pointer in the band, button up: hot but not active, thumb highlighted
    let mut s = state_at(510, 50, false);
    let mut cmds = Vec::new();
    let mut value = 0;
    s.prepare();
    let changed = s.slider(&mut cmds, 7, 500, 40, 255, &mut value);
    assert!(!changed);
    assert_eq!(
        cmds,
        vec![
            DrawCmd::SetColor { r: 0x77, g: 0x77, b: 0x77 },
            DrawCmd::FillRect { x: 500, y: 40, w: 32, h: 272 },
            DrawCmd::SetColor { r: 0xff, g: 0xff, b: 0xff },
            DrawCmd::FillRect { x: 508, y: 48, w: 16, h: 16 },
        ]
    );
}

#[test]
fn slider_grab_persists_off_track() {
    // grab the slider, then drag far off the track with the button held:
    // the slider stays active and keeps following the pointer
    let mut s = state_at(510, 48, true);
    let mut cmds = Vec::new();
    let mut value = 0;
    s.prepare();
    s.slider(&mut cmds, 7, 500, 40, 255, &mut value);
    s.finish();
    assert_eq!(s.active_item, Some(7));
    assert_eq!(value, 0);

    // pointer now well off the track horizontally, at band offset 30
    s.update_input(InputSnapshot { x: 0, y: 40 + 8 + 30, down: true });
    s.prepare();
    let changed = s.slider(&mut cmds, 7, 500, 40, 255, &mut value);
    s.finish();
    assert!(changed);
    assert_eq!(value, 30);
    assert_eq!(s.active_item, Some(7));
}
