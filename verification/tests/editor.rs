use deepzoom::bigfloat::{real_from_u32, real_to_decimal, real_to_f32_bits};
use deepzoom::editor::{FieldEvents, Interface, LargeFloatEditor, Viewport};

const PRECISION: u32 = 64;

fn commit() -> FieldEvents {
    FieldEvents { lost_focus: true, enter_pressed: true, changed: false }
}

fn blur() -> FieldEvents {
    FieldEvents { lost_focus: true, enter_pressed: false, changed: false }
}

fn idle() -> FieldEvents {
    FieldEvents { lost_focus: false, enter_pressed: false, changed: false }
}

#[test]
fn commit_applies_parsed_value() {
    let mut field = LargeFloatEditor::new();
    field.value = String::from("0.25");
    field.editing = true;
    let mut target = real_from_u32(7, PRECISION);
    field.ui(&mut target, PRECISION, commit());
    assert!(!field.editing);
    assert_eq!(f32::from_bits(real_to_f32_bits(&target)), 0.25);
}

#[test]
fn failed_parse_keeps_prior_value_and_edit_mode() {
    let mut field = LargeFloatEditor::new();
    field.value = String::from("not a number");
    field.editing = true;
    let mut target = real_from_u32(7, PRECISION);
    field.ui(&mut target, PRECISION, commit());
    assert!(field.editing);
    assert_eq!(field.value, "not a number");
    assert_eq!(f32::from_bits(real_to_f32_bits(&target)), 7.0);
}

#[test]
fn blur_without_commit_discards_draft() {
    let mut field = LargeFloatEditor::new();
    field.value = String::from("0.25");
    field.editing = true;
    let mut target = real_from_u32(7, PRECISION);
    field.ui(&mut target, PRECISION, blur());
    assert!(!field.editing);
    assert_eq!(f32::from_bits(real_to_f32_bits(&target)), 7.0);
}

#[test]
fn displaying_shows_decimal_text_and_tracks_change() {
    let mut field = LargeFloatEditor::new();
    let mut target = real_from_u32(3, PRECISION);
    field.ui(
        &mut target,
        PRECISION,
        FieldEvents { lost_focus: false, enter_pressed: false, changed: true },
    );
    assert!(field.editing);
    assert_eq!(field.value, real_to_decimal(&target));
    assert_eq!(f32::from_bits(real_to_f32_bits(&target)), 3.0);
}

#[test]
fn editing_without_focus_loss_changes_nothing() {
    let mut field = LargeFloatEditor::new();
    field.value = String::from("0.5");
    field.editing = true;
    let mut target = real_from_u32(7, PRECISION);
    field.ui(&mut target, PRECISION, idle());
    assert!(field.editing);
    assert_eq!(field.value, "0.5");
    assert_eq!(f32::from_bits(real_to_f32_bits(&target)), 7.0);
}

#[test]
fn interface_commits_center_coordinate() {
    let mut interface = Interface::new();
    let mut viewport = Viewport::new(PRECISION);
    assert_eq!(f32::from_bits(real_to_f32_bits(&viewport.zoom)), 1.0);
    interface.position_toolbar.re.value = String::from("-0.75");
    interface.position_toolbar.re.editing = true;
    interface.ui(&mut viewport, PRECISION, commit(), idle(), idle());
    assert_eq!(f32::from_bits(real_to_f32_bits(&viewport.center.re)), -0.75);
    assert_eq!(f32::from_bits(real_to_f32_bits(&viewport.center.im)), 0.0);
    assert!(!interface.position_toolbar.re.editing);
}

#[test]
fn fresh_interface_is_displaying() {
    let interface = Interface::new();
    assert!(!interface.position_toolbar.re.editing);
    assert!(!interface.position_toolbar.im.editing);
    assert!(!interface.position_toolbar.zoom.editing);
    assert_eq!(interface.position_toolbar.re.value, "");
}

#[test]
fn interface_commits_zoom() {
    let mut interface = Interface::new();
    let mut viewport = Viewport::new(PRECISION);
    interface.position_toolbar.zoom.value = String::from("1024");
    interface.position_toolbar.zoom.editing = true;
    interface.ui(&mut viewport, PRECISION, idle(), idle(), commit());
    assert_eq!(f32::from_bits(real_to_f32_bits(&viewport.zoom)), 1024.0);
}
