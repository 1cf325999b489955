use lr_formatter_rs::formats::lrb::unsupported_warning::UnsupportedModWarning;
use lr_formatter_rs::track::rgb_color::RGBColor;
use lr_formatter_rs::track::trigger_group::{
    BackgroundColorEvent, CameraZoomEvent, FrameBoundsTrigger, FrameReachedTrigger,
    LineHitTrigger, LineColorEvent,
};
use lr_formatter_rs::track::vec2::{Scalar, Vec2};
use lr_formatter_rs::util::bytes_to_hex_string;

#[test]
fn css_string_renders_two_lowercase_digits_per_channel() {
    let c = RGBColor::new(10, 20, 30);
    assert_eq!(c.to_css_string(), "#0a141e");
}

#[test]
fn css_string_of_default_background_color() {
    let c = RGBColor::new(244, 245, 249);
    assert_eq!(c.to_css_string(), "#f4f5f9");
}

#[test]
fn css_string_of_black_and_white() {
    assert_eq!(RGBColor::new(0, 0, 0).to_css_string(), "#000000");
    assert_eq!(RGBColor::new(255, 255, 255).to_css_string(), "#ffffff");
}

#[test]
fn hex_string_of_bytes() {
    assert_eq!(bytes_to_hex_string(&[0xab, 0x00, 0xff]), "ab00ff");
    assert_eq!(bytes_to_hex_string(&[]), "");
    assert_eq!(bytes_to_hex_string(&[9]), "09");
}

#[test]
fn scalar_carries_bits_exactly() {
    let s = Scalar::new(1.5f64.to_bits());
    assert_eq!(f64::from_bits(s.bits), 1.5);
    assert_eq!(Scalar::zero().bits, 0);
}

#[test]
fn vec2_holds_its_coordinates() {
    let v = Vec2::new(Scalar::new(1), Scalar::new(2));
    assert_eq!(v.x.bits, 1);
    assert_eq!(v.y.bits, 2);
}

#[test]
fn trigger_primitives_hold_their_fields() {
    assert_eq!(LineHitTrigger::new(7).id, 7);
    assert_eq!(FrameReachedTrigger::new(40).frame, 40);
    let fb = FrameBoundsTrigger::new(3, 9);
    assert_eq!((fb.start, fb.end), (3, 9));
    assert_eq!(CameraZoomEvent::new(Scalar::new(5)).zoom.bits, 5);
    assert_eq!(BackgroundColorEvent::new(RGBColor::new(1, 2, 3)).color, RGBColor::new(1, 2, 3));
    assert_eq!(LineColorEvent::new(RGBColor::new(4, 5, 6)).color, RGBColor::new(4, 5, 6));
}

#[test]
fn unsupported_mod_warning_records_its_aspects() {
    let mut w = UnsupportedModWarning::new(String::from("some.mod"), 3);
    assert_eq!(w.name(), "some.mod");
    assert_eq!(w.version(), 3);
    assert!(!w.affects_physics());
    assert!(!w.affects_camera());
    assert!(!w.affects_scenery());
    w.physics();
    w.scenery();
    assert!(w.affects_physics());
    assert!(!w.affects_camera());
    assert!(w.affects_scenery());
}
