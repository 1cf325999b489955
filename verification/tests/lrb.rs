use lr_formatter_rs::formats::lrb::error::LrbReadError;
use lr_formatter_rs::formats::lrb::reader::{
    read, CAMERA, EXTRA_DATA, PHYSICS, REQUIRED, SCENERY,
};
use lr_formatter_rs::formats::lrb::unsupported_warning::LrbReadWarning;
use lr_formatter_rs::track::metadata::GridVersion;
use lr_formatter_rs::track::TrackFeature;

fn header(mod_count: u16) -> Vec<u8> {
    let mut d = vec![b'L', b'R', b'B', 1];
    d.extend_from_slice(&mod_count.to_le_bytes());
    d
}

fn entry(d: &mut Vec<u8>, name: &str, version: u16, flags: u8, address: Option<(u64, u64)>) {
    d.push(name.len() as u8);
    d.extend_from_slice(name.as_bytes());
    d.extend_from_slice(&version.to_le_bytes());
    d.push(flags);
    if let Some((offset, length)) = address {
        d.extend_from_slice(&offset.to_le_bytes());
        d.extend_from_slice(&length.to_le_bytes());
    }
}

#[test]
fn minimal_container_decodes_to_a_bare_track() {
    let d = header(0);
    let (track, warnings) = read(d).unwrap();
    assert!(warnings.is_empty());
    assert_eq!(track.metadata().title, "");
    assert_eq!(track.metadata().grid_version, GridVersion::V6_2);
    assert!(track.line_group().standard_lines().is_empty());
    assert!(track.line_group().acceleration_lines().is_empty());
    assert!(track.line_group().scenery_lines().is_empty());
    assert!(track.layer_group().is_none());
    assert!(track.rider_group().is_none());
    assert!(track.background_color_group().is_none());
    assert!(track.line_color_group().is_none());
    assert!(track.camera_zoom_group().is_none());
    assert!(track.legacy_camera_zoom_group().is_none());
}

#[test]
fn bad_magic_is_invalid_data_with_the_observed_bytes_in_hex() {
    let d = vec![1u8, 2, 3, 0, 0, 0];
    let e = read(d).unwrap_err();
    match e {
        LrbReadError::InvalidData { name, value } => {
            assert_eq!(name, "magic_number");
            assert_eq!(value, "010203");
        },
        other => panic!("unexpected error: {:?}", other),
    }
}

#[test]
fn truncated_header_is_io() {
    assert!(matches!(read(vec![b'L', b'R']).unwrap_err(), LrbReadError::Io));
    assert!(matches!(read(vec![b'L', b'R', b'B']).unwrap_err(), LrbReadError::Io));
    assert!(matches!(read(vec![b'L', b'R', b'B', 1, 2]).unwrap_err(), LrbReadError::Io));
}

#[test]
fn truncated_mod_table_is_io() {
    let mut d = header(1);
    d.push(4);
    d.extend_from_slice(b"ba");
    assert!(matches!(read(d).unwrap_err(), LrbReadError::Io));
}

#[test]
fn invalid_utf8_mod_name_is_rejected() {
    let mut d = header(1);
    d.push(1);
    d.push(0xff);
    d.extend_from_slice(&0u16.to_le_bytes());
    d.push(0);
    assert!(matches!(read(d).unwrap_err(), LrbReadError::FromUTF8Error));
}

#[test]
fn required_unsupported_mod_aborts_the_decode() {
    let mut d = header(1);
    entry(&mut d, "unknown.mod", 3, REQUIRED, None);
    let e = read(d).unwrap_err();
    match e {
        LrbReadError::UnsupportedRequiredMod { name, version } => {
            assert_eq!(name, "unknown.mod");
            assert_eq!(version, 3);
        },
        other => panic!("unexpected error: {:?}", other),
    }
}

#[test]
fn optional_unsupported_mod_becomes_a_warning() {
    let mut d = header(1);
    entry(&mut d, "unknown.mod", 1, SCENERY | PHYSICS, None);
    let (_track, warnings) = read(d).unwrap();
    assert_eq!(warnings.len(), 1);
    let LrbReadWarning::UnsupportedMod(w) = &warnings[0];
    assert_eq!(w.name(), "unknown.mod");
    assert_eq!(w.version(), 1);
    assert!(w.affects_physics());
    assert!(!w.affects_camera());
    assert!(w.affects_scenery());
}

#[test]
fn optional_unsupported_mod_camera_flag_is_carried() {
    let mut d = header(1);
    entry(&mut d, "cam.mod", 2, CAMERA, None);
    let (_track, warnings) = read(d).unwrap();
    let LrbReadWarning::UnsupportedMod(w) = &warnings[0];
    assert!(!w.affects_physics());
    assert!(w.affects_camera());
    assert!(!w.affects_scenery());
}

#[test]
fn supported_mod_without_payload_runs_and_the_table_continues() {
    // base.zerostart carries no payload; a second entry decodes right
    // after it, so the cursor sat at the start of the next entry.
    let mut d = header(2);
    entry(&mut d, "base.zerostart", 0, 0, None);
    entry(&mut d, "unknown.mod", 1, 0, None);
    let (track, warnings) = read(d).unwrap();
    assert!(track.metadata().zero_velocity_start_riders);
    assert!(track.features().has(TrackFeature::ZeroVelocityStartRiders));
    assert_eq!(warnings.len(), 1);
    let LrbReadWarning::UnsupportedMod(w) = &warnings[0];
    assert_eq!(w.name(), "unknown.mod");
}

#[test]
fn supported_mod_with_wrong_version_is_unsupported() {
    let mut d = header(1);
    entry(&mut d, "base.zerostart", 7, 0, None);
    let (track, warnings) = read(d).unwrap();
    assert!(!track.metadata().zero_velocity_start_riders);
    assert_eq!(warnings.len(), 1);
}

#[test]
fn gridver_payload_is_read_through_its_recorded_offset() {
    // Header (6) + one entry with address (1 + 12 + 2 + 1 + 16 = 32):
    // the payload starts at 38.
    let mut d = header(1);
    entry(&mut d, "base.gridver", 0, EXTRA_DATA, Some((38, 1)));
    assert_eq!(d.len(), 38);
    d.push(0);
    let (track, warnings) = read(d).unwrap();
    assert!(warnings.is_empty());
    assert_eq!(track.metadata().grid_version, GridVersion::V6_0);
}

#[test]
fn gridver_payload_with_an_unknown_code_is_invalid_data() {
    let mut d = header(1);
    entry(&mut d, "base.gridver", 0, EXTRA_DATA, Some((38, 1)));
    d.push(9);
    let e = read(d).unwrap_err();
    match e {
        LrbReadError::InvalidData { name, value } => {
            assert_eq!(name, "grid_version");
            assert_eq!(value, "09");
        },
        other => panic!("unexpected error: {:?}", other),
    }
}

#[test]
fn label_payload_sets_the_title() {
    let mut d = header(1);
    entry(&mut d, "base.label", 0, EXTRA_DATA, Some((36, 6)));
    assert_eq!(d.len(), 36);
    let title = "caf\u{e9}";
    d.extend_from_slice(&(title.len() as u16).to_le_bytes());
    d.extend_from_slice(title.as_bytes());
    let (track, _warnings) = read(d).unwrap();
    assert_eq!(track.metadata().title, "caf\u{e9}");
}

#[test]
fn label_payload_with_invalid_utf8_is_rejected() {
    let mut d = header(1);
    entry(&mut d, "base.label", 0, EXTRA_DATA, Some((36, 3)));
    d.extend_from_slice(&1u16.to_le_bytes());
    d.push(0xc0);
    assert!(matches!(read(d).unwrap_err(), LrbReadError::FromUTF8Error));
}

#[test]
fn simline_payload_fills_the_line_group() {
    let mut d = header(1);
    entry(&mut d, "base.simline", 0, EXTRA_DATA, Some((38, 78)));
    assert_eq!(d.len(), 38);
    d.extend_from_slice(&2u32.to_le_bytes());
    // id 5, flipped + right extension, endpoints (1.5, -2.0) .. (3.25, 0.0)
    d.extend_from_slice(&5u32.to_le_bytes());
    d.push(1 | 4);
    d.extend_from_slice(&1.5f64.to_bits().to_le_bytes());
    d.extend_from_slice(&(-2.0f64).to_bits().to_le_bytes());
    d.extend_from_slice(&3.25f64.to_bits().to_le_bytes());
    d.extend_from_slice(&0.0f64.to_bits().to_le_bytes());
    // id 6, left extension only, endpoints (0,0) .. (1,1)
    d.extend_from_slice(&6u32.to_le_bytes());
    d.push(2);
    d.extend_from_slice(&0.0f64.to_bits().to_le_bytes());
    d.extend_from_slice(&0.0f64.to_bits().to_le_bytes());
    d.extend_from_slice(&1.0f64.to_bits().to_le_bytes());
    d.extend_from_slice(&1.0f64.to_bits().to_le_bytes());
    let (track, _warnings) = read(d).unwrap();
    let lines = track.line_group().standard_lines();
    assert_eq!(lines.len(), 2);
    assert_eq!(lines[0].id, 5);
    assert!(lines[0].flipped);
    assert!(!lines[0].left_extension);
    assert!(lines[0].right_extension);
    assert_eq!(lines[0].endpoints.0.x.bits, 1.5f64.to_bits());
    assert_eq!(lines[0].endpoints.0.y.bits, (-2.0f64).to_bits());
    assert_eq!(lines[0].endpoints.1.x.bits, 3.25f64.to_bits());
    assert_eq!(lines[1].id, 6);
    assert!(lines[1].left_extension);
    assert!(!lines[1].flipped);
}

#[test]
fn truncated_simline_payload_is_io() {
    let mut d = header(1);
    entry(&mut d, "base.simline", 0, EXTRA_DATA, Some((38, 10)));
    d.extend_from_slice(&1u32.to_le_bytes());
    d.extend_from_slice(&5u32.to_le_bytes());
    assert!(matches!(read(d).unwrap_err(), LrbReadError::Io));
}

#[test]
fn scnline_payload_fills_the_scenery_lines() {
    let mut d = header(1);
    entry(&mut d, "base.scnline", 0, EXTRA_DATA, Some((38, 40)));
    d.extend_from_slice(&1u32.to_le_bytes());
    d.extend_from_slice(&9u32.to_le_bytes());
    d.extend_from_slice(&0.5f64.to_bits().to_le_bytes());
    d.extend_from_slice(&0.5f64.to_bits().to_le_bytes());
    d.extend_from_slice(&4.5f64.to_bits().to_le_bytes());
    d.extend_from_slice(&0.5f64.to_bits().to_le_bytes());
    let (track, _warnings) = read(d).unwrap();
    let lines = track.line_group().scenery_lines();
    assert_eq!(lines.len(), 1);
    assert_eq!(lines[0].id, 9);
    assert_eq!(lines[0].width, None);
    assert_eq!(lines[0].endpoints.1.x.bits, 4.5f64.to_bits());
}

#[test]
fn startoffset_payload_sets_the_start_position() {
    let mut d = header(1);
    entry(&mut d, "base.startoffset", 0, EXTRA_DATA, Some((42, 16)));
    assert_eq!(d.len(), 42);
    d.extend_from_slice(&7.0f64.to_bits().to_le_bytes());
    d.extend_from_slice(&(-8.0f64).to_bits().to_le_bytes());
    let (track, _warnings) = read(d).unwrap();
    assert_eq!(track.metadata().start_position.x.bits, 7.0f64.to_bits());
    assert_eq!(track.metadata().start_position.y.bits, (-8.0f64).to_bits());
}

#[test]
fn payload_offset_past_the_buffer_is_io() {
    let mut d = header(1);
    entry(&mut d, "base.gridver", 0, EXTRA_DATA, Some((10_000, 1)));
    assert!(matches!(read(d).unwrap_err(), LrbReadError::Io));
}
