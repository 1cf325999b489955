use lr_formatter_rs::track::group_builder::GroupBuilderError;
use lr_formatter_rs::track::layer_group::{LayerFeature, LayerGroupBuilder};
use lr_formatter_rs::track::line_group::{LineFeature, LineGroupBuilder, LineSubBuilderError};
use lr_formatter_rs::track::metadata::{GridVersion, MetadataBuilder};
use lr_formatter_rs::track::rgb_color::RGBColor;
use lr_formatter_rs::track::rider_group::{RiderFeature, RiderGroupBuilder};
use lr_formatter_rs::track::trigger_group::{
    BackgroundColorEvent, BackgroundColorGroupBuilder, FrameBoundsTrigger,
    TriggeredEventBuilderError,
};
use lr_formatter_rs::track::vec2::{Scalar, Vec2};
use lr_formatter_rs::track::{TrackBuilder, TrackFeature};

fn v(x: u64, y: u64) -> Vec2 {
    Vec2::new(Scalar::new(x), Scalar::new(y))
}

#[test]
fn rider_attribute_without_flag_is_missing_feature_flag() {
    let mut b = RiderGroupBuilder::new();
    let r = b.add_rider();
    r.start_position(v(0, 0));
    r.start_angle(Scalar::new(1));
    let e = b.build().unwrap_err();
    assert!(matches!(e, GroupBuilderError::MissingFeatureFlag(RiderFeature::StartAngle)));
}

#[test]
fn rider_flag_without_attribute_is_missing_attribute() {
    let mut b = RiderGroupBuilder::new();
    b.enable_feature(RiderFeature::StartAngle);
    let r = b.add_rider();
    r.start_position(v(0, 0));
    let e = b.build().unwrap_err();
    assert!(matches!(e, GroupBuilderError::MissingAttribute("start_angle")));
}

#[test]
fn rider_flag_and_attribute_together_succeed() {
    let mut b = RiderGroupBuilder::new();
    b.enable_feature(RiderFeature::StartAngle);
    let r = b.add_rider();
    r.start_position(v(3, 4));
    r.start_angle(Scalar::new(9));
    let g = b.build().unwrap();
    assert_eq!(g.riders().len(), 1);
    assert_eq!(g.riders()[0].start_position, v(3, 4));
    assert_eq!(g.riders()[0].start_angle, Some(Scalar::new(9)));
    assert_eq!(g.riders()[0].start_velocity, None);
}

#[test]
fn rider_without_start_position_is_a_sub_builder_error() {
    let mut b = RiderGroupBuilder::new();
    b.add_rider();
    let e = b.build().unwrap_err();
    assert!(matches!(e, GroupBuilderError::SubBuilderError(_)));
}

#[test]
fn multiplier_without_flag_is_missing_feature_flag() {
    let mut b = LineGroupBuilder::new();
    let l = b.add_acceleration_line(1, (v(0, 0), v(1, 1)), false, false, false).unwrap();
    l.multiplier(Scalar::new(2));
    let e = b.build().unwrap_err();
    assert!(matches!(
        e,
        GroupBuilderError::MissingFeatureFlag(LineFeature::AccelerationMultiplier)
    ));
}

#[test]
fn multiplier_flag_without_attribute_is_missing_attribute() {
    let mut b = LineGroupBuilder::new();
    b.enable_feature(LineFeature::AccelerationMultiplier);
    b.add_acceleration_line(1, (v(0, 0), v(1, 1)), false, false, false).unwrap();
    let e = b.build().unwrap_err();
    assert!(matches!(e, GroupBuilderError::MissingAttribute("multiplier")));
}

#[test]
fn scenery_width_agreement_succeeds() {
    let mut b = LineGroupBuilder::new();
    b.enable_feature(LineFeature::SceneryWidth);
    let l = b.add_scenery_line(5, (v(0, 0), v(2, 2))).unwrap();
    l.width(Scalar::new(7));
    let g = b.build().unwrap();
    assert_eq!(g.scenery_lines().len(), 1);
    assert_eq!(g.scenery_lines()[0].width, Some(Scalar::new(7)));
    assert!(g.features().has(LineFeature::SceneryWidth));
}

#[test]
fn standard_lines_build_without_flags() {
    let mut b = LineGroupBuilder::new();
    b.add_standard_line(1, (v(0, 0), v(1, 0)), true, true, false).unwrap();
    b.add_standard_line(2, (v(1, 0), v(2, 0)), false, false, true).unwrap();
    let g = b.build().unwrap();
    assert_eq!(g.standard_lines().len(), 2);
    assert_eq!(g.standard_lines()[0].id, 1);
    assert!(g.standard_lines()[0].flipped);
    assert!(g.standard_lines()[1].right_extension);
}

#[test]
fn line_group_reports_the_failing_leaf_kind() {
    let mut b = LineGroupBuilder::new();
    {
        let lines = b.get_standard_lines();
        lines.push(Default::default());
    }
    let e = b.build().unwrap_err();
    assert!(matches!(
        e,
        GroupBuilderError::SubBuilderError(LineSubBuilderError::StandardLine(_))
    ));
}

#[test]
fn layer_folder_requires_the_folders_flag() {
    let mut b = LayerGroupBuilder::new();
    let e = b.add_layer_folder(1, 0).unwrap_err();
    assert!(matches!(e, GroupBuilderError::MissingFeatureFlag(LayerFeature::Folders)));
    assert!(b.get_layer_folders().is_err());
    b.enable_feature(LayerFeature::Folders);
    assert!(b.add_layer_folder(1, 0).is_ok());
    assert_eq!(b.get_layer_folders().unwrap().len(), 1);
}

#[test]
fn layer_folder_id_is_gated_by_folders() {
    let mut b = LayerGroupBuilder::new();
    b.enable_feature(LayerFeature::Folders);
    b.add_layer(1, 0).unwrap();
    let e = b.build().unwrap_err();
    assert!(matches!(e, GroupBuilderError::MissingAttribute("folder_id")));

    let mut b2 = LayerGroupBuilder::new();
    let l = b2.add_layer(1, 0).unwrap();
    l.folder_id(Some(9));
    let e2 = b2.build().unwrap_err();
    assert!(matches!(e2, GroupBuilderError::MissingFeatureFlag(LayerFeature::Folders)));
}

#[test]
fn layer_group_with_consistent_folders_builds() {
    let mut b = LayerGroupBuilder::new();
    b.enable_feature(LayerFeature::Folders);
    b.enable_feature(LayerFeature::Name);
    {
        let l = b.add_layer(1, 0).unwrap();
        l.name(String::from("ground"));
        l.folder_id(None);
    }
    {
        let f = b.add_layer_folder(2, 1).unwrap();
        f.name(String::from("props"));
        f.size(4);
    }
    let g = b.build().unwrap();
    assert_eq!(g.layers().len(), 1);
    assert_eq!(g.layers()[0].name.as_deref(), Some("ground"));
    assert_eq!(g.layers()[0].folder_id, Some(None));
    let folders = g.layer_folders().as_ref().unwrap();
    assert_eq!(folders.len(), 1);
    assert_eq!(folders[0].size, Some(4));
}

#[test]
fn triggered_event_needs_both_halves() {
    let mut b = BackgroundColorGroupBuilder::new();
    let t = b.add_trigger();
    t.trigger(FrameBoundsTrigger::new(0, 10));
    let e = b.build().unwrap_err();
    assert!(matches!(
        e,
        GroupBuilderError::SubBuilderError(TriggeredEventBuilderError::MissingAttribute("event"))
    ));
}

#[test]
fn trigger_group_keeps_insertion_order_and_default_initial() {
    let mut b = BackgroundColorGroupBuilder::new();
    {
        let t = b.add_trigger();
        t.trigger(FrameBoundsTrigger::new(0, 10));
        t.event(BackgroundColorEvent::new(RGBColor::new(1, 1, 1)));
    }
    {
        let t = b.add_trigger();
        t.trigger(FrameBoundsTrigger::new(10, 20));
        t.event(BackgroundColorEvent::new(RGBColor::new(2, 2, 2)));
    }
    let g = b.build().unwrap();
    assert_eq!(*g.initial(), BackgroundColorEvent::new(RGBColor::new(244, 245, 249)));
    assert_eq!(g.triggers().len(), 2);
    assert_eq!(g.triggers()[0].event.color, RGBColor::new(1, 1, 1));
    assert_eq!(g.triggers()[1].trigger.start, 10);
}

#[test]
fn builder_errors_render_their_diagnostic_text() {
    let mut b = RiderGroupBuilder::new();
    b.enable_feature(RiderFeature::StartAngle);
    let r = b.add_rider();
    r.start_position(v(0, 0));
    let e = b.build().unwrap_err();
    assert_eq!(e.message(), "Expected attribute to be set: start_angle");

    let mut b2 = RiderGroupBuilder::new();
    let r2 = b2.add_rider();
    r2.start_position(v(0, 0));
    r2.start_angle(Scalar::new(1));
    let e2 = b2.build().unwrap_err();
    assert_eq!(e2.message(), "Expected feature to be registered: StartAngle");

    let mut b3 = RiderGroupBuilder::new();
    b3.add_rider();
    let e3 = b3.build().unwrap_err();
    assert_eq!(e3.message(), "Sub-builder failed");
}

#[test]
fn metadata_builder_defaults() {
    let m = MetadataBuilder::new().build();
    assert_eq!(m.title, "");
    assert_eq!(m.artist, None);
    assert_eq!(m.grid_version, GridVersion::V6_2);
    assert_eq!(m.start_zoom.bits, 1.0f64.to_bits());
    assert_eq!(m.start_gravity.y.bits, 1.0f64.to_bits());
    assert_eq!(m.start_line_color, RGBColor::new(0, 0, 0));
    assert_eq!(m.start_background_color, RGBColor::new(244, 245, 249));
    assert!(!m.zero_velocity_start_riders);
}

#[test]
fn accumulated_leaf_builders_are_open_to_revision() {
    let mut b = RiderGroupBuilder::new();
    let r = b.add_rider();
    r.start_position(v(0, 0));
    for rider in b.get_riders().iter_mut() {
        rider.start_position(v(8, 8));
    }
    let g = b.build().unwrap();
    assert_eq!(g.riders()[0].start_position, v(8, 8));

    let mut lb = LineGroupBuilder::new();
    lb.enable_feature(LineFeature::AccelerationMultiplier);
    lb.add_acceleration_line(1, (v(0, 0), v(1, 1)), false, false, false).unwrap();
    for line in lb.get_acceleration_lines().iter_mut() {
        line.multiplier(Scalar::new(3));
    }
    let lg = lb.build().unwrap();
    assert_eq!(lg.acceleration_lines()[0].multiplier, Some(Scalar::new(3)));
}

#[test]
fn metadata_setters_record_every_field() {
    let mut m = MetadataBuilder::new();
    m.title(String::from("a"));
    m.artist(String::from("b"));
    m.description(String::from("c"));
    m.script(String::from("d"));
    m.grid_version(GridVersion::V6_0);
    m.start_position(v(1, 2));
    m.start_gravity(v(3, 4));
    m.start_zoom(Scalar::new(5));
    m.start_line_color(RGBColor::new(1, 2, 3));
    m.start_background_color(RGBColor::new(4, 5, 6));
    m.duration(120);
    m.gravity_well_size(Scalar::new(10));
    m.zero_velocity_start_riders(true);
    let built = m.build();
    assert_eq!(built.title, "a");
    assert_eq!(built.artist.as_deref(), Some("b"));
    assert_eq!(built.description.as_deref(), Some("c"));
    assert_eq!(built.script.as_deref(), Some("d"));
    assert_eq!(built.grid_version, GridVersion::V6_0);
    assert_eq!(built.start_position, v(1, 2));
    assert_eq!(built.start_gravity, v(3, 4));
    assert_eq!(built.start_zoom, Scalar::new(5));
    assert_eq!(built.start_line_color, RGBColor::new(1, 2, 3));
    assert_eq!(built.start_background_color, RGBColor::new(4, 5, 6));
    assert_eq!(built.duration, Some(120));
    assert_eq!(built.gravity_well_size, Some(Scalar::new(10)));
    assert!(built.zero_velocity_start_riders);
}

#[test]
fn track_group_accessors_fail_before_their_flag_is_enabled() {
    let mut b = TrackBuilder::new();
    assert!(matches!(
        b.layer_group().unwrap_err(),
        GroupBuilderError::MissingFeatureFlag(TrackFeature::Layers)
    ));
    assert!(matches!(
        b.rider_group().unwrap_err(),
        GroupBuilderError::MissingFeatureFlag(TrackFeature::RiderProperties)
    ));
    assert!(matches!(
        b.background_color_group().unwrap_err(),
        GroupBuilderError::MissingFeatureFlag(TrackFeature::BackgroundColorTriggers)
    ));
    assert!(matches!(
        b.line_color_group().unwrap_err(),
        GroupBuilderError::MissingFeatureFlag(TrackFeature::LineColorTriggers)
    ));
    assert!(matches!(
        b.camera_zoom_group().unwrap_err(),
        GroupBuilderError::MissingFeatureFlag(TrackFeature::CameraZoomTriggers)
    ));
    assert!(matches!(
        b.legacy_camera_zoom_group().unwrap_err(),
        GroupBuilderError::MissingFeatureFlag(TrackFeature::LegacyCameraZoomTriggers)
    ));
    b.enable_feature(TrackFeature::Layers);
    assert!(b.layer_group().is_ok());
}

#[test]
fn track_optional_groups_exist_exactly_when_enabled() {
    let mut b = TrackBuilder::new();
    b.enable_feature(TrackFeature::RiderProperties);
    {
        let rg = b.rider_group().unwrap();
        let r = rg.add_rider();
        r.start_position(v(1, 2));
    }
    let t = b.build().unwrap();
    assert!(t.rider_group().is_some());
    assert!(t.layer_group().is_none());
    assert!(t.background_color_group().is_none());
    assert!(t.line_color_group().is_none());
    assert!(t.camera_zoom_group().is_none());
    assert!(t.legacy_camera_zoom_group().is_none());
    assert!(t.features().has(TrackFeature::RiderProperties));
    assert!(!t.features().has(TrackFeature::Layers));
}

#[test]
fn finalizing_the_same_builder_state_twice_yields_equal_tracks() {
    let mut b = TrackBuilder::new();
    b.metadata().title(String::from("loop"));
    b.metadata().start_line_color(RGBColor::new(9, 9, 9));
    b.line_group().add_standard_line(1, (v(0, 0), v(1, 1)), false, true, false).unwrap();
    b.enable_feature(TrackFeature::RiderProperties);
    {
        let rg = b.rider_group().unwrap();
        let r = rg.add_rider();
        r.start_position(v(5, 6));
    }
    let t1 = b.build().unwrap();
    let t2 = b.build().unwrap();
    assert_eq!(t1.metadata(), t2.metadata());
    assert_eq!(t1.line_group().standard_lines(), t2.line_group().standard_lines());
    assert_eq!(t1.line_group().acceleration_lines(), t2.line_group().acceleration_lines());
    assert_eq!(t1.line_group().scenery_lines(), t2.line_group().scenery_lines());
    assert_eq!(
        t1.rider_group().as_ref().unwrap().riders(),
        t2.rider_group().as_ref().unwrap().riders()
    );
    assert_eq!(t1.layer_group().is_none(), t2.layer_group().is_none());
    assert_eq!(
        t1.features().has(TrackFeature::RiderProperties),
        t2.features().has(TrackFeature::RiderProperties)
    );
}
