//! Feature/attribute agreement, stated and proved once per aggregate:
//! declaring a flag and omitting its attribute fails finalization with
//! `MissingAttribute`; supplying the attribute without the flag fails
//! with `MissingFeatureFlag`; doing both consistently (or neither)
//! succeeds.

use crate::track::group_builder::GroupBuilderError;
use crate::track::layer_group::{
    spec_build_layer_folders, spec_build_layer_group, spec_build_layers, LayerBuilder,
    LayerFeature, LayerFolderBuilder, LayerGroupBuilderV,
};
use crate::track::line_group::{
    spec_build_acceleration_lines, spec_build_line_group, spec_build_scenery_lines,
    spec_build_standard_lines, AccelerationLineBuilder, LineFeature, LineGroupBuilderV,
    SceneryLineBuilder, StandardLineBuilder,
};
use crate::track::rider_group::{spec_build_rider_group, spec_build_riders, RiderBuilder,
    RiderFeature, RiderGroupBuilderV};
use crate::track::metadata::MetadataV;
use crate::track::trigger_group::spec_build_trigger_group;
use crate::track::{spec_build_track, TrackBuilderError, TrackBuilderV, TrackFeature, TrackV};
use vstd::prelude::*;

verus! {

/// Standard lines carry no gated attribute: they finalize exactly when
/// every leaf is complete.
pub proof fn lemma_standard_lines_agreement(bs: Seq<StandardLineBuilder>)
    ensures
        spec_build_standard_lines(bs) is Ok <==> (forall|i: int|
            0 <= i < bs.len() ==> (#[trigger] bs[i]).spec_build() is Ok),
    decreases bs.len(),
{
    if bs.len() != 0 {
        lemma_standard_lines_agreement(bs.drop_first());
        assert forall|i: int|
            0 <= i < bs.len() && spec_build_standard_lines(bs) is Ok implies (
        #[trigger] bs[i]).spec_build() is Ok by {
            if i > 0 {
                assert(bs.drop_first()[i - 1] == bs[i]);
            }
        }
        if (forall|i: int| 0 <= i < bs.len() ==> (#[trigger] bs[i]).spec_build() is Ok) {
            assert(forall|i: int|
                0 <= i < bs.drop_first().len() ==> (#[trigger] bs.drop_first()[i]).spec_build()
                    is Ok);
        }
    }
}

/// An acceleration line agrees when it is complete and its multiplier's
/// presence matches `AccelerationMultiplier`.
pub open spec fn accel_leaf_agrees(features: Set<LineFeature>, b: AccelerationLineBuilder) -> bool {
    b.spec_build() is Ok && (features.contains(LineFeature::AccelerationMultiplier)
        <==> b.multiplier is Some)
}

/// Acceleration lines finalize exactly when every leaf is complete and
/// its multiplier agrees with the declared flags.
pub proof fn lemma_acceleration_lines_agreement(
    features: Set<LineFeature>,
    bs: Seq<AccelerationLineBuilder>,
)
    ensures
        spec_build_acceleration_lines(features, bs) is Ok <==> (forall|i: int|
            0 <= i < bs.len() ==> accel_leaf_agrees(features, #[trigger] bs[i])),
    decreases bs.len(),
{
    if bs.len() != 0 {
        lemma_acceleration_lines_agreement(features, bs.drop_first());
        assert forall|i: int|
            0 <= i < bs.len() && spec_build_acceleration_lines(features, bs) is Ok implies
            accel_leaf_agrees(features, #[trigger] bs[i]) by {
            if i > 0 {
                assert(bs.drop_first()[i - 1] == bs[i]);
            }
        }
        if (forall|i: int| 0 <= i < bs.len() ==> accel_leaf_agrees(features, #[trigger] bs[i])) {
            assert(forall|i: int|
                0 <= i < bs.drop_first().len() ==> accel_leaf_agrees(
                    features,
                    #[trigger] bs.drop_first()[i],
                ));
            assert(accel_leaf_agrees(features, bs[0]));
        }
    }
}

/// Declaring `AccelerationMultiplier` and omitting the multiplier on a
/// complete line fails with `MissingAttribute`; supplying it without
/// the flag fails with `MissingFeatureFlag`; agreement succeeds.
pub proof fn lemma_acceleration_line_feature_errors(
    features: Set<LineFeature>,
    b: AccelerationLineBuilder,
)
    requires
        b.spec_build() is Ok,
    ensures
        features.contains(LineFeature::AccelerationMultiplier) && b.multiplier is None
            ==> spec_build_acceleration_lines(features, seq![b]) == Err::<
            Seq<crate::track::line_group::AccelerationLine>,
            crate::track::line_group::LineGroupBuilderError,
        >(GroupBuilderError::MissingAttribute("multiplier")),
        b.multiplier is Some && !features.contains(LineFeature::AccelerationMultiplier)
            ==> spec_build_acceleration_lines(features, seq![b]) == Err::<
            Seq<crate::track::line_group::AccelerationLine>,
            crate::track::line_group::LineGroupBuilderError,
        >(GroupBuilderError::MissingFeatureFlag(LineFeature::AccelerationMultiplier)),
        (features.contains(LineFeature::AccelerationMultiplier) <==> b.multiplier is Some)
            ==> spec_build_acceleration_lines(features, seq![b]) is Ok,
{
    assert(seq![b][0] == b);
    assert(seq![b].drop_first() =~= Seq::<AccelerationLineBuilder>::empty());
    assert(spec_build_acceleration_lines(features, Seq::<AccelerationLineBuilder>::empty())
        == Ok::<Seq<crate::track::line_group::AccelerationLine>,
        crate::track::line_group::LineGroupBuilderError>(
        Seq::<crate::track::line_group::AccelerationLine>::empty(),
    ));
}

/// A scenery line agrees when it is complete and its width's presence
/// matches `SceneryWidth`.
pub open spec fn scenery_leaf_agrees(features: Set<LineFeature>, b: SceneryLineBuilder) -> bool {
    b.spec_build() is Ok && (features.contains(LineFeature::SceneryWidth) <==> b.width is Some)
}

/// Scenery lines finalize exactly when every leaf is complete and its
/// width agrees with the declared flags.
pub proof fn lemma_scenery_lines_agreement(
    features: Set<LineFeature>,
    bs: Seq<SceneryLineBuilder>,
)
    ensures
        spec_build_scenery_lines(features, bs) is Ok <==> (forall|i: int|
            0 <= i < bs.len() ==> scenery_leaf_agrees(features, #[trigger] bs[i])),
    decreases bs.len(),
{
    if bs.len() != 0 {
        lemma_scenery_lines_agreement(features, bs.drop_first());
        assert forall|i: int|
            0 <= i < bs.len() && spec_build_scenery_lines(features, bs) is Ok implies
            scenery_leaf_agrees(features, #[trigger] bs[i]) by {
            if i > 0 {
                assert(bs.drop_first()[i - 1] == bs[i]);
            }
        }
        if (forall|i: int| 0 <= i < bs.len() ==> scenery_leaf_agrees(features, #[trigger] bs[i])) {
            assert(forall|i: int|
                0 <= i < bs.drop_first().len() ==> scenery_leaf_agrees(
                    features,
                    #[trigger] bs.drop_first()[i],
                ));
            assert(scenery_leaf_agrees(features, bs[0]));
        }
    }
}

/// The line group finalizes exactly when all three line kinds do.
pub proof fn lemma_line_group_agreement(bv: LineGroupBuilderV)
    ensures
        spec_build_line_group(bv) is Ok <==> {
            &&& (forall|i: int|
                0 <= i < bv.standard_lines.len() ==> (
                #[trigger] bv.standard_lines[i]).spec_build() is Ok)
            &&& (forall|i: int|
                0 <= i < bv.acceleration_lines.len() ==> accel_leaf_agrees(
                    bv.features,
                    #[trigger] bv.acceleration_lines[i],
                ))
            &&& (forall|i: int|
                0 <= i < bv.scenery_lines.len() ==> scenery_leaf_agrees(
                    bv.features,
                    #[trigger] bv.scenery_lines[i],
                ))
        },
{
    lemma_standard_lines_agreement(bv.standard_lines);
    lemma_acceleration_lines_agreement(bv.features, bv.acceleration_lines);
    lemma_scenery_lines_agreement(bv.features, bv.scenery_lines);
}

/// A rider agrees when it is complete and each gated attribute's
/// presence matches its flag.
pub open spec fn rider_leaf_agrees(features: Set<RiderFeature>, b: RiderBuilder) -> bool {
    &&& b.spec_build() is Ok
    &&& (features.contains(RiderFeature::StartVelocity) <==> b.start_velocity is Some)
    &&& (features.contains(RiderFeature::StartAngle) <==> b.start_angle is Some)
    &&& (features.contains(RiderFeature::Remount) <==> b.can_remount is Some)
}

/// Riders finalize exactly when every leaf is complete and each gated
/// attribute agrees with the declared flags.
pub proof fn lemma_riders_agreement(features: Set<RiderFeature>, bs: Seq<RiderBuilder>)
    ensures
        spec_build_riders(features, bs) is Ok <==> (forall|i: int|
            0 <= i < bs.len() ==> rider_leaf_agrees(features, #[trigger] bs[i])),
    decreases bs.len(),
{
    if bs.len() != 0 {
        lemma_riders_agreement(features, bs.drop_first());
        assert forall|i: int|
            0 <= i < bs.len() && spec_build_riders(features, bs) is Ok implies rider_leaf_agrees(
            features,
            #[trigger] bs[i],
        ) by {
            if i > 0 {
                assert(bs.drop_first()[i - 1] == bs[i]);
            }
        }
        if (forall|i: int| 0 <= i < bs.len() ==> rider_leaf_agrees(features, #[trigger] bs[i])) {
            assert(forall|i: int|
                0 <= i < bs.drop_first().len() ==> rider_leaf_agrees(
                    features,
                    #[trigger] bs.drop_first()[i],
                ));
            assert(rider_leaf_agrees(features, bs[0]));
        }
    }
}

/// The rider group finalizes exactly when its riders do.
pub proof fn lemma_rider_group_agreement(bv: RiderGroupBuilderV)
    ensures
        spec_build_rider_group(bv) is Ok <==> (forall|i: int|
            0 <= i < bv.riders.len() ==> rider_leaf_agrees(bv.features, #[trigger] bv.riders[i])),
{
    lemma_riders_agreement(bv.features, bv.riders);
}

/// Declaring a rider flag and omitting its attribute on a complete
/// rider fails with `MissingAttribute`; supplying the attribute without
/// the flag fails with `MissingFeatureFlag`; agreement on all three
/// attributes succeeds.
pub proof fn lemma_rider_feature_errors(features: Set<RiderFeature>, b: RiderBuilder)
    requires
        b.spec_build() is Ok,
    ensures
        features.contains(RiderFeature::StartVelocity) && b.start_velocity is None
            ==> spec_build_riders(features, seq![b]) == Err::<
            Seq<crate::track::rider_group::Rider>,
            crate::track::rider_group::RiderGroupBuilderError,
        >(GroupBuilderError::MissingAttribute("start_velocity")),
        b.start_velocity is Some && !features.contains(RiderFeature::StartVelocity)
            ==> spec_build_riders(features, seq![b]) == Err::<
            Seq<crate::track::rider_group::Rider>,
            crate::track::rider_group::RiderGroupBuilderError,
        >(GroupBuilderError::MissingFeatureFlag(RiderFeature::StartVelocity)),
        rider_leaf_agrees(features, b) ==> spec_build_riders(features, seq![b]) is Ok,
{
    assert(seq![b][0] == b);
    assert(seq![b].drop_first() =~= Seq::<RiderBuilder>::empty());
    assert(spec_build_riders(features, Seq::<RiderBuilder>::empty()) == Ok::<
        Seq<crate::track::rider_group::Rider>,
        crate::track::rider_group::RiderGroupBuilderError,
    >(Seq::<crate::track::rider_group::Rider>::empty()));
}

/// A layer agrees when it is complete and each gated attribute's
/// presence matches its flag (`Folders` gates `folder_id`).
pub open spec fn layer_leaf_agrees(features: Set<LayerFeature>, b: LayerBuilder) -> bool {
    &&& b.spec_build() is Ok
    &&& (features.contains(LayerFeature::Name) <==> b.name is Some)
    &&& (features.contains(LayerFeature::Visible) <==> b.visible is Some)
    &&& (features.contains(LayerFeature::Editable) <==> b.editable is Some)
    &&& (features.contains(LayerFeature::Folders) <==> b.folder_id is Some)
}

/// Layers finalize exactly when every leaf is complete and each gated
/// attribute agrees with the declared flags.
pub proof fn lemma_layers_agreement(features: Set<LayerFeature>, bs: Seq<LayerBuilder>)
    ensures
        spec_build_layers(features, bs) is Ok <==> (forall|i: int|
            0 <= i < bs.len() ==> layer_leaf_agrees(features, #[trigger] bs[i])),
    decreases bs.len(),
{
    if bs.len() != 0 {
        lemma_layers_agreement(features, bs.drop_first());
        assert forall|i: int|
            0 <= i < bs.len() && spec_build_layers(features, bs) is Ok implies layer_leaf_agrees(
            features,
            #[trigger] bs[i],
        ) by {
            if i > 0 {
                assert(bs.drop_first()[i - 1] == bs[i]);
            }
        }
        if (forall|i: int| 0 <= i < bs.len() ==> layer_leaf_agrees(features, #[trigger] bs[i])) {
            assert(forall|i: int|
                0 <= i < bs.drop_first().len() ==> layer_leaf_agrees(
                    features,
                    #[trigger] bs.drop_first()[i],
                ));
            assert(layer_leaf_agrees(features, bs[0]));
        }
    }
}

/// A folder agrees when it is complete and each gated attribute's
/// presence matches its flag.
pub open spec fn folder_leaf_agrees(features: Set<LayerFeature>, b: LayerFolderBuilder) -> bool {
    &&& b.spec_build() is Ok
    &&& (features.contains(LayerFeature::Name) <==> b.name is Some)
    &&& (features.contains(LayerFeature::Visible) <==> b.visible is Some)
    &&& (features.contains(LayerFeature::Editable) <==> b.editable is Some)
}

/// Folders finalize exactly when every leaf is complete and each gated
/// attribute agrees with the declared flags.
pub proof fn lemma_layer_folders_agreement(
    features: Set<LayerFeature>,
    bs: Seq<LayerFolderBuilder>,
)
    ensures
        spec_build_layer_folders(features, bs) is Ok <==> (forall|i: int|
            0 <= i < bs.len() ==> folder_leaf_agrees(features, #[trigger] bs[i])),
    decreases bs.len(),
{
    if bs.len() != 0 {
        lemma_layer_folders_agreement(features, bs.drop_first());
        assert forall|i: int|
            0 <= i < bs.len() && spec_build_layer_folders(features, bs) is Ok implies
            folder_leaf_agrees(features, #[trigger] bs[i]) by {
            if i > 0 {
                assert(bs.drop_first()[i - 1] == bs[i]);
            }
        }
        if (forall|i: int| 0 <= i < bs.len() ==> folder_leaf_agrees(features, #[trigger] bs[i])) {
            assert(forall|i: int|
                0 <= i < bs.drop_first().len() ==> folder_leaf_agrees(
                    features,
                    #[trigger] bs.drop_first()[i],
                ));
            assert(folder_leaf_agrees(features, bs[0]));
        }
    }
}

/// The layer group finalizes exactly when its layers and folders do and
/// the folder collection's own presence agrees with `Folders`.
pub proof fn lemma_layer_group_agreement(bv: LayerGroupBuilderV)
    ensures
        spec_build_layer_group(bv) is Ok <==> {
            &&& (forall|i: int|
                0 <= i < bv.layers.len() ==> layer_leaf_agrees(
                    bv.features,
                    #[trigger] bv.layers[i],
                ))
            &&& (bv.features.contains(LayerFeature::Folders) <==> bv.layer_folders is Some)
            &&& (bv.layer_folders matches Some(fs) ==> (forall|i: int|
                0 <= i < fs.len() ==> folder_leaf_agrees(bv.features, #[trigger] fs[i])))
        },
{
    lemma_layers_agreement(bv.features, bv.layers);
    if bv.layer_folders is Some {
        lemma_layer_folders_agreement(bv.features, bv.layer_folders->0);
    }
}


/// The track finalizes exactly when its mandatory line group does, each
/// optional group's presence agrees with its owning flag, and each
/// present optional group finalizes in turn.
pub proof fn lemma_track_agreement(bv: TrackBuilderV)
    ensures
        spec_build_track(bv) is Ok <==> {
            &&& spec_build_line_group(bv.line_group) is Ok
            &&& (bv.features.contains(TrackFeature::Layers) <==> bv.layer_group is Some)
            &&& (bv.layer_group matches Some(g) ==> spec_build_layer_group(g) is Ok)
            &&& (bv.features.contains(TrackFeature::RiderProperties) <==> bv.rider_group
                is Some)
            &&& (bv.rider_group matches Some(g) ==> spec_build_rider_group(g) is Ok)
            &&& (bv.features.contains(TrackFeature::BackgroundColorTriggers)
                <==> bv.background_color_group is Some)
            &&& (bv.background_color_group matches Some(g) ==> spec_build_trigger_group(g)
                is Ok)
            &&& (bv.features.contains(TrackFeature::LineColorTriggers)
                <==> bv.line_color_group is Some)
            &&& (bv.line_color_group matches Some(g) ==> spec_build_trigger_group(g) is Ok)
            &&& (bv.features.contains(TrackFeature::CameraZoomTriggers)
                <==> bv.camera_zoom_group is Some)
            &&& (bv.camera_zoom_group matches Some(g) ==> spec_build_trigger_group(g) is Ok)
            &&& (bv.features.contains(TrackFeature::LegacyCameraZoomTriggers)
                <==> bv.legacy_camera_zoom_group is Some)
            &&& (bv.legacy_camera_zoom_group matches Some(g) ==> spec_build_trigger_group(g)
                is Ok)
        },
{
}

/// At the track level, declaring `Layers` without a layer group fails
/// with `MissingAttribute` naming the group's field, and holding a
/// layer group without declaring `Layers` fails with
/// `MissingFeatureFlag`.
pub proof fn lemma_track_layer_presence_errors(bv: TrackBuilderV)
    requires
        spec_build_line_group(bv.line_group) is Ok,
    ensures
        bv.features.contains(TrackFeature::Layers) && bv.layer_group is None
            ==> spec_build_track(bv) == Err::<TrackV, TrackBuilderError>(
            GroupBuilderError::MissingAttribute("layer_group"),
        ),
        bv.layer_group is Some && !bv.features.contains(TrackFeature::Layers)
            ==> spec_build_track(bv) == Err::<TrackV, TrackBuilderError>(
            GroupBuilderError::MissingFeatureFlag(TrackFeature::Layers),
        ),
{
}


/// A fresh builder finalizes successfully: the mandatory metadata and
/// line group are present (at their defaults, with no lines) and every
/// optional group is absent.
pub proof fn lemma_empty_builder_builds()
    ensures
        spec_build_track(TrackBuilderV::empty()) matches Ok(tv) && tv.metadata
            == MetadataV::initial() && tv.line_group.standard_lines.len() == 0
            && tv.line_group.acceleration_lines.len() == 0
            && tv.line_group.scenery_lines.len() == 0 && tv.layer_group is None
            && tv.rider_group is None && tv.background_color_group is None
            && tv.line_color_group is None && tv.camera_zoom_group is None
            && tv.legacy_camera_zoom_group is None,
{
    let bv = TrackBuilderV::empty();
    assert(spec_build_standard_lines(bv.line_group.standard_lines) == Ok::<
        Seq<crate::track::line_group::StandardLine>,
        crate::track::line_group::LineGroupBuilderError,
    >(Seq::empty()));
    assert(spec_build_acceleration_lines(bv.line_group.features, bv.line_group.acceleration_lines)
        == Ok::<
        Seq<crate::track::line_group::AccelerationLine>,
        crate::track::line_group::LineGroupBuilderError,
    >(Seq::empty()));
    assert(spec_build_scenery_lines(bv.line_group.features, bv.line_group.scenery_lines) == Ok::<
        Seq<crate::track::line_group::SceneryLine>,
        crate::track::line_group::LineGroupBuilderError,
    >(Seq::empty()));
}

} // verus!
