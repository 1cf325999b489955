//! The canonical track model: value primitives, leaf entities, group
//! aggregates, and the feature-gated builders that assemble them, topped
//! by the track aggregate itself.

pub mod group_builder;
pub mod laws;
pub mod layer_group;
pub mod line_group;
pub mod metadata;
pub mod rgb_color;
pub mod rider_group;
pub mod trigger_group;
pub mod vec2;

use crate::track::group_builder::{
    check_feature, require_feature, spec_check_feature, Feature, FeatureSet, GroupBuilderError,
};
use crate::track::layer_group::{
    spec_build_layer_group, LayerGroup, LayerGroupBuilder, LayerGroupBuilderError,
    LayerGroupBuilderV, LayerGroupV,
};
use crate::track::line_group::{
    spec_build_line_group, LineGroup, LineGroupBuilder, LineGroupBuilderError, LineGroupBuilderV,
    LineGroupV,
};
use crate::track::metadata::{Metadata, MetadataBuilder, MetadataV};
use crate::track::rider_group::{
    spec_build_rider_group, RiderGroup, RiderGroupBuilder, RiderGroupBuilderError,
    RiderGroupBuilderV, RiderGroupV,
};
use crate::track::trigger_group::{
    spec_build_trigger_group, BackgroundColorEvent, BackgroundColorGroup,
    BackgroundColorGroupBuilder, CameraZoomEvent, CameraZoomGroup, CameraZoomGroupBuilder,
    FrameBoundsTrigger, LegacyCameraZoomGroup, LegacyCameraZoomGroupBuilder, LineColorEvent,
    LineColorGroup, LineColorGroupBuilder, LineHitTrigger, TriggerGroupBuilderError,
    TriggerGroupBuilderV, TriggerGroupV,
};
use vstd::prelude::*;

verus! {

/// Capability flags of the track aggregate.  Each of the six flags that
/// owns an optional group gates that group's existence; the others mark
/// simulation quirks a file version may carry.
#[derive(Clone, Copy, Debug, PartialEq, Eq, Structural)]
pub enum TrackFeature {
    RiderProperties,
    Layers,
    UseLRARemount,
    UseLegacyFakie,
    ZeroFrictionRiders,
    ZeroVelocityStartRiders,
    RemountRiders,
    BackgroundColorTriggers,
    LineColorTriggers,
    CameraZoomTriggers,
    LegacyCameraZoomTriggers,
}

impl Feature for TrackFeature {
    open spec fn spec_label(&self) -> Seq<char> {
        match *self {
            TrackFeature::RiderProperties => "RiderProperties"@,
            TrackFeature::Layers => "Layers"@,
            TrackFeature::UseLRARemount => "UseLRARemount"@,
            TrackFeature::UseLegacyFakie => "UseLegacyFakie"@,
            TrackFeature::ZeroFrictionRiders => "ZeroFrictionRiders"@,
            TrackFeature::ZeroVelocityStartRiders => "ZeroVelocityStartRiders"@,
            TrackFeature::RemountRiders => "RemountRiders"@,
            TrackFeature::BackgroundColorTriggers => "BackgroundColorTriggers"@,
            TrackFeature::LineColorTriggers => "LineColorTriggers"@,
            TrackFeature::CameraZoomTriggers => "CameraZoomTriggers"@,
            TrackFeature::LegacyCameraZoomTriggers => "LegacyCameraZoomTriggers"@,
        }
    }

    fn same(&self, other: &Self) -> (r: bool) {
        *self == *other
    }

    fn label(&self) -> (r: &'static str) {
        match *self {
            TrackFeature::RiderProperties => "RiderProperties",
            TrackFeature::Layers => "Layers",
            TrackFeature::UseLRARemount => "UseLRARemount",
            TrackFeature::UseLegacyFakie => "UseLegacyFakie",
            TrackFeature::ZeroFrictionRiders => "ZeroFrictionRiders",
            TrackFeature::ZeroVelocityStartRiders => "ZeroVelocityStartRiders",
            TrackFeature::RemountRiders => "RemountRiders",
            TrackFeature::BackgroundColorTriggers => "BackgroundColorTriggers",
            TrackFeature::LineColorTriggers => "LineColorTriggers",
            TrackFeature::CameraZoomTriggers => "CameraZoomTriggers",
            TrackFeature::LegacyCameraZoomTriggers => "LegacyCameraZoomTriggers",
        }
    }
}

/// A failure of one of the track's sub-builders, tagged with the group
/// that produced it.
#[derive(Debug)]
pub enum TrackSubBuilderError {
    LineGroup(LineGroupBuilderError),
    LayerGroup(LayerGroupBuilderError),
    RiderGroup(RiderGroupBuilderError),
    BackgroundColorGroup(TriggerGroupBuilderError),
    LineColorGroup(TriggerGroupBuilderError),
    CameraZoomGroup(TriggerGroupBuilderError),
    LegacyCameraZoomGroup(TriggerGroupBuilderError),
}

pub type TrackBuilderError = GroupBuilderError<TrackFeature, TrackSubBuilderError>;

/// The finished, immutable track: metadata and the line group are always
/// present; each optional group exists exactly when its flag does.
#[derive(Debug)]
pub struct Track {
    features: FeatureSet<TrackFeature>,
    metadata: Metadata,
    line_group: LineGroup,
    layer_group: Option<LayerGroup>,
    rider_group: Option<RiderGroup>,
    background_color_group: Option<BackgroundColorGroup>,
    line_color_group: Option<LineColorGroup>,
    camera_zoom_group: Option<CameraZoomGroup>,
    legacy_camera_zoom_group: Option<LegacyCameraZoomGroup>,
}

/// Abstract value of a [`Track`].
pub struct TrackV {
    pub features: Set<TrackFeature>,
    pub metadata: MetadataV,
    pub line_group: LineGroupV,
    pub layer_group: Option<LayerGroupV>,
    pub rider_group: Option<RiderGroupV>,
    pub background_color_group: Option<TriggerGroupV<BackgroundColorEvent, FrameBoundsTrigger>>,
    pub line_color_group: Option<TriggerGroupV<LineColorEvent, FrameBoundsTrigger>>,
    pub camera_zoom_group: Option<TriggerGroupV<CameraZoomEvent, FrameBoundsTrigger>>,
    pub legacy_camera_zoom_group: Option<TriggerGroupV<CameraZoomEvent, LineHitTrigger>>,
}

impl View for Track {
    type V = TrackV;

    closed spec fn view(&self) -> TrackV {
        TrackV {
            features: self.features@,
            metadata: self.metadata@,
            line_group: self.line_group@,
            layer_group: match self.layer_group {
                Some(g) => Some(g@),
                None => None,
            },
            rider_group: match self.rider_group {
                Some(g) => Some(g@),
                None => None,
            },
            background_color_group: match self.background_color_group {
                Some(g) => Some(g@),
                None => None,
            },
            line_color_group: match self.line_color_group {
                Some(g) => Some(g@),
                None => None,
            },
            camera_zoom_group: match self.camera_zoom_group {
                Some(g) => Some(g@),
                None => None,
            },
            legacy_camera_zoom_group: match self.legacy_camera_zoom_group {
                Some(g) => Some(g@),
                None => None,
            },
        }
    }
}

impl Track {
    pub fn features(&self) -> (r: &FeatureSet<TrackFeature>)
        ensures
            r@ == self@.features,
    {
        &self.features
    }

    pub fn metadata(&self) -> (r: &Metadata)
        ensures
            r@ == self@.metadata,
    {
        &self.metadata
    }

    pub fn line_group(&self) -> (r: &LineGroup)
        ensures
            r@ == self@.line_group,
    {
        &self.line_group
    }

    pub fn layer_group(&self) -> (r: &Option<LayerGroup>)
        ensures
            (*r) is Some <==> self@.layer_group is Some,
            r matches Some(g) ==> self@.layer_group == Some(g@),
    {
        &self.layer_group
    }

    pub fn rider_group(&self) -> (r: &Option<RiderGroup>)
        ensures
            (*r) is Some <==> self@.rider_group is Some,
            r matches Some(g) ==> self@.rider_group == Some(g@),
    {
        &self.rider_group
    }

    pub fn background_color_group(&self) -> (r: &Option<BackgroundColorGroup>)
        ensures
            (*r) is Some <==> self@.background_color_group is Some,
            r matches Some(g) ==> self@.background_color_group == Some(g@),
    {
        &self.background_color_group
    }

    pub fn line_color_group(&self) -> (r: &Option<LineColorGroup>)
        ensures
            (*r) is Some <==> self@.line_color_group is Some,
            r matches Some(g) ==> self@.line_color_group == Some(g@),
    {
        &self.line_color_group
    }

    pub fn camera_zoom_group(&self) -> (r: &Option<CameraZoomGroup>)
        ensures
            (*r) is Some <==> self@.camera_zoom_group is Some,
            r matches Some(g) ==> self@.camera_zoom_group == Some(g@),
    {
        &self.camera_zoom_group
    }

    pub fn legacy_camera_zoom_group(&self) -> (r: &Option<LegacyCameraZoomGroup>)
        ensures
            (*r) is Some <==> self@.legacy_camera_zoom_group is Some,
            r matches Some(g) ==> self@.legacy_camera_zoom_group == Some(g@),
    {
        &self.legacy_camera_zoom_group
    }
}

/// Assembles a [`Track`] incrementally; the single entry point every
/// format reader drives.
#[derive(Debug)]
pub struct TrackBuilder {
    features: FeatureSet<TrackFeature>,
    metadata: MetadataBuilder,
    line_group: LineGroupBuilder,
    layer_group: Option<LayerGroupBuilder>,
    rider_group: Option<RiderGroupBuilder>,
    background_color_group: Option<BackgroundColorGroupBuilder>,
    line_color_group: Option<LineColorGroupBuilder>,
    camera_zoom_group: Option<CameraZoomGroupBuilder>,
    legacy_camera_zoom_group: Option<LegacyCameraZoomGroupBuilder>,
}

/// Abstract state of a [`TrackBuilder`].
pub struct TrackBuilderV {
    pub features: Set<TrackFeature>,
    pub metadata: MetadataV,
    pub line_group: LineGroupBuilderV,
    pub layer_group: Option<LayerGroupBuilderV>,
    pub rider_group: Option<RiderGroupBuilderV>,
    pub background_color_group: Option<
        TriggerGroupBuilderV<BackgroundColorEvent, FrameBoundsTrigger>,
    >,
    pub line_color_group: Option<TriggerGroupBuilderV<LineColorEvent, FrameBoundsTrigger>>,
    pub camera_zoom_group: Option<TriggerGroupBuilderV<CameraZoomEvent, FrameBoundsTrigger>>,
    pub legacy_camera_zoom_group: Option<TriggerGroupBuilderV<CameraZoomEvent, LineHitTrigger>>,
}

impl View for TrackBuilder {
    type V = TrackBuilderV;

    closed spec fn view(&self) -> TrackBuilderV {
        TrackBuilderV {
            features: self.features@,
            metadata: self.metadata@,
            line_group: self.line_group@,
            layer_group: match self.layer_group {
                Some(g) => Some(g@),
                None => None,
            },
            rider_group: match self.rider_group {
                Some(g) => Some(g@),
                None => None,
            },
            background_color_group: match self.background_color_group {
                Some(g) => Some(g@),
                None => None,
            },
            line_color_group: match self.line_color_group {
                Some(g) => Some(g@),
                None => None,
            },
            camera_zoom_group: match self.camera_zoom_group {
                Some(g) => Some(g@),
                None => None,
            },
            legacy_camera_zoom_group: match self.legacy_camera_zoom_group {
                Some(g) => Some(g@),
                None => None,
            },
        }
    }
}

impl TrackBuilderV {
    /// The state of a freshly created builder.
    pub open spec fn empty() -> TrackBuilderV {
        TrackBuilderV {
            features: Set::empty(),
            metadata: MetadataV::initial(),
            line_group: LineGroupBuilderV::empty(),
            layer_group: None,
            rider_group: None,
            background_color_group: None,
            line_color_group: None,
            camera_zoom_group: None,
            legacy_camera_zoom_group: None,
        }
    }

    /// Enabling a flag initializes the group it owns, so a declared flag
    /// always finds its group present (and the layer group's own
    /// invariant holds in turn).
    pub open spec fn wf(self) -> bool {
        &&& self.features.contains(TrackFeature::Layers) ==> self.layer_group is Some
        &&& self.features.contains(TrackFeature::RiderProperties) ==> self.rider_group is Some
        &&& self.features.contains(TrackFeature::BackgroundColorTriggers)
            ==> self.background_color_group is Some
        &&& self.features.contains(TrackFeature::LineColorTriggers) ==> self.line_color_group
            is Some
        &&& self.features.contains(TrackFeature::CameraZoomTriggers) ==> self.camera_zoom_group
            is Some
        &&& self.features.contains(TrackFeature::LegacyCameraZoomTriggers)
            ==> self.legacy_camera_zoom_group is Some
        &&& self.layer_group matches Some(lg) ==> lg.wf()
    }

    /// The state after declaring `feature`: the flag is inserted, and
    /// the group it owns (if any) is initialized when it first arrives.
    pub open spec fn with_feature(self, feature: TrackFeature) -> TrackBuilderV {
        TrackBuilderV {
            features: self.features.insert(feature),
            layer_group: if feature == TrackFeature::Layers && self.layer_group is None {
                Some(LayerGroupBuilderV::empty())
            } else {
                self.layer_group
            },
            rider_group: if feature == TrackFeature::RiderProperties && self.rider_group
                is None {
                Some(RiderGroupBuilderV::empty())
            } else {
                self.rider_group
            },
            background_color_group: if feature == TrackFeature::BackgroundColorTriggers
                && self.background_color_group is None {
                Some(TriggerGroupBuilderV::empty())
            } else {
                self.background_color_group
            },
            line_color_group: if feature == TrackFeature::LineColorTriggers
                && self.line_color_group is None {
                Some(TriggerGroupBuilderV::empty())
            } else {
                self.line_color_group
            },
            camera_zoom_group: if feature == TrackFeature::CameraZoomTriggers
                && self.camera_zoom_group is None {
                Some(TriggerGroupBuilderV::empty())
            } else {
                self.camera_zoom_group
            },
            legacy_camera_zoom_group: if feature == TrackFeature::LegacyCameraZoomTriggers
                && self.legacy_camera_zoom_group is None {
                Some(TriggerGroupBuilderV::empty())
            } else {
                self.legacy_camera_zoom_group
            },
            ..self
        }
    }
}

/// The layer group this state denotes: presence must agree with
/// `Layers`, and a present group finalizes with its own rules.
pub open spec fn spec_build_opt_layer_group(
    features: Set<TrackFeature>,
    og: Option<LayerGroupBuilderV>,
) -> Result<Option<LayerGroupV>, TrackBuilderError> {
    match spec_check_feature::<TrackFeature, TrackSubBuilderError>(
        features,
        TrackFeature::Layers,
        og is Some,
        "layer_group",
    ) {
        Err(e) => Err(e),
        Ok(_) => match og {
            None => Ok(None),
            Some(b) => match spec_build_layer_group(b) {
                Err(e) => Err(
                    GroupBuilderError::SubBuilderError(TrackSubBuilderError::LayerGroup(e)),
                ),
                Ok(g) => Ok(Some(g)),
            },
        },
    }
}

/// The rider group this state denotes: presence must agree with
/// `RiderProperties`.
pub open spec fn spec_build_opt_rider_group(
    features: Set<TrackFeature>,
    og: Option<RiderGroupBuilderV>,
) -> Result<Option<RiderGroupV>, TrackBuilderError> {
    match spec_check_feature::<TrackFeature, TrackSubBuilderError>(
        features,
        TrackFeature::RiderProperties,
        og is Some,
        "rider_group",
    ) {
        Err(e) => Err(e),
        Ok(_) => match og {
            None => Ok(None),
            Some(b) => match spec_build_rider_group(b) {
                Err(e) => Err(
                    GroupBuilderError::SubBuilderError(TrackSubBuilderError::RiderGroup(e)),
                ),
                Ok(g) => Ok(Some(g)),
            },
        },
    }
}

/// The background-color group this state denotes: presence must agree
/// with `BackgroundColorTriggers`.
pub open spec fn spec_build_opt_background_color_group(
    features: Set<TrackFeature>,
    og: Option<TriggerGroupBuilderV<BackgroundColorEvent, FrameBoundsTrigger>>,
) -> Result<Option<TriggerGroupV<BackgroundColorEvent, FrameBoundsTrigger>>, TrackBuilderError> {
    match spec_check_feature::<TrackFeature, TrackSubBuilderError>(
        features,
        TrackFeature::BackgroundColorTriggers,
        og is Some,
        "background_color_group",
    ) {
        Err(e) => Err(e),
        Ok(_) => match og {
            None => Ok(None),
            Some(b) => match spec_build_trigger_group(b) {
                Err(e) => Err(
                    GroupBuilderError::SubBuilderError(
                        TrackSubBuilderError::BackgroundColorGroup(e),
                    ),
                ),
                Ok(g) => Ok(Some(g)),
            },
        },
    }
}

/// The line-color group this state denotes: presence must agree with
/// `LineColorTriggers`.
pub open spec fn spec_build_opt_line_color_group(
    features: Set<TrackFeature>,
    og: Option<TriggerGroupBuilderV<LineColorEvent, FrameBoundsTrigger>>,
) -> Result<Option<TriggerGroupV<LineColorEvent, FrameBoundsTrigger>>, TrackBuilderError> {
    match spec_check_feature::<TrackFeature, TrackSubBuilderError>(
        features,
        TrackFeature::LineColorTriggers,
        og is Some,
        "line_color_group",
    ) {
        Err(e) => Err(e),
        Ok(_) => match og {
            None => Ok(None),
            Some(b) => match spec_build_trigger_group(b) {
                Err(e) => Err(
                    GroupBuilderError::SubBuilderError(TrackSubBuilderError::LineColorGroup(e)),
                ),
                Ok(g) => Ok(Some(g)),
            },
        },
    }
}

/// The camera-zoom group this state denotes: presence must agree with
/// `CameraZoomTriggers`.
pub open spec fn spec_build_opt_camera_zoom_group(
    features: Set<TrackFeature>,
    og: Option<TriggerGroupBuilderV<CameraZoomEvent, FrameBoundsTrigger>>,
) -> Result<Option<TriggerGroupV<CameraZoomEvent, FrameBoundsTrigger>>, TrackBuilderError> {
    match spec_check_feature::<TrackFeature, TrackSubBuilderError>(
        features,
        TrackFeature::CameraZoomTriggers,
        og is Some,
        "camera_zoom_group",
    ) {
        Err(e) => Err(e),
        Ok(_) => match og {
            None => Ok(None),
            Some(b) => match spec_build_trigger_group(b) {
                Err(e) => Err(
                    GroupBuilderError::SubBuilderError(TrackSubBuilderError::CameraZoomGroup(e)),
                ),
                Ok(g) => Ok(Some(g)),
            },
        },
    }
}

/// The legacy camera-zoom group this state denotes: presence must agree
/// with `LegacyCameraZoomTriggers`.
pub open spec fn spec_build_opt_legacy_camera_zoom_group(
    features: Set<TrackFeature>,
    og: Option<TriggerGroupBuilderV<CameraZoomEvent, LineHitTrigger>>,
) -> Result<Option<TriggerGroupV<CameraZoomEvent, LineHitTrigger>>, TrackBuilderError> {
    match spec_check_feature::<TrackFeature, TrackSubBuilderError>(
        features,
        TrackFeature::LegacyCameraZoomTriggers,
        og is Some,
        "legacy_camera_zoom_group",
    ) {
        Err(e) => Err(e),
        Ok(_) => match og {
            None => Ok(None),
            Some(b) => match spec_build_trigger_group(b) {
                Err(e) => Err(
                    GroupBuilderError::SubBuilderError(
                        TrackSubBuilderError::LegacyCameraZoomGroup(e),
                    ),
                ),
                Ok(g) => Ok(Some(g)),
            },
        },
    }
}

/// The track this builder state denotes: metadata and the mandatory line
/// group finalize unconditionally; each optional group's presence must
/// agree with its flag before it finalizes; the first failure decides
/// the error and no partial track is observable.
pub open spec fn spec_build_track(bv: TrackBuilderV) -> Result<TrackV, TrackBuilderError> {
    match spec_build_line_group(bv.line_group) {
        Err(e) => Err(GroupBuilderError::SubBuilderError(TrackSubBuilderError::LineGroup(e))),
        Ok(line_group) => match spec_build_opt_layer_group(bv.features, bv.layer_group) {
            Err(e) => Err(e),
            Ok(layer_group) => match spec_build_opt_rider_group(bv.features, bv.rider_group) {
                Err(e) => Err(e),
                Ok(rider_group) => match spec_build_opt_background_color_group(
                    bv.features,
                    bv.background_color_group,
                ) {
                    Err(e) => Err(e),
                    Ok(background_color_group) => match spec_build_opt_line_color_group(
                        bv.features,
                        bv.line_color_group,
                    ) {
                        Err(e) => Err(e),
                        Ok(line_color_group) => match spec_build_opt_camera_zoom_group(
                            bv.features,
                            bv.camera_zoom_group,
                        ) {
                            Err(e) => Err(e),
                            Ok(camera_zoom_group) => match spec_build_opt_legacy_camera_zoom_group(
                                bv.features,
                                bv.legacy_camera_zoom_group,
                            ) {
                                Err(e) => Err(e),
                                Ok(legacy_camera_zoom_group) => Ok(
                                    TrackV {
                                        features: bv.features,
                                        metadata: bv.metadata,
                                        line_group,
                                        layer_group,
                                        rider_group,
                                        background_color_group,
                                        line_color_group,
                                        camera_zoom_group,
                                        legacy_camera_zoom_group,
                                    },
                                ),
                            },
                        },
                    },
                },
            },
        },
    }
}

impl Default for TrackBuilder {
    fn default() -> (r: Self)
        ensures
            r@ == TrackBuilderV::empty(),
            r@.wf(),
    {
        TrackBuilder {
            features: FeatureSet::new(),
            metadata: MetadataBuilder::new(),
            line_group: LineGroupBuilder::new(),
            layer_group: None,
            rider_group: None,
            background_color_group: None,
            line_color_group: None,
            camera_zoom_group: None,
            legacy_camera_zoom_group: None,
        }
    }
}

impl TrackBuilder {
    pub fn new() -> (r: Self)
        ensures
            r@ == TrackBuilderV::empty(),
            r@.wf(),
    {
        Self::default()
    }

    /// Declares a capability flag; a flag that owns a group also
    /// initializes that group so later access never finds it absent.
    pub fn enable_feature(&mut self, feature: TrackFeature)
        ensures
            final(self)@ == old(self)@.with_feature(feature),
            old(self)@.wf() ==> final(self)@.wf(),
    {
        match feature {
            TrackFeature::Layers => {
                if self.layer_group.is_none() {
                    self.layer_group = Some(LayerGroupBuilder::new());
                }
            },
            TrackFeature::RiderProperties => {
                if self.rider_group.is_none() {
                    self.rider_group = Some(RiderGroupBuilder::new());
                }
            },
            TrackFeature::BackgroundColorTriggers => {
                if self.background_color_group.is_none() {
                    self.background_color_group = Some(BackgroundColorGroupBuilder::new());
                }
            },
            TrackFeature::LineColorTriggers => {
                if self.line_color_group.is_none() {
                    self.line_color_group = Some(LineColorGroupBuilder::new());
                }
            },
            TrackFeature::CameraZoomTriggers => {
                if self.camera_zoom_group.is_none() {
                    self.camera_zoom_group = Some(CameraZoomGroupBuilder::new());
                }
            },
            TrackFeature::LegacyCameraZoomTriggers => {
                if self.legacy_camera_zoom_group.is_none() {
                    self.legacy_camera_zoom_group = Some(LegacyCameraZoomGroupBuilder::new());
                }
            },
            _ => {},
        }
        self.features.insert(feature);
    }

    /// The metadata builder, always available.
    pub fn metadata(&mut self) -> (r: &mut MetadataBuilder)
        ensures
            r@ == old(self)@.metadata,
            final(self)@ == (TrackBuilderV { metadata: final(r)@, ..old(self)@ }),
    {
        &mut self.metadata
    }

    /// The mandatory line group's builder, always available.
    pub fn line_group(&mut self) -> (r: &mut LineGroupBuilder)
        ensures
            r@ == old(self)@.line_group,
            final(self)@ == (TrackBuilderV { line_group: final(r)@, ..old(self)@ }),
    {
        &mut self.line_group
    }

    /// The layer group's builder; fails with `MissingFeatureFlag` unless
    /// `Layers` was enabled first.
    pub fn layer_group(&mut self) -> (r: Result<&mut LayerGroupBuilder, TrackBuilderError>)
        requires
            old(self)@.wf(),
        ensures
            r is Ok <==> old(self)@.features.contains(TrackFeature::Layers),
            r matches Err(e) ==> *final(self) == *old(self) && e
                == TrackBuilderError::MissingFeatureFlag(TrackFeature::Layers),
            r matches Ok(b) ==> b@ == old(self)@.layer_group->0 && b@.wf() && final(self)@ == (
            TrackBuilderV { layer_group: Some(final(b)@), ..old(self)@ }),
    {
        require_feature(&self.features, TrackFeature::Layers, &mut self.layer_group)
    }

    /// The rider group's builder; fails with `MissingFeatureFlag` unless
    /// `RiderProperties` was enabled first.
    pub fn rider_group(&mut self) -> (r: Result<&mut RiderGroupBuilder, TrackBuilderError>)
        requires
            old(self)@.wf(),
        ensures
            r is Ok <==> old(self)@.features.contains(TrackFeature::RiderProperties),
            r matches Err(e) ==> *final(self) == *old(self) && e
                == TrackBuilderError::MissingFeatureFlag(TrackFeature::RiderProperties),
            r matches Ok(b) ==> b@ == old(self)@.rider_group->0 && final(self)@ == (
            TrackBuilderV { rider_group: Some(final(b)@), ..old(self)@ }),
    {
        require_feature(&self.features, TrackFeature::RiderProperties, &mut self.rider_group)
    }

    /// The background-color trigger group's builder; fails with
    /// `MissingFeatureFlag` unless `BackgroundColorTriggers` was enabled
    /// first.
    pub fn background_color_group(&mut self) -> (r: Result<
        &mut BackgroundColorGroupBuilder,
        TrackBuilderError,
    >)
        requires
            old(self)@.wf(),
        ensures
            r is Ok <==> old(self)@.features.contains(TrackFeature::BackgroundColorTriggers),
            r matches Err(e) ==> *final(self) == *old(self) && e
                == TrackBuilderError::MissingFeatureFlag(TrackFeature::BackgroundColorTriggers),
            r matches Ok(b) ==> b@ == old(self)@.background_color_group->0 && final(self)@ == (
            TrackBuilderV { background_color_group: Some(final(b)@), ..old(self)@ }),
    {
        require_feature(&self.features, TrackFeature::BackgroundColorTriggers, &mut self.background_color_group)
    }

    /// The line-color trigger group's builder; fails with
    /// `MissingFeatureFlag` unless `LineColorTriggers` was enabled
    /// first.
    pub fn line_color_group(&mut self) -> (r: Result<
        &mut LineColorGroupBuilder,
        TrackBuilderError,
    >)
        requires
            old(self)@.wf(),
        ensures
            r is Ok <==> old(self)@.features.contains(TrackFeature::LineColorTriggers),
            r matches Err(e) ==> *final(self) == *old(self) && e
                == TrackBuilderError::MissingFeatureFlag(TrackFeature::LineColorTriggers),
            r matches Ok(b) ==> b@ == old(self)@.line_color_group->0 && final(self)@ == (
            TrackBuilderV { line_color_group: Some(final(b)@), ..old(self)@ }),
    {
        require_feature(&self.features, TrackFeature::LineColorTriggers, &mut self.line_color_group)
    }

    /// The camera-zoom trigger group's builder; fails with
    /// `MissingFeatureFlag` unless `CameraZoomTriggers` was enabled
    /// first.
    pub fn camera_zoom_group(&mut self) -> (r: Result<
        &mut CameraZoomGroupBuilder,
        TrackBuilderError,
    >)
        requires
            old(self)@.wf(),
        ensures
            r is Ok <==> old(self)@.features.contains(TrackFeature::CameraZoomTriggers),
            r matches Err(e) ==> *final(self) == *old(self) && e
                == TrackBuilderError::MissingFeatureFlag(TrackFeature::CameraZoomTriggers),
            r matches Ok(b) ==> b@ == old(self)@.camera_zoom_group->0 && final(self)@ == (
            TrackBuilderV { camera_zoom_group: Some(final(b)@), ..old(self)@ }),
    {
        require_feature(&self.features, TrackFeature::CameraZoomTriggers, &mut self.camera_zoom_group)
    }

    /// The legacy camera-zoom trigger group's builder; fails with
    /// `MissingFeatureFlag` unless `LegacyCameraZoomTriggers` was
    /// enabled first.
    pub fn legacy_camera_zoom_group(&mut self) -> (r: Result<
        &mut LegacyCameraZoomGroupBuilder,
        TrackBuilderError,
    >)
        requires
            old(self)@.wf(),
        ensures
            r is Ok <==> old(self)@.features.contains(TrackFeature::LegacyCameraZoomTriggers),
            r matches Err(e) ==> *final(self) == *old(self) && e
                == TrackBuilderError::MissingFeatureFlag(TrackFeature::LegacyCameraZoomTriggers),
            r matches Ok(b) ==> b@ == old(self)@.legacy_camera_zoom_group->0 && final(self)@
                == (TrackBuilderV { legacy_camera_zoom_group: Some(final(b)@), ..old(self)@ }),
    {
        require_feature(&self.features, TrackFeature::LegacyCameraZoomTriggers, &mut self.legacy_camera_zoom_group)
    }

    /// Finalizes the whole track; see [`spec_build_track`] for exactly
    /// what is returned.  Finalization leaves the builder unchanged, so
    /// finalizing the same state twice yields equal tracks.
    pub fn build(&mut self) -> (r: Result<Track, TrackBuilderError>)
        ensures
            *final(self) == *old(self),
            match r {
                Ok(t) => spec_build_track(old(self)@) matches Ok(tv) && t@ == tv,
                Err(e) => spec_build_track(old(self)@) matches Err(e2) && e == e2,
            },
    {
        let metadata = self.metadata.build();
        let line_group = match self.line_group.build() {
            Ok(g) => g,
            Err(e) => {
                return Err(GroupBuilderError::SubBuilderError(TrackSubBuilderError::LineGroup(e)));
            },
        };
        match check_feature::<TrackFeature, TrackSubBuilderError, LayerGroupBuilder>(
            &self.features,
            TrackFeature::Layers,
            &self.layer_group,
            "layer_group",
        ) {
            Ok(_) => {},
            Err(e) => {
                return Err(e);
            },
        }
        let layer_group: Option<LayerGroup> = match &mut self.layer_group {
            Some(b) => match b.build() {
                Ok(g) => Some(g),
                Err(e) => {
                    return Err(
                        GroupBuilderError::SubBuilderError(TrackSubBuilderError::LayerGroup(e)),
                    );
                },
            },
            None => None,
        };
        match check_feature::<TrackFeature, TrackSubBuilderError, RiderGroupBuilder>(
            &self.features,
            TrackFeature::RiderProperties,
            &self.rider_group,
            "rider_group",
        ) {
            Ok(_) => {},
            Err(e) => {
                return Err(e);
            },
        }
        let rider_group: Option<RiderGroup> = match &mut self.rider_group {
            Some(b) => match b.build() {
                Ok(g) => Some(g),
                Err(e) => {
                    return Err(
                        GroupBuilderError::SubBuilderError(TrackSubBuilderError::RiderGroup(e)),
                    );
                },
            },
            None => None,
        };
        match check_feature::<TrackFeature, TrackSubBuilderError, BackgroundColorGroupBuilder>(
            &self.features,
            TrackFeature::BackgroundColorTriggers,
            &self.background_color_group,
            "background_color_group",
        ) {
            Ok(_) => {},
            Err(e) => {
                return Err(e);
            },
        }
        let background_color_group: Option<BackgroundColorGroup> = match
            &mut self.background_color_group {
            Some(b) => match b.build() {
                Ok(g) => Some(g),
                Err(e) => {
                    return Err(
                        GroupBuilderError::SubBuilderError(
                            TrackSubBuilderError::BackgroundColorGroup(e),
                        ),
                    );
                },
            },
            None => None,
        };
        match check_feature::<TrackFeature, TrackSubBuilderError, LineColorGroupBuilder>(
            &self.features,
            TrackFeature::LineColorTriggers,
            &self.line_color_group,
            "line_color_group",
        ) {
            Ok(_) => {},
            Err(e) => {
                return Err(e);
            },
        }
        let line_color_group: Option<LineColorGroup> = match &mut self.line_color_group {
            Some(b) => match b.build() {
                Ok(g) => Some(g),
                Err(e) => {
                    return Err(
                        GroupBuilderError::SubBuilderError(
                            TrackSubBuilderError::LineColorGroup(e),
                        ),
                    );
                },
            },
            None => None,
        };
        match check_feature::<TrackFeature, TrackSubBuilderError, CameraZoomGroupBuilder>(
            &self.features,
            TrackFeature::CameraZoomTriggers,
            &self.camera_zoom_group,
            "camera_zoom_group",
        ) {
            Ok(_) => {},
            Err(e) => {
                return Err(e);
            },
        }
        let camera_zoom_group: Option<CameraZoomGroup> = match &mut self.camera_zoom_group {
            Some(b) => match b.build() {
                Ok(g) => Some(g),
                Err(e) => {
                    return Err(
                        GroupBuilderError::SubBuilderError(
                            TrackSubBuilderError::CameraZoomGroup(e),
                        ),
                    );
                },
            },
            None => None,
        };
        match check_feature::<TrackFeature, TrackSubBuilderError, LegacyCameraZoomGroupBuilder>(
            &self.features,
            TrackFeature::LegacyCameraZoomTriggers,
            &self.legacy_camera_zoom_group,
            "legacy_camera_zoom_group",
        ) {
            Ok(_) => {},
            Err(e) => {
                return Err(e);
            },
        }
        let legacy_camera_zoom_group: Option<LegacyCameraZoomGroup> = match
            &mut self.legacy_camera_zoom_group {
            Some(b) => match b.build() {
                Ok(g) => Some(g),
                Err(e) => {
                    return Err(
                        GroupBuilderError::SubBuilderError(
                            TrackSubBuilderError::LegacyCameraZoomGroup(e),
                        ),
                    );
                },
            },
            None => None,
        };
        let features = self.features.duplicate();
        Ok(
            Track {
                features,
                metadata,
                line_group,
                layer_group,
                rider_group,
                background_color_group,
                line_color_group,
                camera_zoom_group,
                legacy_camera_zoom_group,
            },
        )
    }
}

} // verus!
