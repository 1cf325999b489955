//! Rider leaf entity and the rider group aggregate.

use crate::track::group_builder::{
    check_feature, spec_check_feature, Feature, FeatureSet, GroupBuilderError,
};
use crate::track::vec2::{Scalar, Vec2};
use vstd::prelude::*;

verus! {

/// Capability flags of the rider group.
#[derive(Clone, Copy, Debug, PartialEq, Eq, Structural)]
pub enum RiderFeature {
    StartVelocity,
    StartAngle,
    Remount,
}

impl Feature for RiderFeature {
    open spec fn spec_label(&self) -> Seq<char> {
        match *self {
            RiderFeature::StartVelocity => "StartVelocity"@,
            RiderFeature::StartAngle => "StartAngle"@,
            RiderFeature::Remount => "Remount"@,
        }
    }

    fn same(&self, other: &Self) -> (r: bool) {
        *self == *other
    }

    fn label(&self) -> (r: &'static str) {
        match *self {
            RiderFeature::StartVelocity => "StartVelocity",
            RiderFeature::StartAngle => "StartAngle",
            RiderFeature::Remount => "Remount",
        }
    }
}

/// A rider: the start position is always required; the other attributes
/// are each gated by a flag of [`RiderFeature`].
#[derive(Clone, Copy, Debug, PartialEq, Eq)]
pub struct Rider {
    pub start_position: Vec2,
    pub start_velocity: Option<Vec2>,
    pub start_angle: Option<Scalar>,
    pub can_remount: Option<bool>,
}

#[derive(Clone, Copy, Debug, PartialEq, Eq)]
pub enum RiderBuilderError {
    UninitializedField(&'static str),
}

/// Incremental builder for [`Rider`].
#[derive(Clone, Copy, Debug, PartialEq, Eq, Default)]
pub struct RiderBuilder {
    pub start_position: Option<Vec2>,
    pub start_velocity: Option<Vec2>,
    pub start_angle: Option<Scalar>,
    pub can_remount: Option<bool>,
}

impl RiderBuilder {
    /// The rider this state denotes: the start position is mandatory,
    /// the rest stays as supplied.
    pub open spec fn spec_build(self) -> Result<Rider, RiderBuilderError> {
        if self.start_position is None {
            Err(RiderBuilderError::UninitializedField("start_position"))
        } else {
            Ok(
                Rider {
                    start_position: self.start_position->0,
                    start_velocity: self.start_velocity,
                    start_angle: self.start_angle,
                    can_remount: self.can_remount,
                },
            )
        }
    }

    pub fn start_position(&mut self, start_position: Vec2)
        ensures
            *final(self) == (RiderBuilder { start_position: Some(start_position), ..*old(self) }),
    {
        self.start_position = Some(start_position);
    }

    /// Supplies the gated start-velocity attribute.
    pub fn start_velocity(&mut self, start_velocity: Vec2)
        ensures
            *final(self) == (RiderBuilder { start_velocity: Some(start_velocity), ..*old(self) }),
    {
        self.start_velocity = Some(start_velocity);
    }

    /// Supplies the gated start-angle attribute.
    pub fn start_angle(&mut self, start_angle: Scalar)
        ensures
            *final(self) == (RiderBuilder { start_angle: Some(start_angle), ..*old(self) }),
    {
        self.start_angle = Some(start_angle);
    }

    /// Supplies the gated remount attribute.
    pub fn can_remount(&mut self, can_remount: bool)
        ensures
            *final(self) == (RiderBuilder { can_remount: Some(can_remount), ..*old(self) }),
    {
        self.can_remount = Some(can_remount);
    }

    pub fn build(&self) -> (r: Result<Rider, RiderBuilderError>)
        ensures
            r == self.spec_build(),
    {
        match self.start_position {
            Some(start_position) => Ok(
                Rider {
                    start_position,
                    start_velocity: self.start_velocity,
                    start_angle: self.start_angle,
                    can_remount: self.can_remount,
                },
            ),
            None => Err(RiderBuilderError::UninitializedField("start_position")),
        }
    }
}

/// A failure of one of the rider group's leaf builders.
#[derive(Clone, Copy, Debug, PartialEq, Eq)]
pub enum RiderSubBuilderError {
    Rider(RiderBuilderError),
}

pub type RiderGroupBuilderError = GroupBuilderError<RiderFeature, RiderSubBuilderError>;

/// The finished, immutable collection of a track's riders.
#[derive(Debug)]
pub struct RiderGroup {
    features: FeatureSet<RiderFeature>,
    riders: Vec<Rider>,
}

/// Abstract value of a [`RiderGroup`].
pub struct RiderGroupV {
    pub features: Set<RiderFeature>,
    pub riders: Seq<Rider>,
}

impl View for RiderGroup {
    type V = RiderGroupV;

    closed spec fn view(&self) -> RiderGroupV {
        RiderGroupV { features: self.features@, riders: self.riders@ }
    }
}

impl RiderGroup {
    pub fn features(&self) -> (r: &FeatureSet<RiderFeature>)
        ensures
            r@ == self@.features,
    {
        &self.features
    }

    pub fn riders(&self) -> (r: &Vec<Rider>)
        ensures
            r@ == self@.riders,
    {
        &self.riders
    }
}

/// Assembles a [`RiderGroup`] incrementally.
#[derive(Debug)]
pub struct RiderGroupBuilder {
    features: FeatureSet<RiderFeature>,
    riders: Vec<RiderBuilder>,
}

/// Abstract state of a [`RiderGroupBuilder`].
pub struct RiderGroupBuilderV {
    pub features: Set<RiderFeature>,
    pub riders: Seq<RiderBuilder>,
}

impl View for RiderGroupBuilder {
    type V = RiderGroupBuilderV;

    closed spec fn view(&self) -> RiderGroupBuilderV {
        RiderGroupBuilderV { features: self.features@, riders: self.riders@ }
    }
}

impl RiderGroupBuilderV {
    pub open spec fn empty() -> RiderGroupBuilderV {
        RiderGroupBuilderV { features: Set::empty(), riders: Seq::empty() }
    }
}

/// The riders this state denotes: each leaf must finish, and each gated
/// attribute must agree with the declared flags.
pub open spec fn spec_build_riders(features: Set<RiderFeature>, bs: Seq<RiderBuilder>) -> Result<
    Seq<Rider>,
    RiderGroupBuilderError,
>
    decreases bs.len(),
{
    if bs.len() == 0 {
        Ok(Seq::empty())
    } else {
        match bs[0].spec_build() {
            Err(e) => Err(GroupBuilderError::SubBuilderError(RiderSubBuilderError::Rider(e))),
            Ok(rider) => match spec_check_feature::<RiderFeature, RiderSubBuilderError>(
                features,
                RiderFeature::StartVelocity,
                rider.start_velocity is Some,
                "start_velocity",
            ) {
                Err(e) => Err(e),
                Ok(_) => match spec_check_feature::<RiderFeature, RiderSubBuilderError>(
                    features,
                    RiderFeature::StartAngle,
                    rider.start_angle is Some,
                    "start_angle",
                ) {
                    Err(e) => Err(e),
                    Ok(_) => match spec_check_feature::<RiderFeature, RiderSubBuilderError>(
                        features,
                        RiderFeature::Remount,
                        rider.can_remount is Some,
                        "can_remount",
                    ) {
                        Err(e) => Err(e),
                        Ok(_) => match spec_build_riders(features, bs.drop_first()) {
                            Err(e) => Err(e),
                            Ok(rest) => Ok(seq![rider] + rest),
                        },
                    },
                },
            },
        }
    }
}

/// The group this builder state denotes.
pub open spec fn spec_build_rider_group(bv: RiderGroupBuilderV) -> Result<
    RiderGroupV,
    RiderGroupBuilderError,
> {
    match spec_build_riders(bv.features, bv.riders) {
        Err(e) => Err(e),
        Ok(riders) => Ok(RiderGroupV { features: bv.features, riders }),
    }
}

impl Default for RiderGroupBuilder {
    fn default() -> (r: Self)
        ensures
            r@ == RiderGroupBuilderV::empty(),
    {
        RiderGroupBuilder { features: FeatureSet::new(), riders: Vec::new() }
    }
}

impl RiderGroupBuilder {
    pub fn new() -> (r: Self)
        ensures
            r@ == RiderGroupBuilderV::empty(),
    {
        Self::default()
    }

    /// Declares a capability flag; declaring it twice changes nothing.
    pub fn enable_feature(&mut self, feature: RiderFeature)
        ensures
            final(self)@ == (RiderGroupBuilderV {
                features: old(self)@.features.insert(feature),
                ..old(self)@
            }),
    {
        self.features.insert(feature);
    }

    /// Appends an empty rider builder and hands it back for population.
    pub fn add_rider(&mut self) -> (r: &mut RiderBuilder)
        ensures
            *r == (RiderBuilder {
                start_position: None,
                start_velocity: None,
                start_angle: None,
                can_remount: None,
            }),
            final(self)@ == (RiderGroupBuilderV {
                riders: old(self)@.riders.push(*final(r)),
                ..old(self)@
            }),
    {
        let b = RiderBuilder {
            start_position: None,
            start_velocity: None,
            start_angle: None,
            can_remount: None,
        };
        let idx = self.riders.len();
        self.riders.push(b);
        proof {
            assert forall|z: RiderBuilder| #[trigger] self.riders@.update(idx as int, z) == old(
                self,
            ).riders@.push(z) by {
                assert(self.riders@.update(idx as int, z) =~= old(self).riders@.push(z));
            }
        }
        &mut self.riders[idx]
    }

    /// The rider builders accumulated so far, open to revision.
    pub fn get_riders(&mut self) -> (r: &mut Vec<RiderBuilder>)
        ensures
            r@ == old(self)@.riders,
            final(self)@ == (RiderGroupBuilderV { riders: final(r)@, ..old(self)@ }),
    {
        &mut self.riders
    }

    /// Finalizes every rider and validates each gated attribute against
    /// the declared flags; the first failing leaf decides the error.
    pub fn build(&mut self) -> (r: Result<RiderGroup, RiderGroupBuilderError>)
        ensures
            *final(self) == *old(self),
            match r {
                Ok(g) => spec_build_rider_group(old(self)@) matches Ok(gv) && g@ == gv,
                Err(e) => spec_build_rider_group(old(self)@) matches Err(e2) && e == e2,
            },
    {
        let ghost bv = self@;
        let mut riders: Vec<Rider> = Vec::new();
        let n = self.riders.len();
        let mut i: usize = 0;
        proof {
            assert(bv.riders.skip(0) =~= bv.riders);
            if spec_build_riders(bv.features, bv.riders) is Ok {
                assert(riders@ + spec_build_riders(bv.features, bv.riders)->Ok_0
                    =~= spec_build_riders(bv.features, bv.riders)->Ok_0);
            }
        }
        while i < n
            invariant
                i <= n,
                n == self.riders@.len(),
                bv == self@,
                spec_build_riders(bv.features, bv.riders) == match spec_build_riders(
                    bv.features,
                    bv.riders.skip(i as int),
                ) {
                    Ok(rest) => Ok::<Seq<Rider>, RiderGroupBuilderError>(riders@ + rest),
                    Err(e) => Err(e),
                },
            decreases n - i,
        {
            proof {
                assert(bv.riders.skip(i as int)[0] == bv.riders[i as int]);
                assert(bv.riders.skip(i as int).drop_first() =~= bv.riders.skip(i as int + 1));
            }
            match self.riders[i].build() {
                Ok(rider) => {
                    match check_feature::<RiderFeature, RiderSubBuilderError, Vec2>(
                        &self.features,
                        RiderFeature::StartVelocity,
                        &rider.start_velocity,
                        "start_velocity",
                    ) {
                        Ok(_) => {},
                        Err(e) => {
                            return Err(e);
                        },
                    }
                    match check_feature::<RiderFeature, RiderSubBuilderError, Scalar>(
                        &self.features,
                        RiderFeature::StartAngle,
                        &rider.start_angle,
                        "start_angle",
                    ) {
                        Ok(_) => {},
                        Err(e) => {
                            return Err(e);
                        },
                    }
                    match check_feature::<RiderFeature, RiderSubBuilderError, bool>(
                        &self.features,
                        RiderFeature::Remount,
                        &rider.can_remount,
                        "can_remount",
                    ) {
                        Ok(_) => {},
                        Err(e) => {
                            return Err(e);
                        },
                    }
                    let ghost prev = riders@;
                    riders.push(rider);
                    proof {
                        if spec_build_riders(bv.features, bv.riders.skip(i as int + 1)) is Ok {
                            let rest = spec_build_riders(
                                bv.features,
                                bv.riders.skip(i as int + 1),
                            )->Ok_0;
                            assert(riders@ + rest =~= prev + (seq![rider] + rest));
                        }
                    }
                },
                Err(e) => {
                    return Err(
                        GroupBuilderError::SubBuilderError(RiderSubBuilderError::Rider(e)),
                    );
                },
            }
            i = i + 1;
        }
        proof {
            assert(bv.riders.skip(n as int) =~= Seq::<RiderBuilder>::empty());
            assert(riders@ + Seq::<Rider>::empty() =~= riders@);
        }
        let features = self.features.duplicate();
        Ok(RiderGroup { features, riders })
    }
}

} // verus!
