//! Line leaf entities and the line group aggregate.

use crate::track::group_builder::{
    check_feature, spec_check_feature, Feature, FeatureSet, GroupBuilderError,
};
use crate::track::vec2::{Scalar, Vec2};
use vstd::prelude::*;

verus! {

/// Capability flags of the line group.
#[derive(Clone, Copy, Debug, PartialEq, Eq, Structural)]
pub enum LineFeature {
    SceneryWidth,
    AccelerationMultiplier,
    SinglePrecisionSceneryWidth,
}

impl Feature for LineFeature {
    open spec fn spec_label(&self) -> Seq<char> {
        match *self {
            LineFeature::SceneryWidth => "SceneryWidth"@,
            LineFeature::AccelerationMultiplier => "AccelerationMultiplier"@,
            LineFeature::SinglePrecisionSceneryWidth => "SinglePrecisionSceneryWidth"@,
        }
    }

    fn same(&self, other: &Self) -> (r: bool) {
        *self == *other
    }

    fn label(&self) -> (r: &'static str) {
        match *self {
            LineFeature::SceneryWidth => "SceneryWidth",
            LineFeature::AccelerationMultiplier => "AccelerationMultiplier",
            LineFeature::SinglePrecisionSceneryWidth => "SinglePrecisionSceneryWidth",
        }
    }
}

/// A plain riding line.
#[derive(Clone, Copy, Debug, PartialEq, Eq)]
pub struct StandardLine {
    pub id: u32,
    pub endpoints: (Vec2, Vec2),
    pub flipped: bool,
    pub left_extension: bool,
    pub right_extension: bool,
}

/// A riding line with an optional acceleration multiplier, gated by
/// `LineFeature::AccelerationMultiplier`.
#[derive(Clone, Copy, Debug, PartialEq, Eq)]
pub struct AccelerationLine {
    pub id: u32,
    pub endpoints: (Vec2, Vec2),
    pub flipped: bool,
    pub left_extension: bool,
    pub right_extension: bool,
    pub multiplier: Option<Scalar>,
}

/// A decorative line with an optional width, gated by
/// `LineFeature::SceneryWidth`.
#[derive(Clone, Copy, Debug, PartialEq, Eq)]
pub struct SceneryLine {
    pub id: u32,
    pub endpoints: (Vec2, Vec2),
    pub width: Option<Scalar>,
}

#[derive(Clone, Copy, Debug, PartialEq, Eq)]
pub enum StandardLineBuilderError {
    UninitializedField(&'static str),
}

#[derive(Clone, Copy, Debug, PartialEq, Eq)]
pub enum AccelerationLineBuilderError {
    UninitializedField(&'static str),
}

#[derive(Clone, Copy, Debug, PartialEq, Eq)]
pub enum SceneryLineBuilderError {
    UninitializedField(&'static str),
}

/// Incremental builder for [`StandardLine`]; every field must be set
/// before finalization.
#[derive(Clone, Copy, Debug, PartialEq, Eq, Default)]
pub struct StandardLineBuilder {
    pub id: Option<u32>,
    pub endpoints: Option<(Vec2, Vec2)>,
    pub flipped: Option<bool>,
    pub left_extension: Option<bool>,
    pub right_extension: Option<bool>,
}

impl StandardLineBuilder {
    /// The line this state denotes: the first unset mandatory field (in
    /// declaration order) is the error, else the finished line.
    pub open spec fn spec_build(self) -> Result<StandardLine, StandardLineBuilderError> {
        if self.id is None {
            Err(StandardLineBuilderError::UninitializedField("id"))
        } else if self.endpoints is None {
            Err(StandardLineBuilderError::UninitializedField("endpoints"))
        } else if self.flipped is None {
            Err(StandardLineBuilderError::UninitializedField("flipped"))
        } else if self.left_extension is None {
            Err(StandardLineBuilderError::UninitializedField("left_extension"))
        } else if self.right_extension is None {
            Err(StandardLineBuilderError::UninitializedField("right_extension"))
        } else {
            Ok(
                StandardLine {
                    id: self.id->0,
                    endpoints: self.endpoints->0,
                    flipped: self.flipped->0,
                    left_extension: self.left_extension->0,
                    right_extension: self.right_extension->0,
                },
            )
        }
    }

    pub fn build(&self) -> (r: Result<StandardLine, StandardLineBuilderError>)
        ensures
            r == self.spec_build(),
    {
        match (self.id, self.endpoints, self.flipped, self.left_extension, self.right_extension) {
            (Some(id), Some(endpoints), Some(flipped), Some(left_extension), Some(
                right_extension,
            )) => Ok(StandardLine { id, endpoints, flipped, left_extension, right_extension }),
            _ => {
                if self.id.is_none() {
                    Err(StandardLineBuilderError::UninitializedField("id"))
                } else if self.endpoints.is_none() {
                    Err(StandardLineBuilderError::UninitializedField("endpoints"))
                } else if self.flipped.is_none() {
                    Err(StandardLineBuilderError::UninitializedField("flipped"))
                } else if self.left_extension.is_none() {
                    Err(StandardLineBuilderError::UninitializedField("left_extension"))
                } else {
                    Err(StandardLineBuilderError::UninitializedField("right_extension"))
                }
            },
        }
    }
}

/// Incremental builder for [`AccelerationLine`]; the multiplier is
/// optional and stays absent unless supplied.
#[derive(Clone, Copy, Debug, PartialEq, Eq, Default)]
pub struct AccelerationLineBuilder {
    pub id: Option<u32>,
    pub endpoints: Option<(Vec2, Vec2)>,
    pub flipped: Option<bool>,
    pub left_extension: Option<bool>,
    pub right_extension: Option<bool>,
    pub multiplier: Option<Scalar>,
}

impl AccelerationLineBuilder {
    pub open spec fn spec_build(self) -> Result<AccelerationLine, AccelerationLineBuilderError> {
        if self.id is None {
            Err(AccelerationLineBuilderError::UninitializedField("id"))
        } else if self.endpoints is None {
            Err(AccelerationLineBuilderError::UninitializedField("endpoints"))
        } else if self.flipped is None {
            Err(AccelerationLineBuilderError::UninitializedField("flipped"))
        } else if self.left_extension is None {
            Err(AccelerationLineBuilderError::UninitializedField("left_extension"))
        } else if self.right_extension is None {
            Err(AccelerationLineBuilderError::UninitializedField("right_extension"))
        } else {
            Ok(
                AccelerationLine {
                    id: self.id->0,
                    endpoints: self.endpoints->0,
                    flipped: self.flipped->0,
                    left_extension: self.left_extension->0,
                    right_extension: self.right_extension->0,
                    multiplier: self.multiplier,
                },
            )
        }
    }

    /// Supplies the gated multiplier attribute.
    pub fn multiplier(&mut self, multiplier: Scalar)
        ensures
            *final(self) == (AccelerationLineBuilder { multiplier: Some(multiplier), ..*old(self) }),
    {
        self.multiplier = Some(multiplier);
    }

    pub fn build(&self) -> (r: Result<AccelerationLine, AccelerationLineBuilderError>)
        ensures
            r == self.spec_build(),
    {
        match (self.id, self.endpoints, self.flipped, self.left_extension, self.right_extension) {
            (Some(id), Some(endpoints), Some(flipped), Some(left_extension), Some(
                right_extension,
            )) => Ok(
                AccelerationLine {
                    id,
                    endpoints,
                    flipped,
                    left_extension,
                    right_extension,
                    multiplier: self.multiplier,
                },
            ),
            _ => {
                if self.id.is_none() {
                    Err(AccelerationLineBuilderError::UninitializedField("id"))
                } else if self.endpoints.is_none() {
                    Err(AccelerationLineBuilderError::UninitializedField("endpoints"))
                } else if self.flipped.is_none() {
                    Err(AccelerationLineBuilderError::UninitializedField("flipped"))
                } else if self.left_extension.is_none() {
                    Err(AccelerationLineBuilderError::UninitializedField("left_extension"))
                } else {
                    Err(AccelerationLineBuilderError::UninitializedField("right_extension"))
                }
            },
        }
    }
}

/// Incremental builder for [`SceneryLine`]; the width is optional and
/// stays absent unless supplied.
#[derive(Clone, Copy, Debug, PartialEq, Eq, Default)]
pub struct SceneryLineBuilder {
    pub id: Option<u32>,
    pub endpoints: Option<(Vec2, Vec2)>,
    pub width: Option<Scalar>,
}

impl SceneryLineBuilder {
    pub open spec fn spec_build(self) -> Result<SceneryLine, SceneryLineBuilderError> {
        if self.id is None {
            Err(SceneryLineBuilderError::UninitializedField("id"))
        } else if self.endpoints is None {
            Err(SceneryLineBuilderError::UninitializedField("endpoints"))
        } else {
            Ok(SceneryLine { id: self.id->0, endpoints: self.endpoints->0, width: self.width })
        }
    }

    /// Supplies the gated width attribute.
    pub fn width(&mut self, width: Scalar)
        ensures
            *final(self) == (SceneryLineBuilder { width: Some(width), ..*old(self) }),
    {
        self.width = Some(width);
    }

    pub fn build(&self) -> (r: Result<SceneryLine, SceneryLineBuilderError>)
        ensures
            r == self.spec_build(),
    {
        match (self.id, self.endpoints) {
            (Some(id), Some(endpoints)) => Ok(SceneryLine { id, endpoints, width: self.width }),
            _ => {
                if self.id.is_none() {
                    Err(SceneryLineBuilderError::UninitializedField("id"))
                } else {
                    Err(SceneryLineBuilderError::UninitializedField("endpoints"))
                }
            },
        }
    }
}

/// A failure of one of the line group's leaf builders, tagged with the
/// kind of line that produced it.
#[derive(Clone, Copy, Debug, PartialEq, Eq)]
pub enum LineSubBuilderError {
    StandardLine(StandardLineBuilderError),
    AccelerationLine(AccelerationLineBuilderError),
    SceneryLine(SceneryLineBuilderError),
}

pub type LineGroupBuilderError = GroupBuilderError<LineFeature, LineSubBuilderError>;

/// The finished, immutable collection of a track's lines.
#[derive(Debug)]
pub struct LineGroup {
    features: FeatureSet<LineFeature>,
    standard_lines: Vec<StandardLine>,
    acceleration_lines: Vec<AccelerationLine>,
    scenery_lines: Vec<SceneryLine>,
}

/// Abstract value of a [`LineGroup`].
pub struct LineGroupV {
    pub features: Set<LineFeature>,
    pub standard_lines: Seq<StandardLine>,
    pub acceleration_lines: Seq<AccelerationLine>,
    pub scenery_lines: Seq<SceneryLine>,
}

impl View for LineGroup {
    type V = LineGroupV;

    closed spec fn view(&self) -> LineGroupV {
        LineGroupV {
            features: self.features@,
            standard_lines: self.standard_lines@,
            acceleration_lines: self.acceleration_lines@,
            scenery_lines: self.scenery_lines@,
        }
    }
}

impl LineGroup {
    pub fn features(&self) -> (r: &FeatureSet<LineFeature>)
        ensures
            r@ == self@.features,
    {
        &self.features
    }

    pub fn standard_lines(&self) -> (r: &Vec<StandardLine>)
        ensures
            r@ == self@.standard_lines,
    {
        &self.standard_lines
    }

    pub fn acceleration_lines(&self) -> (r: &Vec<AccelerationLine>)
        ensures
            r@ == self@.acceleration_lines,
    {
        &self.acceleration_lines
    }

    pub fn scenery_lines(&self) -> (r: &Vec<SceneryLine>)
        ensures
            r@ == self@.scenery_lines,
    {
        &self.scenery_lines
    }
}

/// Assembles a [`LineGroup`] incrementally.
#[derive(Debug)]
pub struct LineGroupBuilder {
    features: FeatureSet<LineFeature>,
    standard_lines: Vec<StandardLineBuilder>,
    acceleration_lines: Vec<AccelerationLineBuilder>,
    scenery_lines: Vec<SceneryLineBuilder>,
}

/// Abstract state of a [`LineGroupBuilder`].
pub struct LineGroupBuilderV {
    pub features: Set<LineFeature>,
    pub standard_lines: Seq<StandardLineBuilder>,
    pub acceleration_lines: Seq<AccelerationLineBuilder>,
    pub scenery_lines: Seq<SceneryLineBuilder>,
}

impl View for LineGroupBuilder {
    type V = LineGroupBuilderV;

    closed spec fn view(&self) -> LineGroupBuilderV {
        LineGroupBuilderV {
            features: self.features@,
            standard_lines: self.standard_lines@,
            acceleration_lines: self.acceleration_lines@,
            scenery_lines: self.scenery_lines@,
        }
    }
}

impl LineGroupBuilderV {
    pub open spec fn empty() -> LineGroupBuilderV {
        LineGroupBuilderV {
            features: Set::empty(),
            standard_lines: Seq::empty(),
            acceleration_lines: Seq::empty(),
            scenery_lines: Seq::empty(),
        }
    }
}

/// The standard lines this state denotes, first failure first.
pub open spec fn spec_build_standard_lines(bs: Seq<StandardLineBuilder>) -> Result<
    Seq<StandardLine>,
    LineGroupBuilderError,
>
    decreases bs.len(),
{
    if bs.len() == 0 {
        Ok(Seq::empty())
    } else {
        match bs[0].spec_build() {
            Err(e) => Err(
                GroupBuilderError::SubBuilderError(LineSubBuilderError::StandardLine(e)),
            ),
            Ok(l) => match spec_build_standard_lines(bs.drop_first()) {
                Err(e) => Err(e),
                Ok(rest) => Ok(seq![l] + rest),
            },
        }
    }
}

/// The acceleration lines this state denotes: each leaf must finish and
/// its multiplier must agree with `AccelerationMultiplier`.
pub open spec fn spec_build_acceleration_lines(
    features: Set<LineFeature>,
    bs: Seq<AccelerationLineBuilder>,
) -> Result<Seq<AccelerationLine>, LineGroupBuilderError>
    decreases bs.len(),
{
    if bs.len() == 0 {
        Ok(Seq::empty())
    } else {
        match bs[0].spec_build() {
            Err(e) => Err(
                GroupBuilderError::SubBuilderError(LineSubBuilderError::AccelerationLine(e)),
            ),
            Ok(l) => match spec_check_feature::<LineFeature, LineSubBuilderError>(
                features,
                LineFeature::AccelerationMultiplier,
                l.multiplier is Some,
                "multiplier",
            ) {
                Err(e) => Err(e),
                Ok(_) => match spec_build_acceleration_lines(features, bs.drop_first()) {
                    Err(e) => Err(e),
                    Ok(rest) => Ok(seq![l] + rest),
                },
            },
        }
    }
}

/// The scenery lines this state denotes: each leaf must finish and its
/// width must agree with `SceneryWidth`.
pub open spec fn spec_build_scenery_lines(
    features: Set<LineFeature>,
    bs: Seq<SceneryLineBuilder>,
) -> Result<Seq<SceneryLine>, LineGroupBuilderError>
    decreases bs.len(),
{
    if bs.len() == 0 {
        Ok(Seq::empty())
    } else {
        match bs[0].spec_build() {
            Err(e) => Err(GroupBuilderError::SubBuilderError(LineSubBuilderError::SceneryLine(e))),
            Ok(l) => match spec_check_feature::<LineFeature, LineSubBuilderError>(
                features,
                LineFeature::SceneryWidth,
                l.width is Some,
                "width",
            ) {
                Err(e) => Err(e),
                Ok(_) => match spec_build_scenery_lines(features, bs.drop_first()) {
                    Err(e) => Err(e),
                    Ok(rest) => Ok(seq![l] + rest),
                },
            },
        }
    }
}

/// The group this builder state denotes: standard lines first, then
/// acceleration lines, then scenery lines, stopping at the first
/// failure.
pub open spec fn spec_build_line_group(bv: LineGroupBuilderV) -> Result<
    LineGroupV,
    LineGroupBuilderError,
> {
    match spec_build_standard_lines(bv.standard_lines) {
        Err(e) => Err(e),
        Ok(standard_lines) => match spec_build_acceleration_lines(
            bv.features,
            bv.acceleration_lines,
        ) {
            Err(e) => Err(e),
            Ok(acceleration_lines) => match spec_build_scenery_lines(
                bv.features,
                bv.scenery_lines,
            ) {
                Err(e) => Err(e),
                Ok(scenery_lines) => Ok(
                    LineGroupV {
                        features: bv.features,
                        standard_lines,
                        acceleration_lines,
                        scenery_lines,
                    },
                ),
            },
        },
    }
}

impl Default for LineGroupBuilder {
    fn default() -> (r: Self)
        ensures
            r@ == LineGroupBuilderV::empty(),
    {
        LineGroupBuilder {
            features: FeatureSet::new(),
            standard_lines: Vec::new(),
            acceleration_lines: Vec::new(),
            scenery_lines: Vec::new(),
        }
    }
}

impl LineGroupBuilder {
    pub fn new() -> (r: Self)
        ensures
            r@ == LineGroupBuilderV::empty(),
    {
        Self::default()
    }

    /// Declares a capability flag; declaring it twice changes nothing.
    pub fn enable_feature(&mut self, feature: LineFeature)
        ensures
            final(self)@ == (LineGroupBuilderV {
                features: old(self)@.features.insert(feature),
                ..old(self)@
            }),
    {
        self.features.insert(feature);
    }

    /// Appends a complete standard-line builder and hands it back for
    /// further revision.
    pub fn add_standard_line(
        &mut self,
        id: u32,
        endpoints: (Vec2, Vec2),
        flipped: bool,
        left_extension: bool,
        right_extension: bool,
    ) -> (r: Result<&mut StandardLineBuilder, LineGroupBuilderError>)
        ensures
            r is Ok,
            r matches Ok(b) ==> *b == (StandardLineBuilder {
                id: Some(id),
                endpoints: Some(endpoints),
                flipped: Some(flipped),
                left_extension: Some(left_extension),
                right_extension: Some(right_extension),
            }) && final(self)@ == (LineGroupBuilderV {
                standard_lines: old(self)@.standard_lines.push(*final(b)),
                ..old(self)@
            }),
    {
        let b = StandardLineBuilder {
            id: Some(id),
            endpoints: Some(endpoints),
            flipped: Some(flipped),
            left_extension: Some(left_extension),
            right_extension: Some(right_extension),
        };
        let idx = self.standard_lines.len();
        self.standard_lines.push(b);
        proof {
            assert forall|z: StandardLineBuilder|
                #[trigger] self.standard_lines@.update(idx as int, z) == old(
                    self,
                ).standard_lines@.push(z) by {
                assert(self.standard_lines@.update(idx as int, z) =~= old(
                    self,
                ).standard_lines@.push(z));
            }
        }
        Ok(&mut self.standard_lines[idx])
    }

    /// The standard-line builders accumulated so far, open to revision.
    pub fn get_standard_lines(&mut self) -> (r: &mut Vec<StandardLineBuilder>)
        ensures
            r@ == old(self)@.standard_lines,
            final(self)@ == (LineGroupBuilderV {
                standard_lines: final(r)@,
                ..old(self)@
            }),
    {
        &mut self.standard_lines
    }

    /// Appends a complete acceleration-line builder (multiplier unset)
    /// and hands it back for further revision.
    pub fn add_acceleration_line(
        &mut self,
        id: u32,
        endpoints: (Vec2, Vec2),
        flipped: bool,
        left_extension: bool,
        right_extension: bool,
    ) -> (r: Result<&mut AccelerationLineBuilder, LineGroupBuilderError>)
        ensures
            r is Ok,
            r matches Ok(b) ==> *b == (AccelerationLineBuilder {
                id: Some(id),
                endpoints: Some(endpoints),
                flipped: Some(flipped),
                left_extension: Some(left_extension),
                right_extension: Some(right_extension),
                multiplier: None,
            }) && final(self)@ == (LineGroupBuilderV {
                acceleration_lines: old(self)@.acceleration_lines.push(*final(b)),
                ..old(self)@
            }),
    {
        let b = AccelerationLineBuilder {
            id: Some(id),
            endpoints: Some(endpoints),
            flipped: Some(flipped),
            left_extension: Some(left_extension),
            right_extension: Some(right_extension),
            multiplier: None,
        };
        let idx = self.acceleration_lines.len();
        self.acceleration_lines.push(b);
        proof {
            assert forall|z: AccelerationLineBuilder|
                #[trigger] self.acceleration_lines@.update(idx as int, z) == old(
                    self,
                ).acceleration_lines@.push(z) by {
                assert(self.acceleration_lines@.update(idx as int, z) =~= old(
                    self,
                ).acceleration_lines@.push(z));
            }
        }
        Ok(&mut self.acceleration_lines[idx])
    }

    /// The acceleration-line builders accumulated so far, open to
    /// revision.
    pub fn get_acceleration_lines(&mut self) -> (r: &mut Vec<AccelerationLineBuilder>)
        ensures
            r@ == old(self)@.acceleration_lines,
            final(self)@ == (LineGroupBuilderV {
                acceleration_lines: final(r)@,
                ..old(self)@
            }),
    {
        &mut self.acceleration_lines
    }

    /// Appends a complete scenery-line builder (width unset) and hands
    /// it back for further revision.
    pub fn add_scenery_line(&mut self, id: u32, endpoints: (Vec2, Vec2)) -> (r: Result<
        &mut SceneryLineBuilder,
        LineGroupBuilderError,
    >)
        ensures
            r is Ok,
            r matches Ok(b) ==> *b == (SceneryLineBuilder {
                id: Some(id),
                endpoints: Some(endpoints),
                width: None,
            }) && final(self)@ == (LineGroupBuilderV {
                scenery_lines: old(self)@.scenery_lines.push(*final(b)),
                ..old(self)@
            }),
    {
        let b = SceneryLineBuilder { id: Some(id), endpoints: Some(endpoints), width: None };
        let idx = self.scenery_lines.len();
        self.scenery_lines.push(b);
        proof {
            assert forall|z: SceneryLineBuilder|
                #[trigger] self.scenery_lines@.update(idx as int, z) == old(
                    self,
                ).scenery_lines@.push(z) by {
                assert(self.scenery_lines@.update(idx as int, z) =~= old(
                    self,
                ).scenery_lines@.push(z));
            }
        }
        Ok(&mut self.scenery_lines[idx])
    }

    /// The scenery-line builders accumulated so far, open to revision.
    pub fn get_scenery_lines(&mut self) -> (r: &mut Vec<SceneryLineBuilder>)
        ensures
            r@ == old(self)@.scenery_lines,
            final(self)@ == (LineGroupBuilderV {
                scenery_lines: final(r)@,
                ..old(self)@
            }),
    {
        &mut self.scenery_lines
    }


    /// Finalizes every leaf and validates each gated attribute against
    /// the declared flags; the first failing leaf decides the error, and
    /// no partial group is observable.
    pub fn build(&mut self) -> (r: Result<LineGroup, LineGroupBuilderError>)
        ensures
            *final(self) == *old(self),
            match r {
                Ok(g) => spec_build_line_group(old(self)@) matches Ok(gv) && g@ == gv,
                Err(e) => spec_build_line_group(old(self)@) matches Err(e2) && e == e2,
            },
    {
        let ghost bv = self@;
        let mut standard_lines: Vec<StandardLine> = Vec::new();
        let n_std = self.standard_lines.len();
        let mut i: usize = 0;
        proof {
            assert(bv.standard_lines.skip(0) =~= bv.standard_lines);
            if spec_build_standard_lines(bv.standard_lines) is Ok {
                assert(standard_lines@ + spec_build_standard_lines(bv.standard_lines)->Ok_0
                    =~= spec_build_standard_lines(bv.standard_lines)->Ok_0);
            }
        }
        while i < n_std
            invariant
                i <= n_std,
                n_std == self.standard_lines@.len(),
                bv == self@,
                spec_build_standard_lines(bv.standard_lines) == match spec_build_standard_lines(
                    bv.standard_lines.skip(i as int),
                ) {
                    Ok(rest) => Ok::<Seq<StandardLine>, LineGroupBuilderError>(
                        standard_lines@ + rest,
                    ),
                    Err(e) => Err(e),
                },
            decreases n_std - i,
        {
            proof {
                assert(bv.standard_lines.skip(i as int)[0] == bv.standard_lines[i as int]);
                assert(bv.standard_lines.skip(i as int).drop_first() =~= bv.standard_lines.skip(
                    i as int + 1,
                ));
            }
            match self.standard_lines[i].build() {
                Ok(l) => {
                    let ghost prev = standard_lines@;
                    standard_lines.push(l);
                    proof {
                        if spec_build_standard_lines(bv.standard_lines.skip(i as int + 1))
                            is Ok {
                            let rest = spec_build_standard_lines(
                                bv.standard_lines.skip(i as int + 1),
                            )->Ok_0;
                            assert(standard_lines@ + rest =~= prev + (seq![l] + rest));
                        }
                    }
                },
                Err(e) => {
                    return Err(
                        GroupBuilderError::SubBuilderError(LineSubBuilderError::StandardLine(e)),
                    );
                },
            }
            i = i + 1;
        }
        proof {
            assert(bv.standard_lines.skip(n_std as int) =~= Seq::<StandardLineBuilder>::empty());
            assert(standard_lines@ + Seq::<StandardLine>::empty() =~= standard_lines@);
        }
        let mut acceleration_lines: Vec<AccelerationLine> = Vec::new();
        let n_acc = self.acceleration_lines.len();
        let mut i: usize = 0;
        proof {
            assert(bv.acceleration_lines.skip(0) =~= bv.acceleration_lines);
            if spec_build_acceleration_lines(bv.features, bv.acceleration_lines) is Ok {
                assert(acceleration_lines@ + spec_build_acceleration_lines(
                    bv.features,
                    bv.acceleration_lines,
                )->Ok_0 =~= spec_build_acceleration_lines(bv.features, bv.acceleration_lines)->Ok_0);
            }
        }
        while i < n_acc
            invariant
                i <= n_acc,
                n_acc == self.acceleration_lines@.len(),
                bv == self@,
                spec_build_standard_lines(bv.standard_lines) == Ok::<
                    Seq<StandardLine>,
                    LineGroupBuilderError,
                >(standard_lines@),
                spec_build_acceleration_lines(bv.features, bv.acceleration_lines) == match
                    spec_build_acceleration_lines(
                    bv.features,
                    bv.acceleration_lines.skip(i as int),
                ) {
                    Ok(rest) => Ok::<Seq<AccelerationLine>, LineGroupBuilderError>(
                        acceleration_lines@ + rest,
                    ),
                    Err(e) => Err(e),
                },
            decreases n_acc - i,
        {
            proof {
                assert(bv.acceleration_lines.skip(i as int)[0] == bv.acceleration_lines[
                    i as int]);
                assert(bv.acceleration_lines.skip(i as int).drop_first()
                    =~= bv.acceleration_lines.skip(i as int + 1));
            }
            match self.acceleration_lines[i].build() {
                Ok(l) => {
                    match check_feature::<LineFeature, LineSubBuilderError, Scalar>(
                        &self.features,
                        LineFeature::AccelerationMultiplier,
                        &l.multiplier,
                        "multiplier",
                    ) {
                        Ok(_) => {},
                        Err(e) => {
                            return Err(e);
                        },
                    }
                    let ghost prev = acceleration_lines@;
                    acceleration_lines.push(l);
                    proof {
                        if spec_build_acceleration_lines(
                            bv.features,
                            bv.acceleration_lines.skip(i as int + 1),
                        ) is Ok {
                            let rest = spec_build_acceleration_lines(
                                bv.features,
                                bv.acceleration_lines.skip(i as int + 1),
                            )->Ok_0;
                            assert(acceleration_lines@ + rest =~= prev + (seq![l] + rest));
                        }
                    }
                },
                Err(e) => {
                    return Err(
                        GroupBuilderError::SubBuilderError(
                            LineSubBuilderError::AccelerationLine(e),
                        ),
                    );
                },
            }
            i = i + 1;
        }
        proof {
            assert(bv.acceleration_lines.skip(n_acc as int) =~= Seq::<
                AccelerationLineBuilder,
            >::empty());
            assert(acceleration_lines@ + Seq::<AccelerationLine>::empty()
                =~= acceleration_lines@);
        }
        let mut scenery_lines: Vec<SceneryLine> = Vec::new();
        let n_scn = self.scenery_lines.len();
        let mut i: usize = 0;
        proof {
            assert(bv.scenery_lines.skip(0) =~= bv.scenery_lines);
            if spec_build_scenery_lines(bv.features, bv.scenery_lines) is Ok {
                assert(scenery_lines@ + spec_build_scenery_lines(bv.features, bv.scenery_lines)->Ok_0
                    =~= spec_build_scenery_lines(bv.features, bv.scenery_lines)->Ok_0);
            }
        }
        while i < n_scn
            invariant
                i <= n_scn,
                n_scn == self.scenery_lines@.len(),
                bv == self@,
                spec_build_standard_lines(bv.standard_lines) == Ok::<
                    Seq<StandardLine>,
                    LineGroupBuilderError,
                >(standard_lines@),
                spec_build_acceleration_lines(bv.features, bv.acceleration_lines) == Ok::<
                    Seq<AccelerationLine>,
                    LineGroupBuilderError,
                >(acceleration_lines@),
                spec_build_scenery_lines(bv.features, bv.scenery_lines) == match
                    spec_build_scenery_lines(bv.features, bv.scenery_lines.skip(i as int)) {
                    Ok(rest) => Ok::<Seq<SceneryLine>, LineGroupBuilderError>(
                        scenery_lines@ + rest,
                    ),
                    Err(e) => Err(e),
                },
            decreases n_scn - i,
        {
            proof {
                assert(bv.scenery_lines.skip(i as int)[0] == bv.scenery_lines[i as int]);
                assert(bv.scenery_lines.skip(i as int).drop_first() =~= bv.scenery_lines.skip(
                    i as int + 1,
                ));
            }
            match self.scenery_lines[i].build() {
                Ok(l) => {
                    match check_feature::<LineFeature, LineSubBuilderError, Scalar>(
                        &self.features,
                        LineFeature::SceneryWidth,
                        &l.width,
                        "width",
                    ) {
                        Ok(_) => {},
                        Err(e) => {
                            return Err(e);
                        },
                    }
                    let ghost prev = scenery_lines@;
                    scenery_lines.push(l);
                    proof {
                        if spec_build_scenery_lines(
                            bv.features,
                            bv.scenery_lines.skip(i as int + 1),
                        ) is Ok {
                            let rest = spec_build_scenery_lines(
                                bv.features,
                                bv.scenery_lines.skip(i as int + 1),
                            )->Ok_0;
                            assert(scenery_lines@ + rest =~= prev + (seq![l] + rest));
                        }
                    }
                },
                Err(e) => {
                    return Err(
                        GroupBuilderError::SubBuilderError(LineSubBuilderError::SceneryLine(e)),
                    );
                },
            }
            i = i + 1;
        }
        proof {
            assert(bv.scenery_lines.skip(n_scn as int) =~= Seq::<SceneryLineBuilder>::empty());
            assert(scenery_lines@ + Seq::<SceneryLine>::empty() =~= scenery_lines@);
        }
        let features = self.features.duplicate();
        Ok(LineGroup { features, standard_lines, acceleration_lines, scenery_lines })
    }
}

} // verus!
