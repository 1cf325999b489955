//! Trigger and event primitives, the trigger/event pair, and the
//! parametrized trigger group aggregate.
//!
//! A trigger group pairs a condition (`Trigger`) with an effect
//! (`Event`).  Distinct instantiations exist per effect kind and per
//! "legacy vs current" condition style: older file versions only
//! support line-hit conditions for camera zoom, while newer versions
//! support frame-bounds conditions for all three effect kinds.

use crate::track::group_builder::GroupBuilderError;
use crate::track::metadata::SCALAR_ONE_BITS;
use crate::track::rgb_color::RGBColor;
use crate::track::vec2::Scalar;
use vstd::prelude::*;

verus! {

/// An effect a trigger can fire: a plain copyable value with a default
/// initial state.
pub trait Event: Sized + Copy {
    /// The effect's state before any trigger fires.
    spec fn spec_initial() -> Self;

    /// Executable witness of [`Event::spec_initial`].
    fn initial_value() -> (r: Self)
        ensures
            r == Self::spec_initial(),
    ;
}

/// A condition that fires an effect: a plain copyable value.
pub trait Trigger: Sized + Copy {

}

/// Sets the camera zoom target.
#[derive(Clone, Copy, Debug, PartialEq, Eq, Structural)]
pub struct CameraZoomEvent {
    pub zoom: Scalar,
}

impl CameraZoomEvent {
    pub fn new(zoom: Scalar) -> (r: Self)
        ensures
            r == (CameraZoomEvent { zoom }),
    {
        CameraZoomEvent { zoom }
    }
}

impl Event for CameraZoomEvent {
    open spec fn spec_initial() -> Self {
        CameraZoomEvent { zoom: Scalar { bits: SCALAR_ONE_BITS } }
    }

    fn initial_value() -> (r: Self) {
        CameraZoomEvent { zoom: Scalar { bits: SCALAR_ONE_BITS } }
    }
}

/// Sets the background color.
#[derive(Clone, Copy, Debug, PartialEq, Eq, Structural)]
pub struct BackgroundColorEvent {
    pub color: RGBColor,
}

impl BackgroundColorEvent {
    pub fn new(color: RGBColor) -> (r: Self)
        ensures
            r == (BackgroundColorEvent { color }),
    {
        BackgroundColorEvent { color }
    }
}

impl Event for BackgroundColorEvent {
    open spec fn spec_initial() -> Self {
        BackgroundColorEvent { color: RGBColor { red: 244, green: 245, blue: 249 } }
    }

    fn initial_value() -> (r: Self) {
        BackgroundColorEvent { color: RGBColor { red: 244, green: 245, blue: 249 } }
    }
}

/// Sets the line color.
#[derive(Clone, Copy, Debug, PartialEq, Eq, Structural)]
pub struct LineColorEvent {
    pub color: RGBColor,
}

impl LineColorEvent {
    pub fn new(color: RGBColor) -> (r: Self)
        ensures
            r == (LineColorEvent { color }),
    {
        LineColorEvent { color }
    }
}

impl Event for LineColorEvent {
    open spec fn spec_initial() -> Self {
        LineColorEvent { color: RGBColor { red: 0, green: 0, blue: 0 } }
    }

    fn initial_value() -> (r: Self) {
        LineColorEvent { color: RGBColor { red: 0, green: 0, blue: 0 } }
    }
}

/// Fires between two frames.
#[derive(Clone, Copy, Debug, PartialEq, Eq, Structural)]
pub struct FrameBoundsTrigger {
    pub start: u32,
    pub end: u32,
}

impl FrameBoundsTrigger {
    pub fn new(start: u32, end: u32) -> (r: Self)
        ensures
            r == (FrameBoundsTrigger { start, end }),
    {
        FrameBoundsTrigger { start, end }
    }
}

impl Trigger for FrameBoundsTrigger {

}

/// Fires once a frame is reached.
#[derive(Clone, Copy, Debug, PartialEq, Eq, Structural)]
pub struct FrameReachedTrigger {
    pub frame: u32,
}

impl FrameReachedTrigger {
    pub fn new(frame: u32) -> (r: Self)
        ensures
            r == (FrameReachedTrigger { frame }),
    {
        FrameReachedTrigger { frame }
    }
}

impl Trigger for FrameReachedTrigger {

}

/// Fires when the line with the given id is hit.
#[derive(Clone, Copy, Debug, PartialEq, Eq, Structural)]
pub struct LineHitTrigger {
    pub id: u32,
}

impl LineHitTrigger {
    pub fn new(id: u32) -> (r: Self)
        ensures
            r == (LineHitTrigger { id }),
    {
        LineHitTrigger { id }
    }
}

impl Trigger for LineHitTrigger {

}

/// A condition paired with the effect it fires.
#[derive(Clone, Copy, Debug, PartialEq, Eq)]
pub struct TriggeredEvent<E, T> {
    pub trigger: T,
    pub event: E,
}

#[derive(Clone, Copy, Debug, PartialEq, Eq)]
pub enum TriggeredEventBuilderError {
    MissingAttribute(&'static str),
}

/// Incremental builder for [`TriggeredEvent`]; both halves must be
/// supplied before finalization.
#[derive(Clone, Copy, Debug, PartialEq, Eq)]
pub struct TriggeredEventBuilder<E, T> {
    pub trigger: Option<T>,
    pub event: Option<E>,
}

impl<E: Event, T: Trigger> Default for TriggeredEventBuilder<E, T> {
    fn default() -> (r: Self)
        ensures
            r == (TriggeredEventBuilder::<E, T> { trigger: None, event: None }),
    {
        TriggeredEventBuilder { trigger: None, event: None }
    }
}

impl<E: Event, T: Trigger> TriggeredEventBuilder<E, T> {
    /// The pair this state denotes: both halves are mandatory.
    pub open spec fn spec_build(self) -> Result<TriggeredEvent<E, T>, TriggeredEventBuilderError> {
        if self.trigger is None {
            Err(TriggeredEventBuilderError::MissingAttribute("trigger"))
        } else if self.event is None {
            Err(TriggeredEventBuilderError::MissingAttribute("event"))
        } else {
            Ok(TriggeredEvent { trigger: self.trigger->0, event: self.event->0 })
        }
    }

    /// Supplies the condition half.
    pub fn trigger(&mut self, trigger: T)
        ensures
            *final(self) == (TriggeredEventBuilder { trigger: Some(trigger), ..*old(self) }),
    {
        self.trigger = Some(trigger);
    }

    /// Supplies the effect half.
    pub fn event(&mut self, event: E)
        ensures
            *final(self) == (TriggeredEventBuilder { event: Some(event), ..*old(self) }),
    {
        self.event = Some(event);
    }

    pub fn build(&self) -> (r: Result<TriggeredEvent<E, T>, TriggeredEventBuilderError>)
        ensures
            r == self.spec_build(),
    {
        match (self.trigger, self.event) {
            (Some(trigger), Some(event)) => Ok(TriggeredEvent { trigger, event }),
            _ => {
                if self.trigger.is_none() {
                    Err(TriggeredEventBuilderError::MissingAttribute("trigger"))
                } else {
                    Err(TriggeredEventBuilderError::MissingAttribute("event"))
                }
            },
        }
    }
}

/// A trigger group's builder error.  Trigger groups declare no
/// capability flags of their own (their leaves have no optional
/// attributes), so the flag position is the inert `()` and only the
/// sub-builder variant can arise.
pub type TriggerGroupBuilderError = GroupBuilderError<(), TriggeredEventBuilderError>;

/// The finished, immutable timeline of one effect kind: the initial
/// state of the effect plus the trigger/event pairs in insertion order.
#[derive(Debug)]
pub struct TriggerGroup<E, T> {
    initial: E,
    triggers: Vec<TriggeredEvent<E, T>>,
}

/// Abstract value of a [`TriggerGroup`].
pub struct TriggerGroupV<E, T> {
    pub initial: E,
    pub triggers: Seq<TriggeredEvent<E, T>>,
}

impl<E: Event, T: Trigger> View for TriggerGroup<E, T> {
    type V = TriggerGroupV<E, T>;

    closed spec fn view(&self) -> TriggerGroupV<E, T> {
        TriggerGroupV { initial: self.initial, triggers: self.triggers@ }
    }
}

impl<E: Event, T: Trigger> TriggerGroup<E, T> {
    pub fn initial(&self) -> (r: &E)
        ensures
            *r == self@.initial,
    {
        &self.initial
    }

    pub fn triggers(&self) -> (r: &Vec<TriggeredEvent<E, T>>)
        ensures
            r@ == self@.triggers,
    {
        &self.triggers
    }
}

/// Assembles a [`TriggerGroup`] incrementally.
#[derive(Debug)]
pub struct TriggerGroupBuilder<E, T> {
    initial: Option<E>,
    triggers: Vec<TriggeredEventBuilder<E, T>>,
}

/// Abstract state of a [`TriggerGroupBuilder`].
pub struct TriggerGroupBuilderV<E, T> {
    pub initial: Option<E>,
    pub triggers: Seq<TriggeredEventBuilder<E, T>>,
}

impl<E: Event, T: Trigger> View for TriggerGroupBuilder<E, T> {
    type V = TriggerGroupBuilderV<E, T>;

    closed spec fn view(&self) -> TriggerGroupBuilderV<E, T> {
        TriggerGroupBuilderV { initial: self.initial, triggers: self.triggers@ }
    }
}

impl<E: Event, T: Trigger> TriggerGroupBuilderV<E, T> {
    pub open spec fn empty() -> TriggerGroupBuilderV<E, T> {
        TriggerGroupBuilderV { initial: None, triggers: Seq::empty() }
    }
}

/// The pairs this state denotes, first failure first.
pub open spec fn spec_build_triggered_events<E: Event, T: Trigger>(
    bs: Seq<TriggeredEventBuilder<E, T>>,
) -> Result<Seq<TriggeredEvent<E, T>>, TriggerGroupBuilderError>
    decreases bs.len(),
{
    if bs.len() == 0 {
        Ok(Seq::empty())
    } else {
        match bs[0].spec_build() {
            Err(e) => Err(GroupBuilderError::SubBuilderError(e)),
            Ok(te) => match spec_build_triggered_events(bs.drop_first()) {
                Err(e) => Err(e),
                Ok(rest) => Ok(seq![te] + rest),
            },
        }
    }
}

/// The group this builder state denotes: an unsupplied initial state
/// falls back to the effect's default.
pub open spec fn spec_build_trigger_group<E: Event, T: Trigger>(
    bv: TriggerGroupBuilderV<E, T>,
) -> Result<TriggerGroupV<E, T>, TriggerGroupBuilderError> {
    match spec_build_triggered_events(bv.triggers) {
        Err(e) => Err(e),
        Ok(triggers) => Ok(
            TriggerGroupV {
                initial: match bv.initial {
                    Some(e) => e,
                    None => E::spec_initial(),
                },
                triggers,
            },
        ),
    }
}

impl<E: Event, T: Trigger> Default for TriggerGroupBuilder<E, T> {
    fn default() -> (r: Self)
        ensures
            r@ == TriggerGroupBuilderV::<E, T>::empty(),
    {
        TriggerGroupBuilder { initial: None, triggers: Vec::new() }
    }
}

impl<E: Event, T: Trigger> TriggerGroupBuilder<E, T> {
    pub fn new() -> (r: Self)
        ensures
            r@ == TriggerGroupBuilderV::<E, T>::empty(),
    {
        Self::default()
    }

    /// Supplies the effect's initial state.
    pub fn initial(&mut self, initial: E)
        ensures
            final(self)@ == (TriggerGroupBuilderV { initial: Some(initial), ..old(self)@ }),
    {
        self.initial = Some(initial);
    }

    /// Appends an empty pair builder and hands it back for population.
    pub fn add_trigger(&mut self) -> (r: &mut TriggeredEventBuilder<E, T>)
        ensures
            *r == (TriggeredEventBuilder::<E, T> { trigger: None, event: None }),
            final(self)@ == (TriggerGroupBuilderV {
                triggers: old(self)@.triggers.push(*final(r)),
                ..old(self)@
            }),
    {
        let b = TriggeredEventBuilder { trigger: None, event: None };
        let idx = self.triggers.len();
        self.triggers.push(b);
        proof {
            assert forall|z: TriggeredEventBuilder<E, T>|
                #[trigger] self.triggers@.update(idx as int, z) == old(self).triggers@.push(
                    z,
                ) by {
                assert(self.triggers@.update(idx as int, z) =~= old(self).triggers@.push(z));
            }
        }
        &mut self.triggers[idx]
    }

    /// The pair builders accumulated so far, open to revision.
    pub fn get_triggers(&mut self) -> (r: &mut Vec<TriggeredEventBuilder<E, T>>)
        ensures
            r@ == old(self)@.triggers,
            final(self)@ == (TriggerGroupBuilderV { triggers: final(r)@, ..old(self)@ }),
    {
        &mut self.triggers
    }

    /// Finalizes every pair; the first incomplete pair decides the
    /// error.
    pub fn build(&mut self) -> (r: Result<TriggerGroup<E, T>, TriggerGroupBuilderError>)
        ensures
            *final(self) == *old(self),
            match r {
                Ok(g) => spec_build_trigger_group(old(self)@) matches Ok(gv) && g@ == gv,
                Err(e) => spec_build_trigger_group(old(self)@) matches Err(e2) && e == e2,
            },
    {
        let ghost bv = self@;
        let mut triggers: Vec<TriggeredEvent<E, T>> = Vec::new();
        let n = self.triggers.len();
        let mut i: usize = 0;
        proof {
            assert(bv.triggers.skip(0) =~= bv.triggers);
            if spec_build_triggered_events(bv.triggers) is Ok {
                assert(triggers@ + spec_build_triggered_events(bv.triggers)->Ok_0
                    =~= spec_build_triggered_events(bv.triggers)->Ok_0);
            }
        }
        while i < n
            invariant
                i <= n,
                n == self.triggers@.len(),
                bv == self@,
                spec_build_triggered_events(bv.triggers) == match spec_build_triggered_events(
                    bv.triggers.skip(i as int),
                ) {
                    Ok(rest) => Ok::<Seq<TriggeredEvent<E, T>>, TriggerGroupBuilderError>(
                        triggers@ + rest,
                    ),
                    Err(e) => Err(e),
                },
            decreases n - i,
        {
            proof {
                assert(bv.triggers.skip(i as int)[0] == bv.triggers[i as int]);
                assert(bv.triggers.skip(i as int).drop_first() =~= bv.triggers.skip(
                    i as int + 1,
                ));
            }
            match self.triggers[i].build() {
                Ok(te) => {
                    let ghost prev = triggers@;
                    triggers.push(te);
                    proof {
                        if spec_build_triggered_events(bv.triggers.skip(i as int + 1)) is Ok {
                            let rest = spec_build_triggered_events(
                                bv.triggers.skip(i as int + 1),
                            )->Ok_0;
                            assert(triggers@ + rest =~= prev + (seq![te] + rest));
                        }
                    }
                },
                Err(e) => {
                    return Err(GroupBuilderError::SubBuilderError(e));
                },
            }
            i = i + 1;
        }
        proof {
            assert(bv.triggers.skip(n as int) =~= Seq::<TriggeredEventBuilder<E, T>>::empty());
            assert(triggers@ + Seq::<TriggeredEvent<E, T>>::empty() =~= triggers@);
        }
        let initial = match &self.initial {
            Some(e) => *e,
            None => E::initial_value(),
        };
        Ok(TriggerGroup { initial, triggers })
    }
}

/// The background-color timeline of current-style file versions.
pub type BackgroundColorGroup = TriggerGroup<BackgroundColorEvent, FrameBoundsTrigger>;

pub type BackgroundColorGroupBuilder = TriggerGroupBuilder<BackgroundColorEvent, FrameBoundsTrigger>;

/// The line-color timeline of current-style file versions.
pub type LineColorGroup = TriggerGroup<LineColorEvent, FrameBoundsTrigger>;

pub type LineColorGroupBuilder = TriggerGroupBuilder<LineColorEvent, FrameBoundsTrigger>;

/// The camera-zoom timeline of current-style file versions.
pub type CameraZoomGroup = TriggerGroup<CameraZoomEvent, FrameBoundsTrigger>;

pub type CameraZoomGroupBuilder = TriggerGroupBuilder<CameraZoomEvent, FrameBoundsTrigger>;

/// The camera-zoom timeline of legacy file versions, whose only
/// supported condition is a line hit.
pub type LegacyCameraZoomGroup = TriggerGroup<CameraZoomEvent, LineHitTrigger>;

pub type LegacyCameraZoomGroupBuilder = TriggerGroupBuilder<CameraZoomEvent, LineHitTrigger>;

} // verus!
