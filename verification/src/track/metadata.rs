//! Track metadata and its builder.

use crate::track::rgb_color::RGBColor;
use crate::util::{clone_opt_string, clone_string};
use crate::track::vec2::{Scalar, Vec2};
use vstd::prelude::*;

verus! {

/// The track-format revision tag recorded in metadata, distinct from the
/// binary container's format version byte.
#[derive(Clone, Copy, Debug, PartialEq, Eq, Structural)]
pub enum GridVersion {
    V6_0,
    V6_1,
    V6_2,
}

/// The bit pattern of the scalar one (the multiplicative identity), the
/// default zoom level.
pub const SCALAR_ONE_BITS: u64 = 0x3FF0000000000000;

/// The view of an optional string: its characters, if present.
pub open spec fn view_opt_string(s: Option<String>) -> Option<Seq<char>> {
    match s {
        Some(v) => Some(v@),
        None => None,
    }
}

/// Abstract value of a [`Metadata`] or [`MetadataBuilder`]: both carry
/// the same fields, every one of which has a default.
pub struct MetadataV {
    pub title: Seq<char>,
    pub artist: Option<Seq<char>>,
    pub description: Option<Seq<char>>,
    pub script: Option<Seq<char>>,
    pub grid_version: GridVersion,
    pub start_position: Vec2,
    pub start_gravity: Vec2,
    pub start_zoom: Scalar,
    pub start_line_color: RGBColor,
    pub start_background_color: RGBColor,
    pub duration: Option<u32>,
    pub gravity_well_size: Option<Scalar>,
    pub zero_velocity_start_riders: bool,
}

impl MetadataV {
    /// The state of a freshly created builder: empty title, no optional
    /// strings, the newest grid version, origin position, downward unit
    /// gravity, unit zoom, black lines on the pale default background.
    pub open spec fn initial() -> MetadataV {
        MetadataV {
            title: Seq::empty(),
            artist: None,
            description: None,
            script: None,
            grid_version: GridVersion::V6_2,
            start_position: Vec2 { x: Scalar { bits: 0 }, y: Scalar { bits: 0 } },
            start_gravity: Vec2 { x: Scalar { bits: 0 }, y: Scalar { bits: SCALAR_ONE_BITS } },
            start_zoom: Scalar { bits: SCALAR_ONE_BITS },
            start_line_color: RGBColor { red: 0, green: 0, blue: 0 },
            start_background_color: RGBColor { red: 244, green: 245, blue: 249 },
            duration: None,
            gravity_well_size: None,
            zero_velocity_start_riders: false,
        }
    }
}

/// A track's descriptive and simulation-start settings; immutable after
/// construction.
#[derive(Clone, Debug, PartialEq)]
pub struct Metadata {
    pub title: String,
    pub artist: Option<String>,
    pub description: Option<String>,
    pub script: Option<String>,
    pub grid_version: GridVersion,
    pub start_position: Vec2,
    pub start_gravity: Vec2,
    pub start_zoom: Scalar,
    pub start_line_color: RGBColor,
    pub start_background_color: RGBColor,
    pub duration: Option<u32>,
    pub gravity_well_size: Option<Scalar>,
    pub zero_velocity_start_riders: bool,
}

impl View for Metadata {
    type V = MetadataV;

    open spec fn view(&self) -> MetadataV {
        MetadataV {
            title: self.title@,
            artist: view_opt_string(self.artist),
            description: view_opt_string(self.description),
            script: view_opt_string(self.script),
            grid_version: self.grid_version,
            start_position: self.start_position,
            start_gravity: self.start_gravity,
            start_zoom: self.start_zoom,
            start_line_color: self.start_line_color,
            start_background_color: self.start_background_color,
            duration: self.duration,
            gravity_well_size: self.gravity_well_size,
            zero_velocity_start_riders: self.zero_velocity_start_riders,
        }
    }
}

/// Incremental builder for [`Metadata`].  Every field has a default, so
/// finalization never fails.
#[derive(Clone, Debug, PartialEq)]
pub struct MetadataBuilder {
    pub title: String,
    pub artist: Option<String>,
    pub description: Option<String>,
    pub script: Option<String>,
    pub grid_version: GridVersion,
    pub start_position: Vec2,
    pub start_gravity: Vec2,
    pub start_zoom: Scalar,
    pub start_line_color: RGBColor,
    pub start_background_color: RGBColor,
    pub duration: Option<u32>,
    pub gravity_well_size: Option<Scalar>,
    pub zero_velocity_start_riders: bool,
}

impl View for MetadataBuilder {
    type V = MetadataV;

    open spec fn view(&self) -> MetadataV {
        MetadataV {
            title: self.title@,
            artist: view_opt_string(self.artist),
            description: view_opt_string(self.description),
            script: view_opt_string(self.script),
            grid_version: self.grid_version,
            start_position: self.start_position,
            start_gravity: self.start_gravity,
            start_zoom: self.start_zoom,
            start_line_color: self.start_line_color,
            start_background_color: self.start_background_color,
            duration: self.duration,
            gravity_well_size: self.gravity_well_size,
            zero_velocity_start_riders: self.zero_velocity_start_riders,
        }
    }
}

impl Default for MetadataBuilder {
    fn default() -> (r: Self)
        ensures
            r@ == MetadataV::initial(),
    {
        MetadataBuilder {
            title: String::new(),
            artist: None,
            description: None,
            script: None,
            grid_version: GridVersion::V6_2,
            start_position: Vec2 { x: Scalar { bits: 0 }, y: Scalar { bits: 0 } },
            start_gravity: Vec2 { x: Scalar { bits: 0 }, y: Scalar { bits: SCALAR_ONE_BITS } },
            start_zoom: Scalar { bits: SCALAR_ONE_BITS },
            start_line_color: RGBColor { red: 0, green: 0, blue: 0 },
            start_background_color: RGBColor { red: 244, green: 245, blue: 249 },
            duration: None,
            gravity_well_size: None,
            zero_velocity_start_riders: false,
        }
    }
}

impl MetadataBuilder {
    pub fn new() -> (r: Self)
        ensures
            r@ == MetadataV::initial(),
    {
        Self::default()
    }

    pub fn title(&mut self, title: String)
        ensures
            final(self)@ == (MetadataV { title: title@, ..old(self)@ }),
    {
        self.title = title;
    }

    pub fn artist(&mut self, artist: String)
        ensures
            final(self)@ == (MetadataV { artist: Some(artist@), ..old(self)@ }),
    {
        self.artist = Some(artist);
    }

    pub fn description(&mut self, description: String)
        ensures
            final(self)@ == (MetadataV { description: Some(description@), ..old(self)@ }),
    {
        self.description = Some(description);
    }

    pub fn script(&mut self, script: String)
        ensures
            final(self)@ == (MetadataV { script: Some(script@), ..old(self)@ }),
    {
        self.script = Some(script);
    }

    pub fn grid_version(&mut self, grid_version: GridVersion)
        ensures
            final(self)@ == (MetadataV { grid_version, ..old(self)@ }),
    {
        self.grid_version = grid_version;
    }

    pub fn start_position(&mut self, start_position: Vec2)
        ensures
            final(self)@ == (MetadataV { start_position, ..old(self)@ }),
    {
        self.start_position = start_position;
    }

    pub fn start_gravity(&mut self, start_gravity: Vec2)
        ensures
            final(self)@ == (MetadataV { start_gravity, ..old(self)@ }),
    {
        self.start_gravity = start_gravity;
    }

    pub fn start_zoom(&mut self, start_zoom: Scalar)
        ensures
            final(self)@ == (MetadataV { start_zoom, ..old(self)@ }),
    {
        self.start_zoom = start_zoom;
    }

    pub fn start_line_color(&mut self, start_line_color: RGBColor)
        ensures
            final(self)@ == (MetadataV { start_line_color, ..old(self)@ }),
    {
        self.start_line_color = start_line_color;
    }

    pub fn start_background_color(&mut self, start_background_color: RGBColor)
        ensures
            final(self)@ == (MetadataV { start_background_color, ..old(self)@ }),
    {
        self.start_background_color = start_background_color;
    }

    pub fn duration(&mut self, duration: u32)
        ensures
            final(self)@ == (MetadataV { duration: Some(duration), ..old(self)@ }),
    {
        self.duration = Some(duration);
    }

    pub fn gravity_well_size(&mut self, gravity_well_size: Scalar)
        ensures
            final(self)@ == (MetadataV { gravity_well_size: Some(gravity_well_size), ..old(self)@ }),
    {
        self.gravity_well_size = Some(gravity_well_size);
    }

    pub fn zero_velocity_start_riders(&mut self, zero_velocity_start_riders: bool)
        ensures
            final(self)@ == (MetadataV { zero_velocity_start_riders, ..old(self)@ }),
    {
        self.zero_velocity_start_riders = zero_velocity_start_riders;
    }

    /// Finalizes the metadata; every field has a default, so this
    /// always succeeds and denotes exactly the accumulated state.
    pub fn build(&self) -> (r: Metadata)
        ensures
            r@ == self@,
    {
        Metadata {
            title: clone_string(&self.title),
            artist: clone_opt_string(&self.artist),
            description: clone_opt_string(&self.description),
            script: clone_opt_string(&self.script),
            grid_version: self.grid_version,
            start_position: self.start_position,
            start_gravity: self.start_gravity,
            start_zoom: self.start_zoom,
            start_line_color: self.start_line_color,
            start_background_color: self.start_background_color,
            duration: self.duration,
            gravity_well_size: self.gravity_well_size,
            zero_velocity_start_riders: self.zero_velocity_start_riders,
        }
    }
}

} // verus!
