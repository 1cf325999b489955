//! The warning produced for an unsupported-but-optional container mod.

use crate::util::clone_string;
use vstd::prelude::*;

verus! {

/// An unsupported optional mod that was skipped: its identity and which
/// aspects of interpretation it may affect, derived from its flag bits.
#[derive(Clone, Debug, PartialEq)]
pub struct UnsupportedModWarning {
    name: String,
    version: u16,
    affects_physics: bool,
    affects_camera: bool,
    affects_scenery: bool,
}

/// Abstract value of an [`UnsupportedModWarning`].
pub struct UnsupportedModWarningV {
    pub name: Seq<char>,
    pub version: u16,
    pub affects_physics: bool,
    pub affects_camera: bool,
    pub affects_scenery: bool,
}

impl View for UnsupportedModWarning {
    type V = UnsupportedModWarningV;

    closed spec fn view(&self) -> UnsupportedModWarningV {
        UnsupportedModWarningV {
            name: self.name@,
            version: self.version,
            affects_physics: self.affects_physics,
            affects_camera: self.affects_camera,
            affects_scenery: self.affects_scenery,
        }
    }
}

impl UnsupportedModWarning {
    /// A warning for the mod of this name and version, affecting
    /// nothing until the flag bits say otherwise.
    pub fn new(name: String, version: u16) -> (r: Self)
        ensures
            r@ == (UnsupportedModWarningV {
                name: name@,
                version,
                affects_physics: false,
                affects_camera: false,
                affects_scenery: false,
            }),
    {
        UnsupportedModWarning {
            name,
            version,
            affects_physics: false,
            affects_camera: false,
            affects_scenery: false,
        }
    }

    /// Records that the mod affects physics interpretation.
    pub fn physics(&mut self)
        ensures
            final(self)@ == (UnsupportedModWarningV { affects_physics: true, ..old(self)@ }),
    {
        self.affects_physics = true;
    }

    /// Records that the mod affects camera interpretation.
    pub fn camera(&mut self)
        ensures
            final(self)@ == (UnsupportedModWarningV { affects_camera: true, ..old(self)@ }),
    {
        self.affects_camera = true;
    }

    /// Records that the mod affects scenery interpretation.
    pub fn scenery(&mut self)
        ensures
            final(self)@ == (UnsupportedModWarningV { affects_scenery: true, ..old(self)@ }),
    {
        self.affects_scenery = true;
    }

    pub fn name(&self) -> (r: String)
        ensures
            r@ == self@.name,
    {
        clone_string(&self.name)
    }

    pub fn version(&self) -> (r: u16)
        ensures
            r == self@.version,
    {
        self.version
    }

    pub fn affects_physics(&self) -> (r: bool)
        ensures
            r == self@.affects_physics,
    {
        self.affects_physics
    }

    pub fn affects_camera(&self) -> (r: bool)
        ensures
            r == self@.affects_camera,
    {
        self.affects_camera
    }

    pub fn affects_scenery(&self) -> (r: bool)
        ensures
            r == self@.affects_scenery,
    {
        self.affects_scenery
    }
}

/// A warning the decode surfaces without failing.
#[derive(Clone, Debug, PartialEq)]
pub enum LrbReadWarning {
    UnsupportedMod(UnsupportedModWarning),
}

/// Abstract value of a [`LrbReadWarning`].
pub enum LrbReadWarningV {
    UnsupportedMod(UnsupportedModWarningV),
}

impl View for LrbReadWarning {
    type V = LrbReadWarningV;

    open spec fn view(&self) -> LrbReadWarningV {
        match self {
            LrbReadWarning::UnsupportedMod(w) => LrbReadWarningV::UnsupportedMod(w@),
        }
    }
}

} // verus!
