//! Feature-flag bookkeeping and optional-field validation shared by every
//! aggregate builder.
//!
//! Each aggregate owns a set of capability flags.  An optional,
//! feature-gated field must be present if and only if its owning flag is
//! set; [`check_feature`] enforces that agreement at finalization time and
//! [`require_feature`] guards access to a gated field before then.

use vstd::prelude::*;
use vstd::string::StringExecFns;

verus! {

/// A capability flag of one aggregate: a small copyable enum that can
/// decide equality with itself and name itself for diagnostics.
pub trait Feature: Sized + Copy {
    /// The flag's name.
    spec fn spec_label(&self) -> Seq<char>;

    /// Executable equality agreeing with structural equality.
    fn same(&self, other: &Self) -> (r: bool)
        ensures
            r <==> (*self == *other),
    ;

    /// Executable witness of [`Feature::spec_label`].
    fn label(&self) -> (r: &'static str)
        ensures
            r@ == self.spec_label(),
    ;
}

/// The set of capability flags an aggregate has declared.
///
/// Its abstract value is the set of flags it holds; insertion is
/// idempotent.
#[derive(Debug)]
pub struct FeatureSet<F> {
    items: Vec<F>,
}

impl<F: Feature> View for FeatureSet<F> {
    type V = Set<F>;

    closed spec fn view(&self) -> Set<F> {
        self.items@.to_set()
    }
}

impl<F: Feature> FeatureSet<F> {
    pub fn new() -> (s: Self)
        ensures
            s@ == Set::<F>::empty(),
    {
        let s = FeatureSet { items: Vec::new() };
        proof {
            assert(s@ =~= Set::<F>::empty());
        }
        s
    }

    /// Whether `f` has been declared.
    pub fn has(&self, f: F) -> (r: bool)
        ensures
            r == self@.contains(f),
    {
        let n = self.items.len();
        let mut i: usize = 0;
        while i < n
            invariant
                i <= n,
                n == self.items@.len(),
                forall|j: int| 0 <= j < i ==> self.items@[j] != f,
            decreases n - i,
        {
            if self.items[i].same(&f) {
                proof {
                    assert(self.items@.contains(f));
                }
                return true;
            }
            i = i + 1;
        }
        proof {
            assert(!self.items@.contains(f));
        }
        false
    }

    /// Declares `f`; declaring it again changes nothing.
    pub fn insert(&mut self, f: F)
        ensures
            final(self)@ == old(self)@.insert(f),
    {
        if !self.has(f) {
            self.items.push(f);
            proof {
                assert(self.items@ == old(self).items@.push(f));
                assert forall|g: F| self@.contains(g) <==> old(self)@.insert(f).contains(
                    g,
                ) by {
                    if self.items@.contains(g) {
                        let k = choose|k: int|
                            0 <= k < self.items@.len() && self.items@[k] == g;
                        if k < old(self).items@.len() {
                            assert(old(self).items@.contains(g));
                        }
                    }
                    if old(self).items@.contains(g) {
                        let k = choose|k: int|
                            0 <= k < old(self).items@.len() && old(self).items@[k] == g;
                        assert(self.items@[k] == g);
                    }
                    if g == f {
                        assert(self.items@[self.items@.len() - 1] == f);
                    }
                }
                assert(self@ =~= old(self)@.insert(f));
            }
        } else {
            proof {
                assert(self@ =~= old(self)@.insert(f));
            }
        }
    }

    /// A copy holding the same flags.
    pub fn duplicate(&self) -> (r: Self)
        ensures
            r@ == self@,
    {
        let n = self.items.len();
        let mut items: Vec<F> = Vec::new();
        let mut i: usize = 0;
        while i < n
            invariant
                i <= n,
                n == self.items@.len(),
                items@ == self.items@.take(i as int),
            decreases n - i,
        {
            items.push(self.items[i]);
            proof {
                assert(items@ =~= self.items@.take(i as int + 1));
            }
            i = i + 1;
        }
        proof {
            assert(items@ =~= self.items@);
        }
        let r = FeatureSet { items };
        r
    }
}

/// A builder error of one aggregate: the feature/attribute disagreements,
/// or a wrapped failure of one of its sub-builders.
#[derive(Debug)]
pub enum GroupBuilderError<F, S> {
    /// A flag was required (because its attribute is set) but missing.
    MissingFeatureFlag(F),
    /// An attribute was required (because its flag is set) but missing.
    MissingAttribute(&'static str),
    /// A sub-builder failed; the cause is kept.
    SubBuilderError(S),
}

/// The diagnostic text of a builder error; a wrapped sub-builder
/// failure keeps its own description and is only marked here.
pub open spec fn spec_message<F: Feature, S>(e: GroupBuilderError<F, S>) -> Seq<char> {
    match e {
        GroupBuilderError::MissingFeatureFlag(f) => "Expected feature to be registered: "@
            + f.spec_label(),
        GroupBuilderError::MissingAttribute(a) => "Expected attribute to be set: "@ + a@,
        GroupBuilderError::SubBuilderError(_) => "Sub-builder failed"@,
    }
}

impl<F: Feature, S> GroupBuilderError<F, S> {
    /// Renders the error for diagnostics.
    pub fn message(&self) -> (r: String)
        ensures
            r@ == spec_message(*self),
    {
        match self {
            GroupBuilderError::MissingFeatureFlag(f) => {
                let mut s = ("Expected feature to be registered: ").to_owned();
                s.append(f.label());
                s
            },
            GroupBuilderError::MissingAttribute(a) => {
                let mut s = ("Expected attribute to be set: ").to_owned();
                s.append(a);
                s
            },
            GroupBuilderError::SubBuilderError(_) => ("Sub-builder failed").to_owned(),
        }
    }
}

/// The outcome [`check_feature`] returns: agreement succeeds; a set flag
/// with an absent attribute is `MissingAttribute`; a present attribute
/// with an unset flag is `MissingFeatureFlag`.
pub open spec fn spec_check_feature<F, S>(
    features: Set<F>,
    feature: F,
    present: bool,
    attr_name: &'static str,
) -> Result<(), GroupBuilderError<F, S>> {
    if features.contains(feature) && !present {
        Err(GroupBuilderError::MissingAttribute(attr_name))
    } else if !features.contains(feature) && present {
        Err(GroupBuilderError::MissingFeatureFlag(feature))
    } else {
        Ok(())
    }
}

/// Validates that `field` is present if and only if `feature` is
/// declared.
pub fn check_feature<F: Feature, S, T>(
    features: &FeatureSet<F>,
    feature: F,
    field: &Option<T>,
    attr_name: &'static str,
) -> (r: Result<(), GroupBuilderError<F, S>>)
    ensures
        r == spec_check_feature::<F, S>(features@, feature, field is Some, attr_name),
{
    let present = field.is_some();
    if features.has(feature) && !present {
        Err(GroupBuilderError::MissingAttribute(attr_name))
    } else if !features.has(feature) && present {
        Err(GroupBuilderError::MissingFeatureFlag(feature))
    } else {
        Ok(())
    }
}

/// Feature/attribute agreement, stated once for every aggregate: a
/// declared flag with an omitted attribute fails with
/// `MissingAttribute`; a supplied attribute with an undeclared flag fails
/// with `MissingFeatureFlag`; agreement (both, or neither) succeeds.
pub proof fn lemma_check_feature_agreement<F, S>(
    features: Set<F>,
    feature: F,
    present: bool,
    attr_name: &'static str,
)
    ensures
        spec_check_feature::<F, S>(features, feature, present, attr_name) is Ok <==> (
        features.contains(feature) <==> present),
        features.contains(feature) && !present ==> spec_check_feature::<F, S>(
            features,
            feature,
            present,
            attr_name,
        ) == Err::<(), GroupBuilderError<F, S>>(GroupBuilderError::MissingAttribute(attr_name)),
        present && !features.contains(feature) ==> spec_check_feature::<F, S>(
            features,
            feature,
            present,
            attr_name,
        ) == Err::<(), GroupBuilderError<F, S>>(GroupBuilderError::MissingFeatureFlag(feature)),
{
}

/// Grants mutable access to a gated field, failing with
/// `MissingFeatureFlag` when its flag was never declared.
///
/// Enabling a flag initializes the field it owns, so a declared flag
/// whose field is absent is a breach of the builder's own invariant, not
/// an input error; that state is excluded here.
pub fn require_feature<'a, F: Feature, S, T>(
    features: &FeatureSet<F>,
    feature: F,
    field: &'a mut Option<T>,
) -> (r: Result<&'a mut T, GroupBuilderError<F, S>>)
    requires
        features@.contains(feature) ==> (*old(field)) is Some,
    ensures
        r is Ok <==> features@.contains(feature),
        r matches Err(e) ==> *final(field) == *old(field) && e
            == GroupBuilderError::<F, S>::MissingFeatureFlag(feature),
        r matches Ok(v) ==> *v == (*old(field))->0 && *final(field) == Some(*final(v)),
{
    if !features.has(feature) {
        return Err(GroupBuilderError::MissingFeatureFlag(feature));
    }
    match field {
        Some(v) => Ok(v),
        None => unreached(),
    }
}

} // verus!
