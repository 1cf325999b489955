//! Layer and layer-folder leaf entities and the layer group aggregate.

use crate::track::group_builder::{
    check_feature, require_feature, spec_check_feature, Feature, FeatureSet, GroupBuilderError,
};
use crate::util::clone_opt_string;
use vstd::prelude::*;

verus! {

/// Capability flags of the layer group.  `Folders` gates both the
/// existence of the folder collection and the `folder_id` attribute on
/// plain layers.
#[derive(Clone, Copy, Debug, PartialEq, Eq, Structural)]
pub enum LayerFeature {
    Name,
    Visible,
    Editable,
    Folders,
}

impl Feature for LayerFeature {
    open spec fn spec_label(&self) -> Seq<char> {
        match *self {
            LayerFeature::Name => "Name"@,
            LayerFeature::Visible => "Visible"@,
            LayerFeature::Editable => "Editable"@,
            LayerFeature::Folders => "Folders"@,
        }
    }

    fn same(&self, other: &Self) -> (r: bool) {
        *self == *other
    }

    fn label(&self) -> (r: &'static str) {
        match *self {
            LayerFeature::Name => "Name",
            LayerFeature::Visible => "Visible",
            LayerFeature::Editable => "Editable",
            LayerFeature::Folders => "Folders",
        }
    }
}

/// A plain layer.  `folder_id` distinguishes "unset" from "explicitly no
/// parent": `Some(None)` is a layer placed outside every folder.
#[derive(Clone, Debug, PartialEq, Eq)]
pub struct Layer {
    pub id: u32,
    pub index: usize,
    pub name: Option<String>,
    pub visible: Option<bool>,
    pub editable: Option<bool>,
    pub folder_id: Option<Option<u32>>,
}

/// A folder grouping plain layers.
#[derive(Clone, Debug, PartialEq, Eq)]
pub struct LayerFolder {
    pub id: u32,
    pub index: usize,
    pub name: Option<String>,
    pub visible: Option<bool>,
    pub editable: Option<bool>,
    pub size: Option<u32>,
}

#[derive(Clone, Copy, Debug, PartialEq, Eq)]
pub enum LayerBuilderError {
    UninitializedField(&'static str),
}

#[derive(Clone, Copy, Debug, PartialEq, Eq)]
pub enum LayerFolderBuilderError {
    UninitializedField(&'static str),
}

/// Incremental builder for [`Layer`].
#[derive(Clone, Debug, PartialEq, Eq, Default)]
pub struct LayerBuilder {
    pub id: Option<u32>,
    pub index: Option<usize>,
    pub name: Option<String>,
    pub visible: Option<bool>,
    pub editable: Option<bool>,
    pub folder_id: Option<Option<u32>>,
}

impl LayerBuilder {
    /// The layer this state denotes: id and index are mandatory, the
    /// rest stays as supplied.
    pub open spec fn spec_build(self) -> Result<Layer, LayerBuilderError> {
        if self.id is None {
            Err(LayerBuilderError::UninitializedField("id"))
        } else if self.index is None {
            Err(LayerBuilderError::UninitializedField("index"))
        } else {
            Ok(
                Layer {
                    id: self.id->0,
                    index: self.index->0,
                    name: self.name,
                    visible: self.visible,
                    editable: self.editable,
                    folder_id: self.folder_id,
                },
            )
        }
    }

    pub fn index(&mut self, index: usize)
        ensures
            *final(self) == (LayerBuilder { index: Some(index), ..*old(self) }),
    {
        self.index = Some(index);
    }

    /// Supplies the gated name attribute.
    pub fn name(&mut self, name: String)
        ensures
            *final(self) == (LayerBuilder { name: Some(name), ..*old(self) }),
    {
        self.name = Some(name);
    }

    /// Supplies the gated visibility attribute.
    pub fn visible(&mut self, visible: bool)
        ensures
            *final(self) == (LayerBuilder { visible: Some(visible), ..*old(self) }),
    {
        self.visible = Some(visible);
    }

    /// Supplies the gated editability attribute.
    pub fn editable(&mut self, editable: bool)
        ensures
            *final(self) == (LayerBuilder { editable: Some(editable), ..*old(self) }),
    {
        self.editable = Some(editable);
    }

    /// Supplies the gated parent-folder attribute; `None` records an
    /// explicit "no parent".
    pub fn folder_id(&mut self, folder_id: Option<u32>)
        ensures
            *final(self) == (LayerBuilder { folder_id: Some(folder_id), ..*old(self) }),
    {
        self.folder_id = Some(folder_id);
    }

    pub fn build(&self) -> (r: Result<Layer, LayerBuilderError>)
        ensures
            r == self.spec_build(),
    {
        match (self.id, self.index) {
            (Some(id), Some(index)) => Ok(
                Layer {
                    id,
                    index,
                    name: clone_opt_string(&self.name),
                    visible: self.visible,
                    editable: self.editable,
                    folder_id: self.folder_id,
                },
            ),
            _ => {
                if self.id.is_none() {
                    Err(LayerBuilderError::UninitializedField("id"))
                } else {
                    Err(LayerBuilderError::UninitializedField("index"))
                }
            },
        }
    }
}

/// Incremental builder for [`LayerFolder`].
#[derive(Clone, Debug, PartialEq, Eq, Default)]
pub struct LayerFolderBuilder {
    pub id: Option<u32>,
    pub index: Option<usize>,
    pub name: Option<String>,
    pub visible: Option<bool>,
    pub editable: Option<bool>,
    pub size: Option<u32>,
}

impl LayerFolderBuilder {
    /// The folder this state denotes: id and index are mandatory, the
    /// rest stays as supplied.
    pub open spec fn spec_build(self) -> Result<LayerFolder, LayerFolderBuilderError> {
        if self.id is None {
            Err(LayerFolderBuilderError::UninitializedField("id"))
        } else if self.index is None {
            Err(LayerFolderBuilderError::UninitializedField("index"))
        } else {
            Ok(
                LayerFolder {
                    id: self.id->0,
                    index: self.index->0,
                    name: self.name,
                    visible: self.visible,
                    editable: self.editable,
                    size: self.size,
                },
            )
        }
    }

    pub fn index(&mut self, index: usize)
        ensures
            *final(self) == (LayerFolderBuilder { index: Some(index), ..*old(self) }),
    {
        self.index = Some(index);
    }

    /// Supplies the gated name attribute.
    pub fn name(&mut self, name: String)
        ensures
            *final(self) == (LayerFolderBuilder { name: Some(name), ..*old(self) }),
    {
        self.name = Some(name);
    }

    /// Supplies the gated visibility attribute.
    pub fn visible(&mut self, visible: bool)
        ensures
            *final(self) == (LayerFolderBuilder { visible: Some(visible), ..*old(self) }),
    {
        self.visible = Some(visible);
    }

    /// Supplies the gated editability attribute.
    pub fn editable(&mut self, editable: bool)
        ensures
            *final(self) == (LayerFolderBuilder { editable: Some(editable), ..*old(self) }),
    {
        self.editable = Some(editable);
    }

    /// Supplies the folder's size (child count or geometry extent).
    pub fn size(&mut self, size: u32)
        ensures
            *final(self) == (LayerFolderBuilder { size: Some(size), ..*old(self) }),
    {
        self.size = Some(size);
    }

    pub fn build(&self) -> (r: Result<LayerFolder, LayerFolderBuilderError>)
        ensures
            r == self.spec_build(),
    {
        match (self.id, self.index) {
            (Some(id), Some(index)) => Ok(
                LayerFolder {
                    id,
                    index,
                    name: clone_opt_string(&self.name),
                    visible: self.visible,
                    editable: self.editable,
                    size: self.size,
                },
            ),
            _ => {
                if self.id.is_none() {
                    Err(LayerFolderBuilderError::UninitializedField("id"))
                } else {
                    Err(LayerFolderBuilderError::UninitializedField("index"))
                }
            },
        }
    }
}

/// A failure of one of the layer group's leaf builders.
#[derive(Clone, Copy, Debug, PartialEq, Eq)]
pub enum LayerSubBuilderError {
    Layer(LayerBuilderError),
    LayerFolder(LayerFolderBuilderError),
}

pub type LayerGroupBuilderError = GroupBuilderError<LayerFeature, LayerSubBuilderError>;

/// The finished, immutable collection of a track's layers.
#[derive(Debug)]
pub struct LayerGroup {
    features: FeatureSet<LayerFeature>,
    layers: Vec<Layer>,
    layer_folders: Option<Vec<LayerFolder>>,
}

/// Abstract value of a [`LayerGroup`].
pub struct LayerGroupV {
    pub features: Set<LayerFeature>,
    pub layers: Seq<Layer>,
    pub layer_folders: Option<Seq<LayerFolder>>,
}

impl View for LayerGroup {
    type V = LayerGroupV;

    closed spec fn view(&self) -> LayerGroupV {
        LayerGroupV {
            features: self.features@,
            layers: self.layers@,
            layer_folders: match self.layer_folders {
                Some(fs) => Some(fs@),
                None => None,
            },
        }
    }
}

impl LayerGroup {
    pub fn features(&self) -> (r: &FeatureSet<LayerFeature>)
        ensures
            r@ == self@.features,
    {
        &self.features
    }

    pub fn layers(&self) -> (r: &Vec<Layer>)
        ensures
            r@ == self@.layers,
    {
        &self.layers
    }

    pub fn layer_folders(&self) -> (r: &Option<Vec<LayerFolder>>)
        ensures
            (*r) is Some <==> self@.layer_folders is Some,
            r matches Some(fs) ==> self@.layer_folders == Some(fs@),
    {
        &self.layer_folders
    }
}

/// Assembles a [`LayerGroup`] incrementally.
#[derive(Debug)]
pub struct LayerGroupBuilder {
    features: FeatureSet<LayerFeature>,
    layers: Vec<LayerBuilder>,
    layer_folders: Option<Vec<LayerFolderBuilder>>,
}

/// Abstract state of a [`LayerGroupBuilder`].
pub struct LayerGroupBuilderV {
    pub features: Set<LayerFeature>,
    pub layers: Seq<LayerBuilder>,
    pub layer_folders: Option<Seq<LayerFolderBuilder>>,
}

impl View for LayerGroupBuilder {
    type V = LayerGroupBuilderV;

    closed spec fn view(&self) -> LayerGroupBuilderV {
        LayerGroupBuilderV {
            features: self.features@,
            layers: self.layers@,
            layer_folders: match self.layer_folders {
                Some(fs) => Some(fs@),
                None => None,
            },
        }
    }
}

impl LayerGroupBuilderV {
    pub open spec fn empty() -> LayerGroupBuilderV {
        LayerGroupBuilderV {
            features: Set::empty(),
            layers: Seq::empty(),
            layer_folders: None,
        }
    }

    /// Enabling a flag initializes the collection it owns, so a declared
    /// `Folders` flag always finds its collection present.
    pub open spec fn wf(self) -> bool {
        self.features.contains(LayerFeature::Folders) ==> self.layer_folders is Some
    }

    /// The state after declaring `feature`: the flag is inserted, and
    /// the folder collection is initialized (empty) when `Folders` first
    /// arrives.
    pub open spec fn with_feature(self, feature: LayerFeature) -> LayerGroupBuilderV {
        LayerGroupBuilderV {
            features: self.features.insert(feature),
            layers: self.layers,
            layer_folders: if feature == LayerFeature::Folders && self.layer_folders is None {
                Some(Seq::empty())
            } else {
                self.layer_folders
            },
        }
    }
}

/// The layers this state denotes: each leaf must finish and each gated
/// attribute must agree with the declared flags.
pub open spec fn spec_build_layers(features: Set<LayerFeature>, bs: Seq<LayerBuilder>) -> Result<
    Seq<Layer>,
    LayerGroupBuilderError,
>
    decreases bs.len(),
{
    if bs.len() == 0 {
        Ok(Seq::empty())
    } else {
        match bs[0].spec_build() {
            Err(e) => Err(GroupBuilderError::SubBuilderError(LayerSubBuilderError::Layer(e))),
            Ok(layer) => match spec_check_feature::<LayerFeature, LayerSubBuilderError>(
                features,
                LayerFeature::Name,
                layer.name is Some,
                "name",
            ) {
                Err(e) => Err(e),
                Ok(_) => match spec_check_feature::<LayerFeature, LayerSubBuilderError>(
                    features,
                    LayerFeature::Visible,
                    layer.visible is Some,
                    "visible",
                ) {
                    Err(e) => Err(e),
                    Ok(_) => match spec_check_feature::<LayerFeature, LayerSubBuilderError>(
                        features,
                        LayerFeature::Editable,
                        layer.editable is Some,
                        "editable",
                    ) {
                        Err(e) => Err(e),
                        Ok(_) => match spec_check_feature::<LayerFeature, LayerSubBuilderError>(
                            features,
                            LayerFeature::Folders,
                            layer.folder_id is Some,
                            "folder_id",
                        ) {
                            Err(e) => Err(e),
                            Ok(_) => match spec_build_layers(features, bs.drop_first()) {
                                Err(e) => Err(e),
                                Ok(rest) => Ok(seq![layer] + rest),
                            },
                        },
                    },
                },
            },
        }
    }
}

/// The folders this state denotes: each leaf must finish and each gated
/// attribute must agree with the declared flags.
pub open spec fn spec_build_layer_folders(
    features: Set<LayerFeature>,
    bs: Seq<LayerFolderBuilder>,
) -> Result<Seq<LayerFolder>, LayerGroupBuilderError>
    decreases bs.len(),
{
    if bs.len() == 0 {
        Ok(Seq::empty())
    } else {
        match bs[0].spec_build() {
            Err(e) => Err(
                GroupBuilderError::SubBuilderError(LayerSubBuilderError::LayerFolder(e)),
            ),
            Ok(folder) => match spec_check_feature::<LayerFeature, LayerSubBuilderError>(
                features,
                LayerFeature::Name,
                folder.name is Some,
                "name",
            ) {
                Err(e) => Err(e),
                Ok(_) => match spec_check_feature::<LayerFeature, LayerSubBuilderError>(
                    features,
                    LayerFeature::Visible,
                    folder.visible is Some,
                    "visible",
                ) {
                    Err(e) => Err(e),
                    Ok(_) => match spec_check_feature::<LayerFeature, LayerSubBuilderError>(
                        features,
                        LayerFeature::Editable,
                        folder.editable is Some,
                        "editable",
                    ) {
                        Err(e) => Err(e),
                        Ok(_) => match spec_build_layer_folders(features, bs.drop_first()) {
                            Err(e) => Err(e),
                            Ok(rest) => Ok(seq![folder] + rest),
                        },
                    },
                },
            },
        }
    }
}

/// The group this builder state denotes: the layers first, then the
/// folder collection's own agreement with `Folders`, then the folders.
pub open spec fn spec_build_layer_group(bv: LayerGroupBuilderV) -> Result<
    LayerGroupV,
    LayerGroupBuilderError,
> {
    match spec_build_layers(bv.features, bv.layers) {
        Err(e) => Err(e),
        Ok(layers) => match spec_check_feature::<LayerFeature, LayerSubBuilderError>(
            bv.features,
            LayerFeature::Folders,
            bv.layer_folders is Some,
            "layer_folders",
        ) {
            Err(e) => Err(e),
            Ok(_) => match bv.layer_folders {
                None => Ok(LayerGroupV { features: bv.features, layers, layer_folders: None }),
                Some(folder_builders) => match spec_build_layer_folders(
                    bv.features,
                    folder_builders,
                ) {
                    Err(e) => Err(e),
                    Ok(folders) => Ok(
                        LayerGroupV {
                            features: bv.features,
                            layers,
                            layer_folders: Some(folders),
                        },
                    ),
                },
            },
        },
    }
}

impl Default for LayerGroupBuilder {
    fn default() -> (r: Self)
        ensures
            r@ == LayerGroupBuilderV::empty(),
            r@.wf(),
    {
        LayerGroupBuilder { features: FeatureSet::new(), layers: Vec::new(), layer_folders: None }
    }
}

impl LayerGroupBuilder {
    pub fn new() -> (r: Self)
        ensures
            r@ == LayerGroupBuilderV::empty(),
            r@.wf(),
    {
        Self::default()
    }

    /// Declares a capability flag; `Folders` also initializes the folder
    /// collection so later appends never find it absent.
    pub fn enable_feature(&mut self, feature: LayerFeature)
        ensures
            final(self)@ == old(self)@.with_feature(feature),
            old(self)@.wf() ==> final(self)@.wf(),
    {
        if matches!(feature, LayerFeature::Folders) && self.layer_folders.is_none() {
            self.layer_folders = Some(Vec::new());
        }
        self.features.insert(feature);
        proof {
            assert(final(self)@.layer_folders == old(self)@.with_feature(feature).layer_folders);
        }
    }

    /// Appends a layer builder carrying its mandatory id and index, and
    /// hands it back for further population.
    pub fn add_layer(&mut self, id: u32, index: usize) -> (r: Result<
        &mut LayerBuilder,
        LayerGroupBuilderError,
    >)
        ensures
            r is Ok,
            r matches Ok(b) ==> *b == (LayerBuilder {
                id: Some(id),
                index: Some(index),
                name: None,
                visible: None,
                editable: None,
                folder_id: None,
            }) && final(self)@ == (LayerGroupBuilderV {
                layers: old(self)@.layers.push(*final(b)),
                ..old(self)@
            }),
    {
        let b = LayerBuilder {
            id: Some(id),
            index: Some(index),
            name: None,
            visible: None,
            editable: None,
            folder_id: None,
        };
        let idx = self.layers.len();
        self.layers.push(b);
        proof {
            assert forall|z: LayerBuilder| #[trigger] self.layers@.update(idx as int, z) == old(
                self,
            ).layers@.push(z) by {
                assert(self.layers@.update(idx as int, z) =~= old(self).layers@.push(z));
            }
        }
        Ok(&mut self.layers[idx])
    }

    /// The layer builders accumulated so far, open to revision.
    pub fn get_layers(&mut self) -> (r: &mut Vec<LayerBuilder>)
        ensures
            r@ == old(self)@.layers,
            final(self)@ == (LayerGroupBuilderV { layers: final(r)@, ..old(self)@ }),
    {
        &mut self.layers
    }

    /// Appends a folder builder carrying its mandatory id and index;
    /// fails with `MissingFeatureFlag` unless `Folders` was declared
    /// first.
    pub fn add_layer_folder(&mut self, id: u32, index: usize) -> (r: Result<
        &mut LayerFolderBuilder,
        LayerGroupBuilderError,
    >)
        requires
            old(self)@.wf(),
        ensures
            r is Ok <==> old(self)@.features.contains(LayerFeature::Folders),
            r matches Err(e) ==> *final(self) == *old(self) && e
                == LayerGroupBuilderError::MissingFeatureFlag(LayerFeature::Folders),
            r matches Ok(b) ==> *b == (LayerFolderBuilder {
                id: Some(id),
                index: Some(index),
                name: None,
                visible: None,
                editable: None,
                size: None,
            }) && final(self)@ == (LayerGroupBuilderV {
                layer_folders: Some(old(self)@.layer_folders->0.push(*final(b))),
                ..old(self)@
            }),
    {
        let folders = match require_feature::<LayerFeature, LayerSubBuilderError, Vec<
            LayerFolderBuilder,
        >>(&self.features, LayerFeature::Folders, &mut self.layer_folders) {
            Ok(folders) => folders,
            Err(e) => {
                return Err(e);
            },
        };
        let b = LayerFolderBuilder {
            id: Some(id),
            index: Some(index),
            name: None,
            visible: None,
            editable: None,
            size: None,
        };
        let idx = folders.len();
        folders.push(b);
        proof {
            assert forall|z: LayerFolderBuilder|
                #[trigger] folders@.update(idx as int, z) == old(
                    self,
                )@.layer_folders->0.push(z) by {
                assert(folders@.update(idx as int, z) =~= old(self)@.layer_folders->0.push(z));
            }
        }
        Ok(&mut folders[idx])
    }

    /// The folder builders accumulated so far; fails with
    /// `MissingFeatureFlag` unless `Folders` was declared first.
    pub fn get_layer_folders(&mut self) -> (r: Result<
        &mut Vec<LayerFolderBuilder>,
        LayerGroupBuilderError,
    >)
        requires
            old(self)@.wf(),
        ensures
            r is Ok <==> old(self)@.features.contains(LayerFeature::Folders),
            r matches Err(e) ==> *final(self) == *old(self) && e
                == LayerGroupBuilderError::MissingFeatureFlag(LayerFeature::Folders),
            r matches Ok(fs) ==> fs@ == old(self)@.layer_folders->0 && final(self)@ == (
            LayerGroupBuilderV { layer_folders: Some(final(fs)@), ..old(self)@ }),
    {
        require_feature(&self.features, LayerFeature::Folders, &mut self.layer_folders)
    }

    /// Finalizes every layer and folder and validates each gated
    /// attribute against the declared flags; the first failing leaf
    /// decides the error.
    pub fn build(&mut self) -> (r: Result<LayerGroup, LayerGroupBuilderError>)
        ensures
            *final(self) == *old(self),
            match r {
                Ok(g) => spec_build_layer_group(old(self)@) matches Ok(gv) && g@ == gv,
                Err(e) => spec_build_layer_group(old(self)@) matches Err(e2) && e == e2,
            },
    {
        let ghost bv = self@;
        let mut layers: Vec<Layer> = Vec::new();
        let n = self.layers.len();
        let mut i: usize = 0;
        proof {
            assert(bv.layers.skip(0) =~= bv.layers);
            if spec_build_layers(bv.features, bv.layers) is Ok {
                assert(layers@ + spec_build_layers(bv.features, bv.layers)->Ok_0
                    =~= spec_build_layers(bv.features, bv.layers)->Ok_0);
            }
        }
        while i < n
            invariant
                i <= n,
                n == self.layers@.len(),
                bv == self@,
                spec_build_layers(bv.features, bv.layers) == match spec_build_layers(
                    bv.features,
                    bv.layers.skip(i as int),
                ) {
                    Ok(rest) => Ok::<Seq<Layer>, LayerGroupBuilderError>(layers@ + rest),
                    Err(e) => Err(e),
                },
            decreases n - i,
        {
            proof {
                assert(bv.layers.skip(i as int)[0] == bv.layers[i as int]);
                assert(bv.layers.skip(i as int).drop_first() =~= bv.layers.skip(i as int + 1));
            }
            match self.layers[i].build() {
                Ok(layer) => {
                    match check_feature::<LayerFeature, LayerSubBuilderError, String>(
                        &self.features,
                        LayerFeature::Name,
                        &layer.name,
                        "name",
                    ) {
                        Ok(_) => {},
                        Err(e) => {
                            return Err(e);
                        },
                    }
                    match check_feature::<LayerFeature, LayerSubBuilderError, bool>(
                        &self.features,
                        LayerFeature::Visible,
                        &layer.visible,
                        "visible",
                    ) {
                        Ok(_) => {},
                        Err(e) => {
                            return Err(e);
                        },
                    }
                    match check_feature::<LayerFeature, LayerSubBuilderError, bool>(
                        &self.features,
                        LayerFeature::Editable,
                        &layer.editable,
                        "editable",
                    ) {
                        Ok(_) => {},
                        Err(e) => {
                            return Err(e);
                        },
                    }
                    match check_feature::<LayerFeature, LayerSubBuilderError, Option<u32>>(
                        &self.features,
                        LayerFeature::Folders,
                        &layer.folder_id,
                        "folder_id",
                    ) {
                        Ok(_) => {},
                        Err(e) => {
                            return Err(e);
                        },
                    }
                    let ghost prev = layers@;
                    layers.push(layer);
                    proof {
                        if spec_build_layers(bv.features, bv.layers.skip(i as int + 1)) is Ok {
                            let rest = spec_build_layers(
                                bv.features,
                                bv.layers.skip(i as int + 1),
                            )->Ok_0;
                            assert(layers@ + rest =~= prev + (seq![bv.layers[i as int].spec_build()->Ok_0] + rest));
                        }
                    }
                },
                Err(e) => {
                    return Err(
                        GroupBuilderError::SubBuilderError(LayerSubBuilderError::Layer(e)),
                    );
                },
            }
            i = i + 1;
        }
        proof {
            assert(bv.layers.skip(n as int) =~= Seq::<LayerBuilder>::empty());
            assert(layers@ + Seq::<Layer>::empty() =~= layers@);
        }
        match check_feature::<LayerFeature, LayerSubBuilderError, Vec<LayerFolderBuilder>>(
            &self.features,
            LayerFeature::Folders,
            &self.layer_folders,
            "layer_folders",
        ) {
            Ok(_) => {},
            Err(e) => {
                return Err(e);
            },
        }
        let layer_folders: Option<Vec<LayerFolder>> = match &self.layer_folders {
            None => None,
            Some(folder_builders) => {
                let ghost fbs = folder_builders@;
                let mut folders: Vec<LayerFolder> = Vec::new();
                let n_f = folder_builders.len();
                let mut i: usize = 0;
                proof {
                    assert(fbs.skip(0) =~= fbs);
                    if spec_build_layer_folders(bv.features, fbs) is Ok {
                        assert(folders@ + spec_build_layer_folders(bv.features, fbs)->Ok_0
                            =~= spec_build_layer_folders(bv.features, fbs)->Ok_0);
                    }
                }
                while i < n_f
                    invariant
                        i <= n_f,
                        n_f == fbs.len(),
                        fbs == folder_builders@,
                        bv == self@,
                        bv.layer_folders == Some(fbs),
                        spec_build_layers(bv.features, bv.layers) == Ok::<
                            Seq<Layer>,
                            LayerGroupBuilderError,
                        >(layers@),
                        spec_check_feature::<LayerFeature, LayerSubBuilderError>(
                            bv.features,
                            LayerFeature::Folders,
                            bv.layer_folders is Some,
                            "layer_folders",
                        ) is Ok,
                        spec_build_layer_folders(bv.features, fbs) == match
                            spec_build_layer_folders(bv.features, fbs.skip(i as int)) {
                            Ok(rest) => Ok::<Seq<LayerFolder>, LayerGroupBuilderError>(
                                folders@ + rest,
                            ),
                            Err(e) => Err(e),
                        },
                    decreases n_f - i,
                {
                    proof {
                        assert(fbs.skip(i as int)[0] == fbs[i as int]);
                        assert(fbs.skip(i as int).drop_first() =~= fbs.skip(i as int + 1));
                    }
                    match folder_builders[i].build() {
                        Ok(folder) => {
                            match check_feature::<LayerFeature, LayerSubBuilderError, String>(
                                &self.features,
                                LayerFeature::Name,
                                &folder.name,
                                "name",
                            ) {
                                Ok(_) => {},
                                Err(e) => {
                                    return Err(e);
                                },
                            }
                            match check_feature::<LayerFeature, LayerSubBuilderError, bool>(
                                &self.features,
                                LayerFeature::Visible,
                                &folder.visible,
                                "visible",
                            ) {
                                Ok(_) => {},
                                Err(e) => {
                                    return Err(e);
                                },
                            }
                            match check_feature::<LayerFeature, LayerSubBuilderError, bool>(
                                &self.features,
                                LayerFeature::Editable,
                                &folder.editable,
                                "editable",
                            ) {
                                Ok(_) => {},
                                Err(e) => {
                                    return Err(e);
                                },
                            }
                            let ghost prev = folders@;
                            folders.push(folder);
                            proof {
                                if spec_build_layer_folders(
                                    bv.features,
                                    fbs.skip(i as int + 1),
                                ) is Ok {
                                    let rest = spec_build_layer_folders(
                                        bv.features,
                                        fbs.skip(i as int + 1),
                                    )->Ok_0;
                                    assert(folders@ + rest =~= prev + (seq![fbs[i as int].spec_build()->Ok_0] + rest));
                                }
                            }
                        },
                        Err(e) => {
                            return Err(
                                GroupBuilderError::SubBuilderError(
                                    LayerSubBuilderError::LayerFolder(e),
                                ),
                            );
                        },
                    }
                    i = i + 1;
                }
                proof {
                    assert(fbs.skip(n_f as int) =~= Seq::<LayerFolderBuilder>::empty());
                    assert(folders@ + Seq::<LayerFolder>::empty() =~= folders@);
                }
                Some(folders)
            },
        };
        let features = self.features.duplicate();
        Ok(LayerGroup { features, layers, layer_folders })
    }
}

} // verus!
