//! The parts of the chunk graph that a chunk-aware module speaks of.

use crate::ident::{AssetIdent, AssetIdentView};
use vstd::prelude::*;

verus! {

/// A handle on the configuration that decides how modules are grouped into
/// chunks. Two handles with the same key denote the same configuration.
#[derive(Clone, Copy, Debug, PartialEq, Eq, Hash, Structural)]
pub struct ChunkingContext {
    pub key: u64,
}

/// A handle on a set of assets that are known to be loaded already.
#[derive(Clone, Copy, Debug, PartialEq, Eq, Hash, Structural)]
pub struct AvailableAssets {
    pub key: u64,
}

/// A module or other asset of the graph, known by its identity.
///
/// Its view is the view of its identity.
#[derive(Debug, PartialEq, Eq, Hash)]
pub struct Asset {
    pub ident: AssetIdent,
}

impl View for Asset {
    type V = AssetIdentView;

    open spec fn view(&self) -> AssetIdentView {
        self.ident@
    }
}

impl Clone for Asset {
    fn clone(&self) -> (copy: Self)
        ensures
            copy@ == self@,
    {
        Asset { ident: self.ident.clone() }
    }
}

impl Asset {
    /// The asset with the given identity.
    pub fn new(ident: AssetIdent) -> (asset: Self)
        ensures
            asset.ident == ident,
    {
        Asset { ident }
    }

    /// The identity of this asset.
    pub fn ident(&self) -> (ident: AssetIdent)
        ensures
            ident@ == self@,
    {
        self.ident.clone()
    }
}

/// The chunks needed to load `entry`, as a question to the chunk graph: the
/// entry, the context that groups it, what is loaded already, and the asset
/// from which availability is counted.
#[derive(Debug, PartialEq, Eq, Hash)]
pub struct ChunkGroup {
    pub entry: Asset,
    pub chunking_context: ChunkingContext,
    pub available_assets: Option<AvailableAssets>,
    pub current_availability_root: Option<Asset>,
}

/// What a [`ChunkGroup`] holds, as mathematical values.
pub struct ChunkGroupView {
    pub entry: AssetIdentView,
    pub chunking_context: ChunkingContext,
    pub available_assets: Option<AvailableAssets>,
    pub current_availability_root: Option<AssetIdentView>,
}

impl View for ChunkGroup {
    type V = ChunkGroupView;

    open spec fn view(&self) -> ChunkGroupView {
        ChunkGroupView {
            entry: self.entry@,
            chunking_context: self.chunking_context,
            available_assets: self.available_assets,
            current_availability_root: match self.current_availability_root {
                Some(root) => Some(root@),
                None => None,
            },
        }
    }
}

impl ChunkGroup {
    /// The chunk group of `entry` under `chunking_context`.
    pub fn from_asset(
        entry: Asset,
        chunking_context: ChunkingContext,
        available_assets: Option<AvailableAssets>,
        current_availability_root: Option<Asset>,
    ) -> (group: Self)
        ensures
            group == (ChunkGroup {
                entry,
                chunking_context,
                available_assets,
                current_availability_root,
            }),
    {
        ChunkGroup { entry, chunking_context, available_assets, current_availability_root }
    }
}

/// A reference from an asset to all the chunks of a chunk group.
///
/// Its view is the view of the chunk group.
#[derive(Debug, PartialEq, Eq, Hash)]
pub struct ChunkGroupReference {
    pub chunk_group: ChunkGroup,
}

impl View for ChunkGroupReference {
    type V = ChunkGroupView;

    open spec fn view(&self) -> ChunkGroupView {
        self.chunk_group@
    }
}

impl DeepView for ChunkGroupReference {
    type V = ChunkGroupView;

    open spec fn deep_view(&self) -> ChunkGroupView {
        self.chunk_group@
    }
}

impl ChunkGroupReference {
    /// The reference to `chunk_group`.
    pub fn new(chunk_group: ChunkGroup) -> (reference: Self)
        ensures
            reference.chunk_group == chunk_group,
    {
        ChunkGroupReference { chunk_group }
    }
}

/// The identifier by which the runtime finds a module.
#[derive(Debug, PartialEq, Eq, Hash)]
pub enum ModuleId {
    Number(u32),
    String(String),
}

/// What a [`ModuleId`] holds, as mathematical values.
pub enum ModuleIdView {
    Number(u32),
    String(Seq<char>),
}

impl View for ModuleId {
    type V = ModuleIdView;

    open spec fn view(&self) -> ModuleIdView {
        match self {
            ModuleId::Number(n) => ModuleIdView::Number(*n),
            ModuleId::String(s) => ModuleIdView::String(s@),
        }
    }
}

impl Clone for ModuleId {
    fn clone(&self) -> (copy: Self)
        ensures
            copy == *self,
    {
        match self {
            ModuleId::Number(n) => ModuleId::Number(*n),
            ModuleId::String(s) => ModuleId::String(s.clone()),
        }
    }
}

/// What a module offers to the modules that import it.
#[derive(Clone, Copy, Debug, PartialEq, Eq, Hash, Structural)]
pub enum EcmascriptExports {
    /// Named bindings.
    EsmExports,
    /// What the module assigns to `module.exports`.
    CommonJs,
    /// One value of unknown shape.
    Value,
    /// No exports at all.
    Nothing,
}

/// Which of the module's own bindings the generated code of a chunk item uses.
#[derive(Clone, Copy, Debug, PartialEq, Eq, Hash, Structural)]
pub struct EcmascriptChunkItemOptions {
    pub module: bool,
    pub exports: bool,
    pub this: bool,
}

impl Default for EcmascriptChunkItemOptions {
    fn default() -> (options: Self)
        ensures
            options == (EcmascriptChunkItemOptions { module: false, exports: false, this: false }),
    {
        EcmascriptChunkItemOptions { module: false, exports: false, this: false }
    }
}

/// The generated code of a chunk item and what accompanies it.
#[derive(Debug, PartialEq, Eq, Hash)]
pub struct EcmascriptChunkItemContent {
    pub inner_code: String,
    pub source_map: Option<String>,
    pub options: EcmascriptChunkItemOptions,
}

/// What an [`EcmascriptChunkItemContent`] holds, as mathematical values.
pub struct EcmascriptChunkItemContentView {
    pub inner_code: Seq<char>,
    pub source_map: Option<Seq<char>>,
    pub options: EcmascriptChunkItemOptions,
}

impl View for EcmascriptChunkItemContent {
    type V = EcmascriptChunkItemContentView;

    open spec fn view(&self) -> EcmascriptChunkItemContentView {
        EcmascriptChunkItemContentView {
            inner_code: self.inner_code@,
            source_map: match self.source_map {
                Some(map) => Some(map@),
                None => None,
            },
            options: self.options,
        }
    }
}

} // verus!
