//! The virtual module that wraps a module and lists the chunks of its chunk
//! group, and the chunk item that produces its generated code.

use crate::chunk::{
    Asset, AvailableAssets, ChunkGroup, ChunkGroupReference, ChunkGroupView, ChunkingContext,
    EcmascriptChunkItemContent, EcmascriptChunkItemContentView, EcmascriptExports, ModuleId,
    ModuleIdView,
};
use crate::content::{
    client_chunks, content_of_chunks, spec_chunk_item_content, spec_client_chunks,
    spec_content_of_chunks,
};
use crate::ident::{lemma_with_modifier_differs, AssetIdent, AssetIdentView};
use crate::join::{
    first_error, lemma_first_error_is_first, lemma_first_error_of_views, result_view,
    results_view, try_join, values_of,
};
use crate::path::FileSystemPath;
use vstd::prelude::*;

verus! {

/// The modifier that tells the virtual module apart from the module it wraps.
pub open spec fn modifier_text() -> Seq<char> {
    "chunks"@
}

/// The modifier that tells the virtual module apart from the module it wraps.
pub fn modifier() -> (text: String)
    ensures
        text@ == modifier_text(),
{
    String::from_str("chunks")
}

/// The raw content of an asset.
#[derive(Debug, PartialEq, Eq, Hash)]
pub struct AssetContent {
    pub bytes: Vec<u8>,
}

/// Why an asset could not do what it was asked.
#[derive(Clone, Copy, Debug, PartialEq, Eq, Hash, Structural)]
pub enum AssetError {
    /// The asset has no raw content: its content exists as a chunk item only.
    ContentUnsupported,
}

/// A virtual module around `asset`. Its generated code exports the paths,
/// relative to `server_root`, of the chunks that `chunking_context` needs to
/// load `asset`.
#[derive(Debug, PartialEq, Eq, Hash)]
pub struct WithChunksAsset {
    pub asset: Asset,
    pub server_root: FileSystemPath,
    pub chunking_context: ChunkingContext,
}

/// What a [`WithChunksAsset`] holds, as mathematical values.
pub struct WithChunksAssetView {
    pub asset: AssetIdentView,
    pub server_root: Seq<char>,
    pub chunking_context: ChunkingContext,
}

impl WithChunksAssetView {
    /// Whether the virtual module has raw content of its own. None has: what
    /// a virtual module generates is the content of its chunk item.
    pub open spec fn has_raw_content(self) -> bool {
        false
    }

    /// The identity of the virtual module: that of the wrapped module with
    /// the modifier added.
    pub open spec fn ident(self) -> AssetIdentView {
        self.asset.with_modifier(modifier_text())
    }

    /// The chunk group of the wrapped module: under the module's chunking
    /// context, with nothing taken as loaded already, and with availability
    /// counted from the wrapped module itself.
    pub open spec fn chunk_group(self) -> ChunkGroupView {
        ChunkGroupView {
            entry: self.asset,
            chunking_context: self.chunking_context,
            available_assets: None,
            current_availability_root: Some(self.asset),
        }
    }

    /// The references of the virtual module: one, to the chunk group of the
    /// wrapped module.
    pub open spec fn references(self) -> Seq<ChunkGroupView> {
        seq![self.chunk_group()]
    }

    /// The chunk item of the virtual module under `context`.
    pub open spec fn chunk_item(self, context: ChunkingContext) -> WithChunksChunkItemView {
        WithChunksChunkItemView { context, inner: self }
    }
}

impl View for WithChunksAsset {
    type V = WithChunksAssetView;

    open spec fn view(&self) -> WithChunksAssetView {
        WithChunksAssetView {
            asset: self.asset@,
            server_root: self.server_root@,
            chunking_context: self.chunking_context,
        }
    }
}

impl Clone for WithChunksAsset {
    fn clone(&self) -> (copy: Self)
        ensures
            copy@ == self@,
    {
        WithChunksAsset {
            asset: self.asset.clone(),
            server_root: self.server_root.clone(),
            chunking_context: self.chunking_context,
        }
    }
}

/// The virtual module placed in a chunk of its own.
#[derive(Debug, PartialEq, Eq, Hash)]
pub struct EcmascriptChunk {
    pub context: ChunkingContext,
    pub main_entry: WithChunksAsset,
    pub available_assets: Option<AvailableAssets>,
    pub current_availability_root: Option<Asset>,
}

/// What an [`EcmascriptChunk`] holds, as mathematical values.
pub struct EcmascriptChunkView {
    pub context: ChunkingContext,
    pub main_entry: WithChunksAssetView,
    pub available_assets: Option<AvailableAssets>,
    pub current_availability_root: Option<AssetIdentView>,
}

impl View for EcmascriptChunk {
    type V = EcmascriptChunkView;

    open spec fn view(&self) -> EcmascriptChunkView {
        EcmascriptChunkView {
            context: self.context,
            main_entry: self.main_entry@,
            available_assets: self.available_assets,
            current_availability_root: match self.current_availability_root {
                Some(root) => Some(root@),
                None => None,
            },
        }
    }
}

/// The virtual module as an item of a chunk, under the chunking context of
/// that chunk.
#[derive(Debug, PartialEq, Eq, Hash)]
pub struct WithChunksChunkItem {
    pub context: ChunkingContext,
    pub inner: WithChunksAsset,
}

/// What a [`WithChunksChunkItem`] holds, as mathematical values.
pub struct WithChunksChunkItemView {
    pub context: ChunkingContext,
    pub inner: WithChunksAssetView,
}

impl WithChunksChunkItemView {
    /// The identity of the chunk item: that of its virtual module.
    pub open spec fn asset_ident(self) -> AssetIdentView {
        self.inner.ident()
    }

    /// The references of the chunk item: those of its virtual module.
    pub open spec fn references(self) -> Seq<ChunkGroupView> {
        self.inner.references()
    }

    /// What the chunk item generates, given what the graph resolved: the
    /// paths of the chunks of [`WithChunksAssetView::chunk_group`], or why
    /// the group or one of its paths could not be resolved, and the
    /// identifier of the wrapped module, or why it could not be resolved.
    ///
    /// The first failure is the outcome, in this order: the chunk group, its
    /// paths in the order of the chunks, the module identifier.
    pub open spec fn content<E>(
        self,
        chunk_paths: Result<Seq<Result<Seq<char>, E>>, E>,
        module_id: Result<ModuleIdView, E>,
    ) -> Result<EcmascriptChunkItemContentView, E> {
        match self.client_chunks(chunk_paths) {
            Err(error) => Err(error),
            Ok(client_chunks) => Self::content_of_chunks(client_chunks, module_id),
        }
    }

    /// The wrapped module and the chunking context under which its
    /// identifier is resolved: that of the virtual module, not that of the
    /// chunk that holds the item.
    pub open spec fn module_id_request(self) -> (AssetIdentView, ChunkingContext) {
        (self.inner.asset, self.inner.chunking_context)
    }

    /// The paths that a client asks for, given what the graph resolved for
    /// the chunk group: the failure of the group, else of the first of its
    /// paths that failed, else the paths below the serving root, relative to
    /// it and in the order of the chunks.
    pub open spec fn client_chunks<E>(
        self,
        chunk_paths: Result<Seq<Result<Seq<char>, E>>, E>,
    ) -> Result<Seq<Seq<char>>, E> {
        match chunk_paths {
            Err(error) => Err(error),
            Ok(results) => match first_error(results) {
                Some(error) => Err(error),
                None => Ok(spec_client_chunks(self.inner.server_root, values_of(results))),
            },
        }
    }

    /// What a chunk item generates for the paths that a client asks for: the
    /// failure to resolve the module identifier, else the content for the
    /// identifier and the paths.
    pub open spec fn content_of_chunks<E>(
        client_chunks: Seq<Seq<char>>,
        module_id: Result<ModuleIdView, E>,
    ) -> Result<EcmascriptChunkItemContentView, E> {
        match module_id {
            Err(error) => Err(error),
            Ok(id) => Ok(spec_content_of_chunks(client_chunks, id)),
        }
    }
}

impl View for WithChunksChunkItem {
    type V = WithChunksChunkItemView;

    open spec fn view(&self) -> WithChunksChunkItemView {
        WithChunksChunkItemView { context: self.context, inner: self.inner@ }
    }
}

/// The outcome of resolving the paths of a chunk group, with views in place
/// of the paths.
pub open spec fn chunk_paths_view<E>(
    chunk_paths: Result<Vec<Result<FileSystemPath, E>>, E>,
) -> Result<Seq<Result<Seq<char>, E>>, E> {
    match chunk_paths {
        Ok(results) => Ok(results_view(results@)),
        Err(error) => Err(error),
    }
}

/// The virtual module never has the identity of the module it wraps, and its
/// identity depends on nothing but the identity of that module.
pub proof fn lemma_ident_of_wrapped(first: WithChunksAssetView, second: WithChunksAssetView)
    ensures
        first.ident() != first.asset,
        first.asset == second.asset ==> first.ident() == second.ident(),
{
    lemma_with_modifier_differs(first.asset, modifier_text());
}

/// A virtual module and each of its chunk items have the same references:
/// the one to the chunk group whose chunks the generated code lists.
pub proof fn lemma_references_agree(asset: WithChunksAssetView, context: ChunkingContext)
    ensures
        asset.chunk_item(context).references() == asset.references(),
        asset.references() == seq![asset.chunk_group()],
{
}

/// Generating twice from the same virtual module, the same resolved chunk
/// paths and the same module identifier gives the same outcome: the same
/// content, text included, or the same failure.
pub proof fn lemma_content_repeats<E>(
    first_item: WithChunksChunkItem,
    first_paths: Result<Vec<Result<FileSystemPath, E>>, E>,
    first_id: Result<ModuleId, E>,
    first_content: Result<EcmascriptChunkItemContent, E>,
    second_item: WithChunksChunkItem,
    second_paths: Result<Vec<Result<FileSystemPath, E>>, E>,
    second_id: Result<ModuleId, E>,
    second_content: Result<EcmascriptChunkItemContent, E>,
)
    requires
        first_item@ == second_item@,
        chunk_paths_view(first_paths) == chunk_paths_view(second_paths),
        result_view(first_id) == result_view(second_id),
        result_view(first_content) == first_item@.content(
            chunk_paths_view(first_paths),
            result_view(first_id),
        ),
        result_view(second_content) == second_item@.content(
            chunk_paths_view(second_paths),
            result_view(second_id),
        ),
    ensures
        result_view(first_content) == result_view(second_content),
        first_content matches Ok(first) ==> second_content matches Ok(second) && first.inner_code@
            == second.inner_code@,
{
}

/// A failure of the graph is the outcome of the generation, and is the only
/// way for it to fail: the failure of the chunk group, else of the first of
/// its paths that failed, else of the module identifier. Where nothing
/// failed, the outcome is the content for the resolved paths and identifier.
pub proof fn lemma_content_fails_as_resolution<E>(
    item: WithChunksChunkItemView,
    chunk_paths: Result<Seq<Result<Seq<char>, E>>, E>,
    module_id: Result<ModuleIdView, E>,
)
    ensures
        chunk_paths matches Err(error) ==> item.content(chunk_paths, module_id) == Err::<
            EcmascriptChunkItemContentView,
            E,
        >(error),
        item.content(chunk_paths, module_id) is Ok <==> (module_id is Ok && chunk_paths is Ok
            && forall|i: int|
            0 <= i < chunk_paths->Ok_0.len() ==> (#[trigger] chunk_paths->Ok_0[i]) is Ok),
        item.content(chunk_paths, module_id) is Ok ==> item.content(chunk_paths, module_id) == Ok::<
            EcmascriptChunkItemContentView,
            E,
        >(
            spec_chunk_item_content(
                item.inner.server_root,
                values_of(chunk_paths->Ok_0),
                module_id->Ok_0,
            ),
        ),
{
    if let Ok(results) = chunk_paths {
        lemma_first_error_is_first(results);
    }
}

impl WithChunksAsset {
    /// The virtual module around `asset`.
    pub fn new(asset: Asset, server_root: FileSystemPath, chunking_context: ChunkingContext) -> (made:
        Self)
        ensures
            made == (WithChunksAsset { asset, server_root, chunking_context }),
    {
        WithChunksAsset { asset, server_root, chunking_context }
    }

    /// The identity of the virtual module: that of the wrapped module with
    /// [`modifier`] added, which no wrapped module's own identity equals.
    pub fn ident(&self) -> (ident: AssetIdent)
        ensures
            ident@ == self@.ident(),
            ident@ != self.asset@,
    {
        proof {
            lemma_with_modifier_differs(self.asset@, modifier_text());
        }
        self.asset.ident.with_modifier(modifier())
    }

    /// The raw content of the virtual module, which it does not have. This
    /// must never be called: no virtual module meets what it requires. What a
    /// virtual module generates is the content of its chunk item.
    pub fn content(&self) -> (content: Result<AssetContent, AssetError>)
        requires
            self@.has_raw_content(),
        ensures
            content == Err::<AssetContent, AssetError>(AssetError::ContentUnsupported),
    {
        Err(AssetError::ContentUnsupported)
    }

    /// The chunk group of the wrapped module, which the virtual module refers
    /// to and whose chunks its generated code lists.
    pub fn chunk_group(&self) -> (group: ChunkGroup)
        ensures
            group@ == self@.chunk_group(),
    {
        ChunkGroup::from_asset(
            self.asset.clone(),
            self.chunking_context,
            None,
            Some(self.asset.clone()),
        )
    }

    /// The references of the virtual module: exactly one, to the chunk group
    /// of the wrapped module.
    pub fn references(&self) -> (references: Vec<ChunkGroupReference>)
        ensures
            references.len() == 1,
            references.deep_view() == self@.references(),
    {
        let mut references: Vec<ChunkGroupReference> = Vec::new();
        references.push(ChunkGroupReference::new(self.chunk_group()));
        assert(references.deep_view() =~= self@.references());
        references
    }

    /// The virtual module as the main entry of a chunk under `context`.
    pub fn as_chunk(
        &self,
        context: ChunkingContext,
        available_assets: Option<AvailableAssets>,
        current_availability_root: Option<Asset>,
    ) -> (chunk: EcmascriptChunk)
        ensures
            chunk@ == (EcmascriptChunkView {
                context,
                main_entry: self@,
                available_assets,
                current_availability_root: match current_availability_root {
                    Some(root) => Some(root@),
                    None => None,
                },
            }),
    {
        EcmascriptChunk {
            context,
            main_entry: self.clone(),
            available_assets,
            current_availability_root,
        }
    }

    /// The chunk item of the virtual module under `context`.
    pub fn as_chunk_item(&self, context: ChunkingContext) -> (item: WithChunksChunkItem)
        ensures
            item@ == self@.chunk_item(context),
    {
        WithChunksChunkItem { context, inner: self.clone() }
    }

    /// What the virtual module exports: one value, of no declared shape.
    pub fn get_exports(&self) -> (exports: EcmascriptExports)
        ensures
            exports == EcmascriptExports::Value,
    {
        EcmascriptExports::Value
    }
}

impl WithChunksChunkItem {
    /// The chunking context of the chunk that holds the item.
    pub fn chunking_context(&self) -> (context: ChunkingContext)
        ensures
            context == self.context,
    {
        self.context
    }

    /// The wrapped module and the chunking context under which the graph is
    /// to resolve the module's identifier for [`Self::content`]: the context
    /// of the virtual module, not that of the chunk that holds the item.
    pub fn module_id_request(&self) -> (request: (Asset, ChunkingContext))
        ensures
            request.0@ == self@.inner.asset,
            request.1 == self@.inner.chunking_context,
            (request.0@, request.1) == self@.module_id_request(),
    {
        (self.inner.asset.clone(), self.inner.chunking_context)
    }

    /// The paths that a client asks for, relative to the serving root.
    ///
    /// `chunk_paths` is what the graph resolved for the chunk group of
    /// [`WithChunksAsset::chunk_group`]: the output path of each of its
    /// chunks, in the order of the group, or the failure of the group or of a
    /// path. A failure is handed on unchanged: that of the group, else that
    /// of the first path that failed. Else the result lists the chunk paths
    /// below the serving root, relative to it, and leaves the others out.
    pub fn client_chunks<E>(&self, chunk_paths: Result<Vec<Result<FileSystemPath, E>>, E>) -> (chunks:
        Result<Vec<String>, E>)
        ensures
            match self@.client_chunks(chunk_paths_view(chunk_paths)) {
                Ok(expected) => chunks matches Ok(found) && found.deep_view() == expected,
                Err(error) => chunks == Err::<Vec<String>, E>(error),
            },
    {
        let results = match chunk_paths {
            Ok(results) => results,
            Err(error) => {
                return Err(error);
            },
        };
        proof {
            lemma_first_error_of_views(results@);
        }
        let paths = match try_join(results) {
            Ok(paths) => paths,
            Err(error) => {
                return Err(error);
            },
        };
        assert(paths.deep_view() =~= values_of(results_view(results@)));
        Ok(client_chunks(&self.inner.server_root, &paths))
    }

    /// The generated code for the paths that a client asks for.
    ///
    /// `module_id` is what the graph resolved for
    /// [`Self::module_id_request`]: the identifier of the wrapped module, or
    /// the failure to resolve it, which is handed on unchanged.
    pub fn content_of_chunks<E>(client_chunks: &Vec<String>, module_id: Result<ModuleId, E>) -> (content:
        Result<EcmascriptChunkItemContent, E>)
        ensures
            result_view(content) == WithChunksChunkItemView::content_of_chunks(
                client_chunks.deep_view(),
                result_view(module_id),
            ),
    {
        match module_id {
            Ok(id) => Ok(content_of_chunks(client_chunks, &id)),
            Err(error) => Err(error),
        }
    }

    /// The generated code of the virtual module.
    ///
    /// `chunk_paths` is what the graph resolved for the chunk group of
    /// [`WithChunksAsset::chunk_group`]: the output path of each of its
    /// chunks, in the order of the group, or the failure of the group or of a
    /// path. `module_id` is what it resolved for
    /// [`Self::module_id_request`]: the identifier of the wrapped module, or
    /// the failure to resolve it.
    ///
    /// A failure is handed on unchanged and no text is made: that of the
    /// group, else that of the first path that failed, else that of the
    /// identifier. Else the text lists, relative to the serving root, the
    /// chunk paths below the serving root, and leaves the others out.
    pub fn content<E>(
        &self,
        chunk_paths: Result<Vec<Result<FileSystemPath, E>>, E>,
        module_id: Result<ModuleId, E>,
    ) -> (content: Result<EcmascriptChunkItemContent, E>)
        ensures
            result_view(content) == self@.content(
                chunk_paths_view(chunk_paths),
                result_view(module_id),
            ),
    {
        match self.client_chunks(chunk_paths) {
            Ok(chunks) => Self::content_of_chunks(&chunks, module_id),
            Err(error) => Err(error),
        }
    }

    /// The identity of the chunk item: that of its virtual module.
    pub fn asset_ident(&self) -> (ident: AssetIdent)
        ensures
            ident@ == self@.asset_ident(),
    {
        self.inner.ident()
    }

    /// The references of the chunk item: those of its virtual module.
    pub fn references(&self) -> (references: Vec<ChunkGroupReference>)
        ensures
            references.len() == 1,
            references.deep_view() == self@.references(),
    {
        self.inner.references()
    }
}

} // verus!
