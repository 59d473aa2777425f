use with_chunks::chunk::{
    Asset, AvailableAssets, ChunkGroup, ChunkGroupReference, ChunkingContext, EcmascriptExports,
};
use with_chunks::ident::AssetIdent;
use with_chunks::path::FileSystemPath;
use with_chunks::with_chunks::{
    modifier, AssetError, EcmascriptChunk, WithChunksAsset, WithChunksChunkItem,
};

fn path(text: &str) -> FileSystemPath {
    FileSystemPath::new(text.to_string())
}

fn module(text: &str) -> Asset {
    Asset::new(AssetIdent::from_path(path(text)))
}

fn virtual_asset() -> WithChunksAsset {
    WithChunksAsset::new(module("pages/index.js"), path("/build"), ChunkingContext { key: 1 })
}

#[test]
fn modifier_is_chunks() {
    assert_eq!(modifier(), "chunks");
}

#[test]
fn new_holds_what_it_was_given() {
    let asset = virtual_asset();
    assert_eq!(asset.asset, module("pages/index.js"));
    assert_eq!(asset.server_root, path("/build"));
    assert_eq!(asset.chunking_context, ChunkingContext { key: 1 });
    assert_eq!(asset, virtual_asset());
    assert_eq!(asset.clone(), asset);
}

#[test]
fn ident_is_that_of_the_wrapped_module_with_the_modifier() {
    let ident = virtual_asset().ident();
    assert_eq!(
        ident,
        AssetIdent { path: path("pages/index.js"), modifiers: vec!["chunks".to_string()] }
    );
    assert_ne!(ident, virtual_asset().asset.ident());
}

#[test]
fn ident_keeps_the_modifiers_of_the_wrapped_module() {
    let wrapped = Asset::new(
        AssetIdent::from_path(path("pages/index.js")).with_modifier("client".to_string()),
    );
    let asset = WithChunksAsset::new(wrapped.clone(), path("/build"), ChunkingContext { key: 1 });
    assert_eq!(
        asset.ident(),
        AssetIdent {
            path: path("pages/index.js"),
            modifiers: vec!["client".to_string(), "chunks".to_string()],
        }
    );
    assert_ne!(asset.ident(), wrapped.ident());
}

#[test]
fn ident_depends_on_the_wrapped_module_alone() {
    let first = WithChunksAsset::new(module("a.js"), path("/build"), ChunkingContext { key: 1 });
    let second = WithChunksAsset::new(module("a.js"), path("/other"), ChunkingContext { key: 9 });
    let third = WithChunksAsset::new(module("b.js"), path("/build"), ChunkingContext { key: 1 });
    assert_eq!(first.ident(), second.ident());
    assert_eq!(first.ident(), first.ident());
    assert_ne!(first.ident(), third.ident());
}

#[test]
fn ident_of_a_virtual_module_around_a_virtual_module() {
    let inner = virtual_asset();
    let outer =
        WithChunksAsset::new(Asset::new(inner.ident()), path("/build"), ChunkingContext { key: 1 });
    assert_eq!(
        outer.ident().modifiers,
        vec!["chunks".to_string(), "chunks".to_string()]
    );
    assert_ne!(outer.ident(), inner.ident());
}

#[test]
fn content_always_fails() {
    assert_eq!(virtual_asset().content(), Err(AssetError::ContentUnsupported));
    let other = WithChunksAsset::new(module(""), path(""), ChunkingContext { key: 0 });
    assert!(other.content().is_err());
}

#[test]
fn chunk_group_is_that_of_the_wrapped_module() {
    assert_eq!(
        virtual_asset().chunk_group(),
        ChunkGroup {
            entry: module("pages/index.js"),
            chunking_context: ChunkingContext { key: 1 },
            available_assets: None,
            current_availability_root: Some(module("pages/index.js")),
        }
    );
    assert_eq!(
        ChunkGroup::from_asset(
            module("pages/index.js"),
            ChunkingContext { key: 1 },
            None,
            Some(module("pages/index.js")),
        ),
        virtual_asset().chunk_group()
    );
}

#[test]
fn references_are_the_one_chunk_group() {
    let references = virtual_asset().references();
    assert_eq!(references.len(), 1);
    assert_eq!(references, vec![ChunkGroupReference::new(virtual_asset().chunk_group())]);
    assert_eq!(references[0].chunk_group.available_assets, None);
    assert_eq!(
        references[0].chunk_group.current_availability_root,
        Some(references[0].chunk_group.entry.clone())
    );
}

#[test]
fn references_of_the_chunk_item_are_those_of_the_asset() {
    let asset = virtual_asset();
    let item = asset.as_chunk_item(ChunkingContext { key: 5 });
    assert_eq!(item.references(), asset.references());
    let elsewhere = asset.as_chunk_item(ChunkingContext { key: 6 });
    assert_eq!(elsewhere.references(), asset.references());
}

#[test]
fn as_chunk_places_the_virtual_module() {
    let chunk = virtual_asset().as_chunk(
        ChunkingContext { key: 4 },
        Some(AvailableAssets { key: 8 }),
        Some(module("pages/_app.js")),
    );
    assert_eq!(
        chunk,
        EcmascriptChunk {
            context: ChunkingContext { key: 4 },
            main_entry: virtual_asset(),
            available_assets: Some(AvailableAssets { key: 8 }),
            current_availability_root: Some(module("pages/_app.js")),
        }
    );
    let bare = virtual_asset().as_chunk(ChunkingContext { key: 4 }, None, None);
    assert_eq!(bare.main_entry, virtual_asset());
    assert_eq!(bare.available_assets, None);
    assert_eq!(bare.current_availability_root, None);
}

#[test]
fn as_chunk_item_binds_the_context() {
    let item = virtual_asset().as_chunk_item(ChunkingContext { key: 5 });
    assert_eq!(
        item,
        WithChunksChunkItem { context: ChunkingContext { key: 5 }, inner: virtual_asset() }
    );
    assert_eq!(item.chunking_context(), ChunkingContext { key: 5 });
}

#[test]
fn asset_ident_of_the_chunk_item_is_that_of_the_asset() {
    let asset = virtual_asset();
    let item = asset.as_chunk_item(ChunkingContext { key: 5 });
    assert_eq!(item.asset_ident(), asset.ident());
}

#[test]
fn get_exports_is_one_value() {
    assert_eq!(virtual_asset().get_exports(), EcmascriptExports::Value);
}
