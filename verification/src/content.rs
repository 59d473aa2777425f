//! The generated code of the virtual module: the chunk paths relative to the
//! serving root, and the module text that exports them.

use crate::chunk::{
    EcmascriptChunkItemContent, EcmascriptChunkItemContentView, EcmascriptChunkItemOptions,
    ModuleId, ModuleIdView,
};
use crate::json::{json_array_text, module_id_literal, stringify_array, stringify_js};
use crate::path::{is_inside, relative_path, FileSystemPath};
use vstd::prelude::*;

verus! {

/// The paths that a client asks for: of each chunk path that lies below the
/// serving root its path relative to the root, in the order of the chunk
/// paths. Chunk paths outside the root are left out.
pub open spec fn spec_client_chunks(server_root: Seq<char>, chunk_paths: Seq<Seq<char>>) -> Seq<
    Seq<char>,
> {
    chunk_paths.filter_map(|path: Seq<char>| relative_path(server_root, path))
}

/// The text of the generated module, given the expression for the wrapped
/// module's identifier and the JSON array of the chunk paths.
pub open spec fn spec_module_code(module_id: Seq<char>, chunks: Seq<char>) -> Seq<char> {
    "__turbopack_esm__({\n  default: () => "@ + module_id
        + ",\n  chunks: () => chunks\n});\nconst chunks = "@ + chunks + ";\n"@
}

/// The content of the chunk item of the virtual module, given the paths that
/// a client asks for: the generated text, and nothing else.
pub open spec fn spec_content_of_chunks(
    client_chunks: Seq<Seq<char>>,
    module_id: ModuleIdView,
) -> EcmascriptChunkItemContentView {
    EcmascriptChunkItemContentView {
        inner_code: spec_module_code(module_id_literal(module_id), json_array_text(client_chunks)),
        source_map: None,
        options: EcmascriptChunkItemOptions { module: false, exports: false, this: false },
    }
}

/// The content of the chunk item of the virtual module, given the output
/// paths of the chunks: the generated text for the paths below the serving
/// root, and nothing else.
pub open spec fn spec_chunk_item_content(
    server_root: Seq<char>,
    chunk_paths: Seq<Seq<char>>,
    module_id: ModuleIdView,
) -> EcmascriptChunkItemContentView {
    spec_content_of_chunks(spec_client_chunks(server_root, chunk_paths), module_id)
}

/// There are at most as many client paths as chunk paths, and as many exactly
/// where every chunk path lies below the serving root.
pub proof fn lemma_client_chunks_len(server_root: Seq<char>, chunk_paths: Seq<Seq<char>>)
    ensures
        spec_client_chunks(server_root, chunk_paths).len() <= chunk_paths.len(),
        spec_client_chunks(server_root, chunk_paths).len() == chunk_paths.len() <==> forall|i: int|
            0 <= i < chunk_paths.len() ==> is_inside(server_root, #[trigger] chunk_paths[i]),
    decreases chunk_paths.len(),
{
    if chunk_paths.len() > 0 {
        let front = chunk_paths.drop_last();
        lemma_client_chunks_len(server_root, front);
        assert(forall|i: int| 0 <= i < front.len() ==> front[i] == chunk_paths[i]);
        if spec_client_chunks(server_root, chunk_paths).len() == chunk_paths.len() {
            assert forall|i: int| 0 <= i < chunk_paths.len() implies is_inside(
                server_root,
                #[trigger] chunk_paths[i],
            ) by {
                if i < front.len() {
                    assert(is_inside(server_root, front[i]));
                }
            }
        }
        if forall|i: int| 0 <= i < chunk_paths.len() ==> is_inside(server_root, #[trigger] chunk_paths[i]) {
            assert forall|i: int| 0 <= i < front.len() implies is_inside(
                server_root,
                #[trigger] front[i],
            ) by {
                assert(is_inside(server_root, chunk_paths[i]));
            }
            assert(is_inside(server_root, chunk_paths[chunk_paths.len() - 1]));
        }
    }
}

/// Where every chunk path lies below the serving root, each client path is
/// the relative path of the chunk path at the same place.
pub proof fn lemma_client_chunks_of_inside(server_root: Seq<char>, chunk_paths: Seq<Seq<char>>)
    requires
        forall|i: int| 0 <= i < chunk_paths.len() ==> is_inside(server_root, #[trigger] chunk_paths[i]),
    ensures
        spec_client_chunks(server_root, chunk_paths).len() == chunk_paths.len(),
        forall|i: int|
            0 <= i < chunk_paths.len() ==> relative_path(server_root, chunk_paths[i]) == Some(
                #[trigger] spec_client_chunks(server_root, chunk_paths)[i],
            ),
    decreases chunk_paths.len(),
{
    if chunk_paths.len() > 0 {
        let front = chunk_paths.drop_last();
        assert forall|i: int| 0 <= i < front.len() implies is_inside(
            server_root,
            #[trigger] front[i],
        ) by {
            assert(front[i] == chunk_paths[i]);
            assert(is_inside(server_root, chunk_paths[i]));
        }
        lemma_client_chunks_of_inside(server_root, front);
        assert(is_inside(server_root, chunk_paths[chunk_paths.len() - 1]));
        assert forall|i: int| 0 <= i < chunk_paths.len() implies relative_path(
            server_root,
            chunk_paths[i],
        ) == Some(#[trigger] spec_client_chunks(server_root, chunk_paths)[i]) by {
            if i < front.len() {
                assert(front[i] == chunk_paths[i]);
                assert(spec_client_chunks(server_root, chunk_paths)[i] == spec_client_chunks(
                    server_root,
                    front,
                )[i]);
            }
        }
    }
}

/// Every client path is the relative path of one of the chunk paths, which
/// lies below the serving root.
pub proof fn lemma_client_chunks_come_from_inside(
    server_root: Seq<char>,
    chunk_paths: Seq<Seq<char>>,
    k: int,
)
    requires
        0 <= k < spec_client_chunks(server_root, chunk_paths).len(),
    ensures
        exists|i: int|
            0 <= i < chunk_paths.len() && is_inside(server_root, #[trigger] chunk_paths[i])
                && relative_path(server_root, chunk_paths[i]) == Some(
                spec_client_chunks(server_root, chunk_paths)[k],
            ),
    decreases chunk_paths.len(),
{
    let front = chunk_paths.drop_last();
    let last = chunk_paths.len() - 1;
    if k < spec_client_chunks(server_root, front).len() {
        lemma_client_chunks_come_from_inside(server_root, front, k);
        let i = choose|i: int|
            0 <= i < front.len() && is_inside(server_root, #[trigger] front[i]) && relative_path(
                server_root,
                front[i],
            ) == Some(spec_client_chunks(server_root, front)[k]);
        assert(chunk_paths[i] == front[i]);
        assert(spec_client_chunks(server_root, chunk_paths)[k] == spec_client_chunks(
            server_root,
            front,
        )[k]);
    } else {
        assert(is_inside(server_root, chunk_paths[last]));
    }
}

/// The paths of the chunks relative to the serving root, in the order of the
/// chunks; a chunk outside the serving root is left out without complaint.
pub fn client_chunks(server_root: &FileSystemPath, chunk_paths: &Vec<FileSystemPath>) -> (chunks:
    Vec<String>)
    ensures
        chunks.deep_view() == spec_client_chunks(server_root@, chunk_paths.deep_view()),
        chunks.len() <= chunk_paths.len(),
        chunks.len() == chunk_paths.len() <==> forall|i: int|
            0 <= i < chunk_paths.len() ==> is_inside(server_root@, (#[trigger] chunk_paths[i])@),
{
    let ghost all = chunk_paths.deep_view();
    let ghost rebase = |path: Seq<char>| relative_path(server_root@, path);
    let mut chunks: Vec<String> = Vec::new();
    let mut i: usize = 0;
    assert(chunks.deep_view() =~= all.take(0).filter_map(rebase));
    while i < chunk_paths.len()
        invariant
            i <= chunk_paths.len(),
            all == chunk_paths.deep_view(),
            rebase == |path: Seq<char>| relative_path(server_root@, path),
            chunks.deep_view() == all.take(i as int).filter_map(rebase),
        decreases chunk_paths.len() - i,
    {
        let ghost before = chunks.deep_view();
        proof {
            all.lemma_filter_map_take_succ(rebase, i as int);
        }
        match server_root.get_path_to(&chunk_paths[i]) {
            Some(path) => {
                chunks.push(path.to_owned());
                assert(chunks.deep_view() =~= before + seq![path@]);
            },
            None => {
                assert(chunks.deep_view() =~= before + Seq::empty());
            },
        }
        i += 1;
    }
    proof {
        assert(all.take(all.len() as int) =~= all);
        lemma_client_chunks_len(server_root@, all);
        assert(forall|i: int| 0 <= i < chunk_paths.len() ==> all[i] == (#[trigger] chunk_paths[i])@);
    }
    chunks
}

/// The text of the generated module: a call that registers the wrapped
/// module's identifier as the default export and the list of chunk paths as
/// the export `chunks`, and the definition of that list.
pub fn module_code(module_id: &str, chunks: &str) -> (code: String)
    ensures
        code@ == spec_module_code(module_id@, chunks@),
{
    let mut code = String::from_str("__turbopack_esm__({\n  default: () => ");
    code.append(module_id);
    code.append(",\n  chunks: () => chunks\n});\nconst chunks = ");
    code.append(chunks);
    code.append(";\n");
    code
}

/// The content of the chunk item of the virtual module, from the paths that
/// a client asks for: the generated text for the wrapped module's identifier
/// and those paths, with no source map and no options set.
pub fn content_of_chunks(client_chunks: &Vec<String>, module_id: &ModuleId) -> (content:
    EcmascriptChunkItemContent)
    ensures
        content@ == spec_content_of_chunks(client_chunks.deep_view(), module_id@),
{
    let module_id = stringify_js(module_id);
    let chunks = stringify_array(client_chunks);
    EcmascriptChunkItemContent {
        inner_code: module_code(module_id.as_str(), chunks.as_str()),
        source_map: None,
        options: EcmascriptChunkItemOptions::default(),
    }
}

/// The content of the chunk item of the virtual module, from what the graph
/// resolved: the generated text for the wrapped module's identifier and the
/// chunks of its chunk group, with no source map and no options set.
pub fn chunk_item_content(
    server_root: &FileSystemPath,
    chunk_paths: &Vec<FileSystemPath>,
    module_id: &ModuleId,
) -> (content: EcmascriptChunkItemContent)
    ensures
        content@ == spec_chunk_item_content(server_root@, chunk_paths.deep_view(), module_id@),
{
    let chunks = client_chunks(server_root, chunk_paths);
    content_of_chunks(&chunks, module_id)
}

} // verus!
