//! Identities of the nodes of the module graph.

use crate::path::FileSystemPath;
use vstd::prelude::*;

verus! {

/// The identity of an asset: the path of its source and the modifiers that
/// tell apart the artifacts derived from that source.
#[derive(Debug, PartialEq, Eq, Hash)]
pub struct AssetIdent {
    pub path: FileSystemPath,
    pub modifiers: Vec<String>,
}

/// What an [`AssetIdent`] holds, as mathematical values.
pub struct AssetIdentView {
    pub path: Seq<char>,
    pub modifiers: Seq<Seq<char>>,
}

impl AssetIdentView {
    /// This identity with `modifier` added behind its modifiers.
    pub open spec fn with_modifier(self, modifier: Seq<char>) -> AssetIdentView {
        AssetIdentView { path: self.path, modifiers: self.modifiers.push(modifier) }
    }
}

impl View for AssetIdent {
    type V = AssetIdentView;

    open spec fn view(&self) -> AssetIdentView {
        AssetIdentView { path: self.path@, modifiers: self.modifiers.deep_view() }
    }
}

impl Clone for AssetIdent {
    fn clone(&self) -> (copy: Self)
        ensures
            copy@ == self@,
    {
        let copy = AssetIdent { path: self.path.clone(), modifiers: self.modifiers.clone() };
        assert(copy.modifiers.deep_view() =~= self.modifiers.deep_view());
        copy
    }
}

impl AssetIdent {
    /// The identity of the asset at `path`, without modifiers.
    pub fn from_path(path: FileSystemPath) -> (ident: Self)
        ensures
            ident@ == (AssetIdentView { path: path@, modifiers: Seq::empty() }),
    {
        let ident = AssetIdent { path, modifiers: Vec::new() };
        assert(ident.modifiers.deep_view() =~= Seq::empty());
        ident
    }

    /// The identity of the artifact that `modifier` derives from this one.
    pub fn with_modifier(&self, modifier: String) -> (ident: Self)
        ensures
            ident@ == self@.with_modifier(modifier@),
    {
        let mut modifiers = self.modifiers.clone();
        modifiers.push(modifier);
        let ident = AssetIdent { path: self.path.clone(), modifiers };
        assert(ident.modifiers.deep_view() =~= self.modifiers.deep_view().push(modifier@));
        ident
    }
}

/// Adding a modifier always gives another identity, whatever the modifier.
pub proof fn lemma_with_modifier_differs(ident: AssetIdentView, modifier: Seq<char>)
    ensures
        ident.with_modifier(modifier) != ident,
        ident.with_modifier(modifier).path == ident.path,
{
    assert(ident.with_modifier(modifier).modifiers.len() == ident.modifiers.len() + 1);
}

} // verus!
