//! Paths of the bundler's file system, and the path that leads from a root to
//! a path below it.

use vstd::prelude::*;
use vstd::std_specs::iter::IteratorSpec;

verus! {

/// A path inside the bundler's file system, segments separated by `/`.
///
/// Its view is the sequence of its characters.
#[derive(Debug, PartialEq, Eq, Hash)]
pub struct FileSystemPath {
    pub path: String,
}

impl View for FileSystemPath {
    type V = Seq<char>;

    open spec fn view(&self) -> Seq<char> {
        self.path@
    }
}

impl DeepView for FileSystemPath {
    type V = Seq<char>;

    open spec fn deep_view(&self) -> Seq<char> {
        self.path@
    }
}

impl Clone for FileSystemPath {
    fn clone(&self) -> (copy: Self)
        ensures
            copy == *self,
    {
        FileSystemPath { path: self.path.clone() }
    }
}

/// Whether `target` lies below `root`: every path lies below the empty root,
/// and below any other root lie the paths that continue it with a `/`.
pub open spec fn is_inside(root: Seq<char>, target: Seq<char>) -> bool {
    root.len() == 0 || (target.len() > root.len() && target.take(root.len() as int) == root
        && target[root.len() as int] == '/')
}

/// The path that leads from `root` to `target`: `target` without the root and
/// without the `/` that follows it, for a `target` that lies below `root`.
pub open spec fn relative_path(root: Seq<char>, target: Seq<char>) -> Option<Seq<char>> {
    if root.len() == 0 {
        Some(target)
    } else if is_inside(root, target) {
        Some(target.skip(root.len() as int + 1))
    } else {
        None
    }
}

/// A path below a root is the root, a `/` unless the root is empty, and the
/// relative path, in this order; and only such a path has a relative path.
pub proof fn lemma_relative_path_rejoins(root: Seq<char>, target: Seq<char>)
    ensures
        relative_path(root, target) is Some <==> is_inside(root, target),
        relative_path(root, target) matches Some(rest) ==> target == if root.len() == 0 {
            rest
        } else {
            root + seq!['/'] + rest
        },
{
    if root.len() > 0 && is_inside(root, target) {
        let rest = target.skip(root.len() as int + 1);
        assert(target =~= root + seq!['/'] + rest);
    }
}

/// The characters of `s`, in order.
fn chars_of(s: &str) -> (chars: Vec<char>)
    ensures
        chars@ == s@,
{
    let mut chars: Vec<char> = Vec::new();
    let mut it = s.chars();
    loop
        invariant_except_break
            chars@ + it.remaining() == s@,
            it.obeys_prophetic_iter_laws(),
            it.decrease() is Some,
        ensures
            chars@ == s@,
        decreases it.decrease()->0,
    {
        match it.next() {
            Some(c) => {
                chars.push(c);
            },
            None => {
                break;
            },
        }
    }
    chars
}

/// Whether `text` begins with all of `prefix`.
fn starts_with(text: &Vec<char>, prefix: &Vec<char>) -> (found: bool)
    ensures
        found <==> text@.len() >= prefix@.len() && text@.take(prefix@.len() as int) == prefix@,
{
    if text.len() < prefix.len() {
        return false;
    }
    let mut i: usize = 0;
    while i < prefix.len()
        invariant
            i <= prefix.len() <= text.len(),
            text@.take(i as int) == prefix@.take(i as int),
        decreases prefix.len() - i,
    {
        if text[i] != prefix[i] {
            proof {
                let full = text@.take(prefix@.len() as int);
                assert(full[i as int] == text@[i as int]);
            }
            return false;
        }
        proof {
            assert(text@.take(i + 1) =~= text@.take(i as int).push(text@[i as int]));
            assert(prefix@.take(i + 1) =~= prefix@.take(i as int).push(prefix@[i as int]));
        }
        i += 1;
    }
    proof {
        assert(prefix@.take(prefix@.len() as int) =~= prefix@);
    }
    true
}

impl FileSystemPath {
    /// The path with the given text.
    pub fn new(path: String) -> (made: Self)
        ensures
            made.path == path,
    {
        FileSystemPath { path }
    }

    /// Whether this path is the root of the file system, which is empty.
    pub fn is_root(&self) -> (root: bool)
        ensures
            root <==> self@.len() == 0,
    {
        self.path.as_str().is_empty()
    }

    /// The path that leads from this path to `inner`, or `None` where `inner`
    /// does not lie below this path.
    pub fn get_path_to<'a>(&self, inner: &'a FileSystemPath) -> (rest: Option<&'a str>)
        ensures
            match rest {
                Some(text) => relative_path(self@, inner@) == Some(text@),
                None => relative_path(self@, inner@) is None,
            },
    {
        let target = inner.path.as_str();
        if self.is_root() {
            return Some(target);
        }
        let root_chars = chars_of(self.path.as_str());
        let target_chars = chars_of(target);
        let start = root_chars.len();
        if target_chars.len() <= start || !starts_with(&target_chars, &root_chars) {
            return None;
        }
        if target_chars[start] != '/' {
            return None;
        }
        Some(target.substring_char(start + 1, target_chars.len()))
    }
}

} // verus!
