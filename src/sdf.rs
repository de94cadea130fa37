//! Scene paths, path vectors, asset paths and layer handles.
use vstd::prelude::*;
use crate::cpp;
use crate::convention::{Reply, checked};
use crate::ownership::{Discipline, ForeignHandle};

verus! {

/// A scene path, held as its text (for example `/World/Mesh`).
pub struct Path {
    text: std::string::String,
}

impl View for Path {
    type V = Seq<char>;

    closed spec fn view(&self) -> Seq<char> {
        self.text@
    }
}

impl Path {
    /// The path with the given text.
    pub fn from(value: &str) -> (r: Path)
        ensures
            r@ == value@,
    {
        Path { text: value.to_owned() }
    }

    /// The path's text.
    pub fn text(&self) -> (r: &str)
        ensures
            r@ == self@,
    {
        self.text.as_str()
    }

    /// An independent path with the same text.
    pub fn copy(&self) -> (r: Path)
        ensures
            r@ == self@,
    {
        Path { text: self.text.clone() }
    }
}

/// A vector of scene paths.
pub struct PathVector {
    paths: Vec<Path>,
}

impl View for PathVector {
    type V = Seq<Seq<char>>;

    closed spec fn view(&self) -> Seq<Seq<char>> {
        self.paths@.map_values(|p: Path| p@)
    }
}

impl PathVector {
    /// The empty vector.
    pub fn default() -> (r: PathVector)
        ensures
            r@ == Seq::<Seq<char>>::empty(),
    {
        PathVector { paths: Vec::new() }
    }

    /// Appends a path at the end.
    pub fn push(&mut self, path: Path)
        ensures
            final(self)@ == old(self)@.push(path@),
    {
        self.paths.push(path);
        assert(self@ =~= old(self)@.push(path@));
    }

    /// The number of paths.
    pub fn size(&self) -> (r: usize)
        ensures
            r == self@.len(),
    {
        self.paths.len()
    }

    /// The path at `index`, which must be in bounds.
    pub fn at(&self, index: usize) -> (r: &Path)
        requires
            index < self@.len(),
        ensures
            r@ == self@[index as int],
    {
        &self.paths[index]
    }

    /// A fresh iterator over every index from 0 up to the current size.
    pub fn iter(&self) -> (r: PathVectorIterator<'_>)
        ensures
            r.wf(),
            r.current() == 0,
            r.end() == self@.len(),
            r.source() == self,
    {
        PathVectorIterator { vec: self, current: 0, end: self.size() }
    }
}

/// A forward pass over a path vector, one index at a time.
pub struct PathVectorIterator<'a> {
    vec: &'a PathVector,
    current: usize,
    end: usize,
}

impl<'a> PathVectorIterator<'a> {
    /// The index the next step yields.
    pub closed spec fn current(&self) -> nat {
        self.current as nat
    }

    /// The size of the vector when the pass began.
    pub closed spec fn end(&self) -> nat {
        self.end as nat
    }

    /// The vector the pass walks.
    pub closed spec fn source(&self) -> &'a PathVector {
        self.vec
    }

    /// A pass only walks indices inside its vector.
    pub closed spec fn wf(&self) -> bool {
        self.current <= self.end && self.end == self.vec@.len()
    }

    /// The path at the current index, then one step on; nothing once every
    /// index has been yielded.
    pub fn next(&mut self) -> (r: Option<&'a Path>)
        requires
            old(self).wf(),
        ensures
            final(self).wf(),
            final(self).source() == old(self).source(),
            final(self).end() == old(self).end(),
            old(self).current() == old(self).end() ==> r.is_none() && final(self).current()
                == old(self).current(),
            old(self).current() < old(self).end() ==> {
                &&& r matches Some(p) && p@ == old(self).source()@[old(self).current() as int]
                &&& final(self).current() == old(self).current() + 1
            },
    {
        if self.current == self.end {
            None
        } else {
            let cur = self.current;
            self.current = self.current + 1;
            Some(self.vec.at(cur))
        }
    }

    /// Runs the pass to its end and counts the paths it yields.
    pub fn count(self) -> (r: usize)
        requires
            self.wf(),
        ensures
            r == self.end() - self.current(),
    {
        let mut it = self;
        let mut n: usize = 0;
        let ghost start = self.current();
        while it.current < it.end
            invariant
                it.wf(),
                it.end() == self.end(),
                it.source() == self.source(),
                start <= it.current(),
                n == it.current() - start,
            decreases it.end() - it.current(),
        {
            let _p = it.next();
            n = n + 1;
        }
        n
    }
}

/// A path to an asset, with the path it resolved to (empty until resolved).
pub struct AssetPath {
    asset_path: std::string::String,
    resolved_path: std::string::String,
}

impl AssetPath {
    /// An asset path not yet resolved.
    pub fn from_path(path: &str) -> (r: AssetPath)
        ensures
            r.spec_asset_path() == path@,
            r.spec_resolved_path() == Seq::<char>::empty(),
    {
        AssetPath { asset_path: path.to_owned(), resolved_path: std::string::String::new() }
    }

    /// An asset path together with the path it resolved to.
    pub fn resolved(path: &str, resolved_path: &str) -> (r: AssetPath)
        ensures
            r.spec_asset_path() == path@,
            r.spec_resolved_path() == resolved_path@,
    {
        AssetPath { asset_path: path.to_owned(), resolved_path: resolved_path.to_owned() }
    }

    pub closed spec fn spec_asset_path(&self) -> Seq<char> {
        self.asset_path@
    }

    pub closed spec fn spec_resolved_path(&self) -> Seq<char> {
        self.resolved_path@
    }

    /// The asset path as authored.
    pub fn asset_path(&self) -> (r: &str)
        ensures
            r@ == self.spec_asset_path(),
    {
        self.asset_path.as_str()
    }

    /// The path the asset resolved to.
    pub fn resolved_path(&self) -> (r: &str)
        ensures
            r@ == self.spec_resolved_path(),
    {
        self.resolved_path.as_str()
    }

    /// An independent asset path with the same two paths.
    pub fn copy(&self) -> (r: AssetPath)
        ensures
            r.spec_asset_path() == self.spec_asset_path(),
            r.spec_resolved_path() == self.spec_resolved_path(),
    {
        AssetPath { asset_path: self.asset_path.clone(), resolved_path: self.resolved_path.clone() }
    }
}

/// Whether an attribute's value may vary over time.
#[derive(PartialEq, Eq, Structural, Clone, Copy, Debug)]
pub enum Variability {
    Varying,
    Uniform,
}

/// A counted reference to a foreign layer; the last one released frees it.
pub struct LayerRefPtr {
    pub ptr: usize,
}

impl LayerRefPtr {
    /// The layer serialized as text, when the foreign export reported
    /// success; absent otherwise.
    pub fn export_to_string(&self, reply: Reply<cpp::String>) -> (r: Option<cpp::String>)
        ensures
            r == (if reply.succeeded { Some(reply.output) } else { None::<cpp::String> }),
    {
        checked(reply)
    }
}

/// A borrowed handle to a foreign layer owned elsewhere (for example the
/// root or session layer of a stage).
pub struct LayerHandle {
    pub ptr: usize,
}

impl LayerHandle {
    /// The layer serialized as text, when the foreign export reported
    /// success; absent otherwise.
    pub fn export_to_string(&self, reply: Reply<cpp::String>) -> (r: Option<cpp::String>)
        ensures
            r == (if reply.succeeded { Some(reply.output) } else { None::<cpp::String> }),
    {
        checked(reply)
    }
}

impl ForeignHandle for LayerRefPtr {
    open spec fn spec_address(&self) -> usize {
        self.ptr
    }

    open spec fn spec_discipline() -> Option<Discipline> {
        Some(Discipline::Shared)
    }

    fn address(&self) -> (r: usize) {
        self.ptr
    }

    fn discipline() -> (r: Option<Discipline>) {
        Some(Discipline::Shared)
    }
}

impl ForeignHandle for LayerHandle {
    open spec fn spec_address(&self) -> usize {
        self.ptr
    }

    open spec fn spec_discipline() -> Option<Discipline> {
        None
    }

    fn address(&self) -> (r: usize) {
        self.ptr
    }

    fn discipline() -> (r: Option<Discipline>) {
        None
    }
}

} // verus!
