//! Stages, prims and properties: the decisions the binding takes on what
//! each foreign call wrote, and the handles it hands back.
use vstd::prelude::*;
use crate::convention::{Reply, checked};
use crate::cpp;
use crate::ownership::{Discipline, ForeignHandle};
use crate::sdf;
use crate::vt;

verus! {

/// A failure the caller can act on, carrying what was attempted.
#[derive(Debug)]
pub enum Error {
    /// A stage could not be opened from this file.
    StageOpen { filename: std::string::String },
    /// A new stage could not be created at this file.
    StageCreateNew { filename: std::string::String },
    /// No valid prim stands at this path.
    NoPrimAtPath { path: std::string::String },
}

/// Stage factories.
pub struct Stage {}

/// What a foreign stage factory wrote: the counted stage reference, and the
/// foreign "is invalid" flag read on it.
pub struct StageReply {
    pub stage: StageRefPtr,
    pub is_invalid: bool,
}

impl Stage {
    /// The stage opened from `filename`, unless the foreign side flagged
    /// the result invalid: then the open-failure error naming the file.
    pub fn open(filename: &str, reply: StageReply) -> (r: Result<StageRefPtr, Error>)
        ensures
            !reply.is_invalid ==> r == Ok::<StageRefPtr, Error>(reply.stage),
            reply.is_invalid ==> (r matches Err(Error::StageOpen { filename: f }) && f@ == filename@),
    {
        if reply.is_invalid {
            Err(Error::StageOpen { filename: filename.to_owned() })
        } else {
            Ok(reply.stage)
        }
    }

    /// The stage created at `filename`, unless the foreign side flagged the
    /// result invalid: then the create-failure error naming the file.
    pub fn create_new(filename: &str, reply: StageReply) -> (r: Result<StageRefPtr, Error>)
        ensures
            !reply.is_invalid ==> r == Ok::<StageRefPtr, Error>(reply.stage),
            reply.is_invalid ==> (r matches Err(Error::StageCreateNew { filename: f }) && f@
                == filename@),
    {
        if reply.is_invalid {
            Err(Error::StageCreateNew { filename: filename.to_owned() })
        } else {
            Ok(reply.stage)
        }
    }
}

/// A counted reference to a foreign stage; the last one released frees it.
pub struct StageRefPtr {
    pub ptr: usize,
}

/// What a foreign prim lookup wrote: the prim, and the foreign validity
/// check read on it.
pub struct PrimReply {
    pub prim: Prim,
    pub valid: bool,
}

/// The prim found at `path`, or the not-found error naming the path.
pub open spec fn prim_outcome_ok(path: &sdf::Path, reply: PrimReply, r: Result<Prim, Error>) -> bool {
    &&& reply.valid ==> r == Ok::<Prim, Error>(reply.prim)
    &&& !reply.valid ==> (r matches Err(Error::NoPrimAtPath { path: p }) && p@ == path@)
}

fn prim_outcome(path: &sdf::Path, reply: PrimReply) -> (r: Result<Prim, Error>)
    ensures
        prim_outcome_ok(path, reply, r),
{
    if reply.valid {
        Ok(reply.prim)
    } else {
        Err(Error::NoPrimAtPath { path: path.text().to_owned() })
    }
}

impl StageRefPtr {
    /// The prim at `path`, when the foreign validity check on what the
    /// lookup returned passes; the not-found error naming the path
    /// otherwise.
    pub fn prim_at_path(&self, path: &sdf::Path, reply: PrimReply) -> (r: Result<Prim, Error>)
        ensures
            prim_outcome_ok(path, reply, r),
    {
        prim_outcome(path, reply)
    }

    /// The prim defined at `path`, when the foreign validity check on it
    /// passes; the not-found error naming the path otherwise.
    pub fn define_prim(&self, path: &sdf::Path, reply: PrimReply) -> (r: Result<Prim, Error>)
        ensures
            prim_outcome_ok(path, reply, r),
    {
        prim_outcome(path, reply)
    }

    /// The stage serialized as text, when the foreign export reported
    /// success; absent otherwise.
    pub fn export_to_string(&self, reply: Reply<cpp::String>) -> (r: Option<cpp::String>)
        ensures
            r == (if reply.succeeded { Some(reply.output) } else { None::<cpp::String> }),
    {
        checked(reply)
    }
}

/// A prim of a stage.
pub struct Prim {
    pub ptr: usize,
}

impl Prim {
    /// The foreign address of this prim.
    pub fn ptr(&self) -> (r: usize)
        ensures
            r == self.ptr,
    {
        self.ptr
    }
}

/// What a range traversal does next.
#[derive(PartialEq, Eq, Structural, Clone, Copy, Debug)]
pub enum RangeStep {
    /// The current iterator equals the end: the traversal is over.
    Done,
    /// Dereference the current iterator into a freshly owned prim, then
    /// advance it in place.
    Yield,
}

/// The decision of one traversal step: stop at the end, and stay stopped.
pub open spec fn range_step(finished: bool, at_end: bool) -> RangeStep {
    if finished || at_end {
        RangeStep::Done
    } else {
        RangeStep::Yield
    }
}

/// A foreign iterator position within a prim range.
pub struct PrimRangeIterator {
    pub ptr: usize,
}

/// A single-pass, forward-only traversal of the prims below a root,
/// driven by a foreign begin/end iterator pair.
pub struct PrimRange {
    ptr: usize,
    current: PrimRangeIterator,
    end: PrimRangeIterator,
    finished: bool,
}

impl PrimRange {
    /// A traversal of the foreign range at `ptr`, from the begin and end
    /// iterators the foreign side wrote for it.
    pub fn from_iterators(ptr: usize, begin: usize, end: usize) -> (r: PrimRange)
        ensures
            r.spec_ptr() == ptr,
            r.spec_current() == begin,
            r.spec_end() == end,
            !r.is_finished(),
    {
        PrimRange {
            ptr,
            current: PrimRangeIterator { ptr: begin },
            end: PrimRangeIterator { ptr: end },
            finished: false,
        }
    }

    /// Whether the traversal has reached its end.
    pub closed spec fn is_finished(&self) -> bool {
        self.finished
    }

    /// The foreign range.
    pub closed spec fn spec_ptr(&self) -> usize {
        self.ptr
    }

    /// The foreign iterator at the current position.
    pub closed spec fn spec_current(&self) -> usize {
        self.current.ptr
    }

    /// The foreign end iterator.
    pub closed spec fn spec_end(&self) -> usize {
        self.end.ptr
    }

    /// The foreign range.
    pub fn ptr(&self) -> (r: usize)
        ensures
            r == self.spec_ptr(),
    {
        self.ptr
    }

    /// The foreign iterator at the current position, which a `Yield` step
    /// dereferences and advances.
    pub fn current(&self) -> (r: usize)
        ensures
            r == self.spec_current(),
    {
        self.current.ptr
    }

    /// The foreign end iterator the current one is compared with.
    pub fn end(&self) -> (r: usize)
        ensures
            r == self.spec_end(),
    {
        self.end.ptr
    }

    /// One step, given whether the foreign comparison found the current
    /// iterator equal to the end. Once the end is reached, every later step
    /// is `Done` as well.
    pub fn next(&mut self, at_end: bool) -> (r: RangeStep)
        ensures
            r == range_step(old(self).is_finished(), at_end),
            final(self).is_finished() == (r == RangeStep::Done),
            final(self).spec_ptr() == old(self).spec_ptr(),
            final(self).spec_current() == old(self).spec_current(),
            final(self).spec_end() == old(self).spec_end(),
    {
        if self.finished || at_end {
            self.finished = true;
            RangeStep::Done
        } else {
            RangeStep::Yield
        }
    }
}

/// A foreign iterator position among the children of a prim.
pub struct PrimSiblingIterator {
    pub ptr: usize,
}

/// A single-pass, forward-only traversal of a prim's children, driven by a
/// foreign begin/end iterator pair.
pub struct PrimSiblingRange {
    ptr: usize,
    current: PrimSiblingIterator,
    end: PrimSiblingIterator,
    finished: bool,
}

impl PrimSiblingRange {
    /// A traversal of the foreign sibling range at `ptr`, from the begin and
    /// end iterators the foreign side wrote for it.
    pub fn from_iterators(ptr: usize, begin: usize, end: usize) -> (r: PrimSiblingRange)
        ensures
            r.spec_ptr() == ptr,
            r.spec_current() == begin,
            r.spec_end() == end,
            !r.is_finished(),
    {
        PrimSiblingRange {
            ptr,
            current: PrimSiblingIterator { ptr: begin },
            end: PrimSiblingIterator { ptr: end },
            finished: false,
        }
    }

    /// Whether the traversal has reached its end.
    pub closed spec fn is_finished(&self) -> bool {
        self.finished
    }

    /// The foreign range.
    pub closed spec fn spec_ptr(&self) -> usize {
        self.ptr
    }

    /// The foreign iterator at the current position.
    pub closed spec fn spec_current(&self) -> usize {
        self.current.ptr
    }

    /// The foreign end iterator.
    pub closed spec fn spec_end(&self) -> usize {
        self.end.ptr
    }

    /// The foreign range.
    pub fn ptr(&self) -> (r: usize)
        ensures
            r == self.spec_ptr(),
    {
        self.ptr
    }

    /// The foreign iterator at the current position, which a `Yield` step
    /// dereferences and advances.
    pub fn current(&self) -> (r: usize)
        ensures
            r == self.spec_current(),
    {
        self.current.ptr
    }

    /// The foreign end iterator the current one is compared with.
    pub fn end(&self) -> (r: usize)
        ensures
            r == self.spec_end(),
    {
        self.end.ptr
    }

    /// One step, given whether the foreign comparison found the current
    /// iterator equal to the end. Once the end is reached, every later step
    /// is `Done` as well.
    pub fn next(&mut self, at_end: bool) -> (r: RangeStep)
        ensures
            r == range_step(old(self).is_finished(), at_end),
            final(self).is_finished() == (r == RangeStep::Done),
            final(self).spec_ptr() == old(self).spec_ptr(),
            final(self).spec_current() == old(self).spec_current(),
            final(self).spec_end() == old(self).spec_end(),
    {
        if self.finished || at_end {
            self.finished = true;
            RangeStep::Done
        } else {
            RangeStep::Yield
        }
    }
}

/// Which of the two property kinds a property is.
#[derive(PartialEq, Eq, Structural, Clone, Copy, Debug)]
pub enum PropertyShape {
    Attribute,
    Relationship,
}

/// A property of a prim: an attribute or a relationship.
pub struct Property {
    pub ptr: usize,
}

impl Property {
    /// The kind the foreign capability predicates report. The foreign model has
    /// exactly two kinds, so at least one predicate holds; an attribute predicate
    /// that holds decides.
    pub fn classify(is_attribute: bool, is_relationship: bool) -> (r: PropertyShape)
        requires
            is_attribute || is_relationship,
        ensures
            r == (if is_attribute { PropertyShape::Attribute } else { PropertyShape::Relationship }),
    {
        if is_attribute {
            PropertyShape::Attribute
        } else {
            PropertyShape::Relationship
        }
    }

    /// The property seen as its kind, given what the foreign capability
    /// predicates reported and the address the matching foreign downcast wrote.
    pub fn property_kind(&self, is_attribute: bool, is_relationship: bool, cast: usize) -> (r: PropertyKind)
        requires
            is_attribute || is_relationship,
        ensures
            is_attribute ==> r == PropertyKind::Attribute(Attribute { ptr: cast }),
            !is_attribute ==> r == PropertyKind::Relationship(Relationship { ptr: cast }),
    {
        match Property::classify(is_attribute, is_relationship) {
            PropertyShape::Attribute => PropertyKind::Attribute(Attribute { ptr: cast }),
            PropertyShape::Relationship => PropertyKind::Relationship(Relationship { ptr: cast }),
        }
    }
}

/// A borrowed view of a property held by a property vector.
#[derive(PartialEq, Eq, Structural, Clone, Copy, Debug)]
pub struct PropertyRef {
    pub ptr: usize,
}

/// The properties of a prim, as borrowed views.
pub struct PropertyVector {
    items: Vec<PropertyRef>,
}

impl View for PropertyVector {
    type V = Seq<PropertyRef>;

    closed spec fn view(&self) -> Seq<PropertyRef> {
        self.items@
    }
}

impl PropertyVector {
    /// The vector holding the given views, in order.
    pub fn from_refs(items: Vec<PropertyRef>) -> (r: PropertyVector)
        ensures
            r@ == items@,
    {
        PropertyVector { items }
    }

    /// The number of properties.
    pub fn size(&self) -> (r: usize)
        ensures
            r == self@.len(),
    {
        self.items.len()
    }

    /// The property at `index`, which must be in bounds.
    pub fn at(&self, index: usize) -> (r: PropertyRef)
        requires
            index < self@.len(),
        ensures
            r == self@[index as int],
    {
        self.items[index]
    }

    /// A fresh iterator over every index from 0 up to the current size.
    pub fn iter(&self) -> (r: PropertyVectorIterator<'_>)
        ensures
            r.wf(),
            r.current() == 0,
            r.end() == self@.len(),
            r.source() == self,
    {
        PropertyVectorIterator { vec: self, current: 0, end: self.size() }
    }
}

/// A forward pass over a property vector, one index at a time.
pub struct PropertyVectorIterator<'a> {
    vec: &'a PropertyVector,
    current: usize,
    end: usize,
}

impl<'a> PropertyVectorIterator<'a> {
    /// The index the next step yields.
    pub closed spec fn current(&self) -> nat {
        self.current as nat
    }

    /// The size of the vector when the pass began.
    pub closed spec fn end(&self) -> nat {
        self.end as nat
    }

    /// The vector the pass walks.
    pub closed spec fn source(&self) -> &'a PropertyVector {
        self.vec
    }

    /// A pass only walks indices inside its vector.
    pub closed spec fn wf(&self) -> bool {
        self.current <= self.end && self.end == self.vec@.len()
    }

    /// The property at the current index, then one step on; nothing once
    /// every index has been yielded.
    pub fn next(&mut self) -> (r: Option<PropertyRef>)
        requires
            old(self).wf(),
        ensures
            final(self).wf(),
            final(self).source() == old(self).source(),
            final(self).end() == old(self).end(),
            old(self).current() == old(self).end() ==> r.is_none() && final(self).current()
                == old(self).current(),
            old(self).current() < old(self).end() ==> {
                &&& r == Some(old(self).source()@[old(self).current() as int])
                &&& final(self).current() == old(self).current() + 1
            },
    {
        if self.current == self.end {
            None
        } else {
            let cur = self.current;
            self.current = self.current + 1;
            Some(self.vec.at(cur))
        }
    }

    /// Runs the pass to its end and counts the properties it yields.
    pub fn count(self) -> (r: usize)
        requires
            self.wf(),
        ensures
            r == self.end() - self.current(),
    {
        let mut it = self;
        let mut n: usize = 0;
        let ghost start = self.current();
        while it.current < it.end
            invariant
                it.wf(),
                it.end() == self.end(),
                it.source() == self.source(),
                start <= it.current(),
                n == it.current() - start,
            decreases it.end() - it.current(),
        {
            let _p = it.next();
            n = n + 1;
        }
        n
    }
}

/// A typed, possibly time-varying property.
pub struct Attribute {
    pub ptr: usize,
}

impl Attribute {
    /// The value read at the default time, when the foreign read reported
    /// an authored or resolved value; absent otherwise.
    pub fn get(&self, reply: Reply<vt::Value>) -> (r: Option<vt::Value>)
        ensures
            r == (if reply.succeeded { Some(reply.output) } else { None::<vt::Value> }),
    {
        checked(reply)
    }
}

/// A property that targets other scene paths.
pub struct Relationship {
    pub ptr: usize,
}

impl Relationship {
    /// The target paths, when the foreign read reported success; absent
    /// otherwise.
    pub fn targets(&self, reply: Reply<sdf::PathVector>) -> (r: Option<sdf::PathVector>)
        ensures
            r == (if reply.succeeded { Some(reply.output) } else { None::<sdf::PathVector> }),
    {
        checked(reply)
    }
}

/// A property seen as the one kind it is.
pub enum PropertyKind {
    Attribute(Attribute),
    Relationship(Relationship),
}

/// A sampling time, as the bit pattern of its 64-bit float.
#[derive(PartialEq, Eq, Structural, Clone, Copy, Debug)]
pub struct TimeCode {
    pub bits: u64,
}

/// A mesh schema applied to a prim.
pub struct Mesh {
    pub ptr: usize,
}

impl Mesh {
    /// Adding a transform operation to a mesh has no effect.
    pub fn add_xform_op(&self) {
    }
}

/// The layer against which authoring applies.
pub struct EditTarget {
    pub ptr: usize,
}

impl ForeignHandle for StageRefPtr {
    open spec fn spec_address(&self) -> usize {
        self.ptr
    }

    open spec fn spec_discipline() -> Option<Discipline> {
        Some(Discipline::Shared)
    }

    fn address(&self) -> (r: usize) {
        self.ptr
    }

    fn discipline() -> (r: Option<Discipline>) {
        Some(Discipline::Shared)
    }
}

impl ForeignHandle for Prim {
    open spec fn spec_address(&self) -> usize {
        self.ptr
    }

    open spec fn spec_discipline() -> Option<Discipline> {
        Some(Discipline::Exclusive)
    }

    fn address(&self) -> (r: usize) {
        self.ptr
    }

    fn discipline() -> (r: Option<Discipline>) {
        Some(Discipline::Exclusive)
    }
}

impl ForeignHandle for Property {
    open spec fn spec_address(&self) -> usize {
        self.ptr
    }

    open spec fn spec_discipline() -> Option<Discipline> {
        Some(Discipline::Exclusive)
    }

    fn address(&self) -> (r: usize) {
        self.ptr
    }

    fn discipline() -> (r: Option<Discipline>) {
        Some(Discipline::Exclusive)
    }
}

impl ForeignHandle for PropertyRef {
    open spec fn spec_address(&self) -> usize {
        self.ptr
    }

    open spec fn spec_discipline() -> Option<Discipline> {
        None
    }

    fn address(&self) -> (r: usize) {
        self.ptr
    }

    fn discipline() -> (r: Option<Discipline>) {
        None
    }
}

impl ForeignHandle for Attribute {
    open spec fn spec_address(&self) -> usize {
        self.ptr
    }

    open spec fn spec_discipline() -> Option<Discipline> {
        Some(Discipline::Exclusive)
    }

    fn address(&self) -> (r: usize) {
        self.ptr
    }

    fn discipline() -> (r: Option<Discipline>) {
        Some(Discipline::Exclusive)
    }
}

impl ForeignHandle for Relationship {
    open spec fn spec_address(&self) -> usize {
        self.ptr
    }

    open spec fn spec_discipline() -> Option<Discipline> {
        Some(Discipline::Exclusive)
    }

    fn address(&self) -> (r: usize) {
        self.ptr
    }

    fn discipline() -> (r: Option<Discipline>) {
        Some(Discipline::Exclusive)
    }
}

impl ForeignHandle for Mesh {
    open spec fn spec_address(&self) -> usize {
        self.ptr
    }

    open spec fn spec_discipline() -> Option<Discipline> {
        Some(Discipline::Exclusive)
    }

    fn address(&self) -> (r: usize) {
        self.ptr
    }

    fn discipline() -> (r: Option<Discipline>) {
        Some(Discipline::Exclusive)
    }
}

impl ForeignHandle for EditTarget {
    open spec fn spec_address(&self) -> usize {
        self.ptr
    }

    open spec fn spec_discipline() -> Option<Discipline> {
        Some(Discipline::Exclusive)
    }

    fn address(&self) -> (r: usize) {
        self.ptr
    }

    fn discipline() -> (r: Option<Discipline>) {
        Some(Discipline::Exclusive)
    }
}

} // verus!
