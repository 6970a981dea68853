//! The untyped, kind-tagged shape handle, and the sub-shape index.
//!
//! A [`Shape`] owns one (possibly null) topology tree. Its kind, orientation
//! and placement are read and written here; conversions to and from the
//! typed variants go through the [`IsShape`] trait; [`Shape::traverse`]
//! builds the deduplicating sub-shape index ([`ShapeIter`]).

use vstd::prelude::*;

use core::marker::PhantomData;

use crate::topo::{
    collect_into, copy_node, dedup, kind_of, lemma_dedup_distinct, lemma_dedup_membership,
    lemma_sub_list_wf, lemma_view_nodes_index, lemma_view_nodes_len, node_kind, sub_list,
    view_node, view_nodes, wf, Node, NodeModel, Orientation, ShapeType,
};
use crate::transform::Transformation;

verus! {

/// The untyped handle to one topological entity; may be null.
pub struct Shape {
    node: Option<Node>,
}

impl View for Shape {
    type V = Option<NodeModel>;

    closed spec fn view(&self) -> Option<NodeModel> {
        match self.node {
            Option::None => Option::None,
            Option::Some(n) => Option::Some(view_node(n)),
        }
    }
}

impl Shape {
    /// The kind of the underlying entity; `None` exactly when null.
    pub open spec fn kind_spec(self) -> Option<ShapeType> {
        match self@ {
            Option::None => Option::None,
            Option::Some(m) => Option::Some(kind_of(m)),
        }
    }

    /// A valid handle: null, or a well-formed topology tree.
    pub open spec fn wf_spec(self) -> bool {
        match self@ {
            Option::None => true,
            Option::Some(m) => wf(m),
        }
    }

    /// Wrap a topology tree as a shape.
    pub(crate) fn from_node(n: Node) -> (s: Shape)
        ensures
            s@ == Option::Some(view_node(n)),
    {
        Shape { node: Option::Some(n) }
    }

    /// Read access to the underlying tree.
    pub(crate) fn node_ref(&self) -> (r: Option<&Node>)
        ensures
            match r {
                Option::None => self@ is None,
                Option::Some(n) => self@ == Option::Some(view_node(*n)),
            },
    {
        match &self.node {
            Option::None => Option::None,
            Option::Some(n) => Option::Some(n),
        }
    }

    /// Whether this handle refers to no entity.
    pub fn is_null(&self) -> (r: bool)
        ensures
            r == (self@ is None),
    {
        match &self.node {
            Option::None => true,
            Option::Some(_) => false,
        }
    }

    /// The kind of shape; `None` for a null shape.
    pub fn type_(&self) -> (r: Option<ShapeType>)
        ensures
            r == self.kind_spec(),
    {
        match &self.node {
            Option::None => Option::None,
            Option::Some(n) => Option::Some(node_kind(n)),
        }
    }

    /// The orientation tag of a non-null shape.
    pub fn orientation(&self) -> (r: Orientation)
        requires
            self@ is Some,
        ensures
            r == self@->Some_0.orient,
    {
        match &self.node {
            Option::None => unreached(),
            Option::Some(n) => n.orient,
        }
    }

    /// Replace the orientation tag, leaving geometry and placement untouched.
    pub fn set_orientation(&mut self, o: Orientation)
        requires
            old(self)@ is Some,
        ensures
            final(self)@ == Option::Some(NodeModel { orient: o, ..old(self)@->Some_0 }),
    {
        match &mut self.node {
            Option::None => {},
            Option::Some(n) => n.orient = o,
        }
    }

    /// The affine placement of a non-null shape.
    pub fn transformation(&self) -> (r: &Transformation)
        requires
            self@ is Some,
        ensures
            *r == self@->Some_0.location,
    {
        match &self.node {
            Option::None => unreached(),
            Option::Some(n) => &n.location,
        }
    }

    /// Replace the placement wholesale, leaving raw geometry untouched.
    pub fn set_transformation(&mut self, t: &Transformation)
        requires
            old(self)@ is Some,
        ensures
            final(self)@ == Option::Some(NodeModel { location: *t, ..old(self)@->Some_0 }),
    {
        match &mut self.node {
            Option::None => {},
            Option::Some(n) => n.location = *t,
        }
    }

    /// A handle copy: the copy refers to the same kernel entity (the model
    /// keeps its identities), so it compares equal to the original.
    pub fn duplicate(&self) -> (s: Shape)
        ensures
            s@ == self@,
    {
        match &self.node {
            Option::None => Shape { node: Option::None },
            Option::Some(n) => Shape { node: Option::Some(copy_node(n)) },
        }
    }
}

impl Default for Shape {
    /// A null shape: no underlying entity, no kind.
    fn default() -> (s: Shape)
        ensures
            s@ is None,
    {
        Shape { node: Option::None }
    }
}

/// Whether two handles refer to the same kernel entity at the same
/// location; a null handle equals only a null handle. This is identity
/// equality, never deep geometric equality: independently built entities
/// differ even when their geometry coincides.
pub open spec fn same_entity(a: Option<NodeModel>, b: Option<NodeModel>) -> bool {
    match a {
        Option::None => b is None,
        Option::Some(x) => b is Some && x.id == b->Some_0.id && x.location == b->Some_0.location,
    }
}

/// Handle equality is an equivalence: reflexive, symmetric and transitive.
pub proof fn lemma_same_entity_equivalence(
    a: Option<NodeModel>,
    b: Option<NodeModel>,
    c: Option<NodeModel>,
)
    ensures
        same_entity(a, a),
        same_entity(a, b) == same_entity(b, a),
        same_entity(a, b) && same_entity(b, c) ==> same_entity(a, c),
{
}

impl PartialEq for Shape {
    /// Identity equality of the underlying entities: same entity, same
    /// location.
    fn eq(&self, other: &Self) -> (r: bool) {
        match (&self.node, &other.node) {
            (Option::None, Option::None) => true,
            (Option::Some(a), Option::Some(b)) => a.id == b.id && a.location == b.location,
            _ => false,
        }
    }
}

impl vstd::std_specs::cmp::PartialEqSpecImpl for Shape {
    open spec fn obeys_eq_spec() -> bool {
        true
    }

    open spec fn eq_spec(&self, other: &Shape) -> bool {
        same_entity(self@, other@)
    }
}

/// The capability shared by the typed shape variants: a kind tag, total
/// widening to [`Shape`], and checked narrowing from it.
pub trait IsShape: Sized {
    /// The kind tag of this variant.
    spec fn kind() -> ShapeType;

    /// The view of the wrapped shape.
    spec fn shape_view(self) -> Option<NodeModel>;

    /// The kind tag, as a runtime value.
    fn shape_type() -> (k: ShapeType)
        ensures
            k == Self::kind(),
    ;

    /// Forget the static kind: total, and the handle moves unchanged.
    fn widen(self) -> (s: Shape)
        ensures
            s@ == self.shape_view(),
    ;

    /// Check the kind tag and retype the handle; the handle moves, it is
    /// never duplicated. Succeeds exactly when the shape is non-null and of
    /// this variant's kind.
    fn narrow(s: Shape) -> (r: Result<Self, ()>)
        requires
            s.wf_spec(),
        ensures
            match r {
                Result::Ok(t) => s@ is Some && kind_of(s@->Some_0) == Self::kind()
                    && t.shape_view() == s@,
                Result::Err(_) => !(s@ is Some && kind_of(s@->Some_0) == Self::kind()),
            },
    ;

    /// A handle copy: the copy refers to the same kernel entity (the model
    /// keeps its identities), so it compares equal to the original.
    fn duplicate(&self) -> (t: Self)
        ensures
            t.shape_view() == self.shape_view(),
    ;

    /// The same handle, seen untyped.
    fn as_shape(&self) -> (s: &Shape)
        ensures
            s@ == self.shape_view(),
    ;

    /// The same handle, seen untyped, with write access: writes through
    /// the returned handle land in this value.
    fn as_shape_mut(&mut self) -> (s: &mut Shape)
        ensures
            (*s)@ == old(self).shape_view(),
            final(self).shape_view() == (*final(s))@,
    ;
}

/// The model of the entity a valid typed shape wraps.
pub open spec fn typed_model<T: IsShape>(t: T) -> NodeModel {
    t.shape_view()->Some_0
}

/// A valid typed shape: it wraps a non-null, well-formed entity of its
/// variant's kind.
pub open spec fn typed_inv<T: IsShape>(t: T) -> bool {
    &&& t.shape_view() is Some
    &&& wf(typed_model(t))
    &&& kind_of(typed_model(t)) == T::kind()
}

/// What [`IsShape::narrow`] promises: success exactly when the shape is
/// non-null and of the variant's kind, and then the handle is carried over
/// unchanged.
pub open spec fn narrow_post<T: IsShape>(sv: Option<NodeModel>, r: Result<T, ()>) -> bool {
    match r {
        Result::Ok(t) => sv is Some && kind_of(sv->Some_0) == T::kind() && t.shape_view() == sv,
        Result::Err(_) => !(sv is Some && kind_of(sv->Some_0) == T::kind()),
    }
}

/// Round-trip law: widening a valid typed shape and narrowing the result
/// back to the same variant succeeds, and yields a value that wraps the very
/// same entity — in particular its kind and its orientation are unchanged.
pub proof fn lemma_widen_narrow_round_trip<T: IsShape>(t: T, s: Shape, r: Result<T, ()>)
    requires
        typed_inv(t),
        s@ == t.shape_view(),
        narrow_post::<T>(s@, r),
    ensures
        r matches Result::Ok(u) && u.shape_view() == t.shape_view() && typed_inv(u)
            && typed_model(u).orient == typed_model(t).orient,
{
}

/// Kind-invariant law: the widening of a valid typed shape reports the
/// variant's kind.
pub proof fn lemma_widen_kind<T: IsShape>(t: T, s: Shape)
    requires
        typed_inv(t),
        s@ == t.shape_view(),
    ensures
        s.kind_spec() == Option::Some(T::kind()),
{
}

/// Rejection law: narrowing a shape whose kind differs from the variant's
/// always fails.
pub proof fn lemma_narrow_rejects<T: IsShape>(s: Shape, r: Result<T, ()>)
    requires
        s@ is Some,
        kind_of(s@->Some_0) != T::kind(),
        narrow_post::<T>(s@, r),
    ensures
        r is Err,
{
}

/// A sub-shape borrowed from a traversal; it must not outlive the traversed
/// parent.
pub struct Ref<'r, T> {
    val: T,
    _phantom: PhantomData<&'r ()>,
}

impl<'r, T> Ref<'r, T> {
    /// The borrowed value.
    pub closed spec fn value(self) -> T {
        self.val
    }

    fn from_raw(val: T) -> (r: Self)
        ensures
            r.value() == val,
    {
        Ref { val, _phantom: PhantomData }
    }

    /// Read access to the borrowed value.
    pub fn get(&self) -> (v: &T)
        ensures
            *v == self.value(),
    {
        &self.val
    }
}

/// The sub-shape index over one parent shape: every distinct sub-shape of
/// one kind, in enumeration order, walked by [`ShapeIter::next`].
pub struct ShapeIter<'i, T> {
    items: Vec<Node>,
    pos: usize,
    _phantom: PhantomData<&'i T>,
}

impl<'i, T: IsShape> ShapeIter<'i, T> {
    /// The models of the indexed sub-shapes, in enumeration order.
    pub closed spec fn entries(self) -> Seq<NodeModel> {
        view_nodes(self.items@)
    }

    /// How many entries were already yielded.
    pub closed spec fn position(self) -> int {
        self.pos as int
    }

    /// A valid index over kind `T`: no entry repeats, and every entry is a
    /// well-formed sub-shape of the requested kind.
    pub closed spec fn inv(self) -> bool {
        &&& self.pos <= self.items@.len()
        &&& forall|j: int|
            0 <= j < self.entries().len() ==> wf(#[trigger] self.entries()[j]) && kind_of(
                self.entries()[j],
            ) == T::kind()
        &&& forall|i: int, j: int|
            0 <= i < j < self.entries().len() ==> self.entries()[i] != self.entries()[j]
    }

    /// The number of distinct sub-shapes in the index, counted eagerly at
    /// construction.
    pub fn len(&self) -> (n: usize)
        ensures
            n == self.entries().len(),
    {
        proof {
            lemma_view_nodes_len(self.items@);
        }
        self.items.len()
    }

    /// The next sub-shape of the index, retyped into the variant `T`.
    ///
    /// The index only holds entries of `T`'s kind, so the inner narrowing
    /// cannot fail — the verifier checks that the defensive arm is dead.
    pub fn next(&mut self) -> (r: Option<Ref<'i, T>>)
        requires
            old(self).inv(),
        ensures
            final(self).inv(),
            final(self).entries() == old(self).entries(),
            if old(self).position() < old(self).entries().len() {
                &&& r matches Option::Some(rf) && rf.value().shape_view() == Option::Some(
                    old(self).entries()[old(self).position()],
                ) && typed_inv(rf.value())
                &&& final(self).position() == old(self).position() + 1
            } else {
                r is None && final(self).position() == old(self).position()
            },
    {
        proof {
            lemma_view_nodes_len(self.items@);
        }
        if self.pos < self.items.len() {
            proof {
                lemma_view_nodes_index(self.items@, self.pos as int);
            }
            let n = copy_node(&self.items[self.pos]);
            let s = Shape::from_node(n);
            self.pos = self.pos + 1;
            match T::narrow(s) {
                Result::Ok(t) => Option::Some(Ref::from_raw(t)),
                Result::Err(_) => Option::None,
            }
        } else {
            Option::None
        }
    }
}

impl<'i, T: IsShape> ShapeIter<'i, T> {
    /// Build the sub-shape index of `shape` for the variant `T`: every
    /// distinct sub-shape of that kind occurring within `shape`, each
    /// listed once, in pre-order of first occurrence.
    fn new(shape: &'i Shape) -> (it: ShapeIter<'i, T>)
        requires
            shape.wf_spec(),
        ensures
            it.inv(),
            it.position() == 0,
            it.entries() == match shape@ {
                Option::None => Seq::<NodeModel>::empty(),
                Option::Some(m) => dedup(sub_list(m, T::kind())),
            },
    {
        let mut items: Vec<Node> = Vec::new();
        match &shape.node {
            Option::None => {},
            Option::Some(n) => {
                proof {
                    assert(view_nodes(items@) =~= Seq::<NodeModel>::empty());
                    assert(view_nodes(items@) == dedup(Seq::<NodeModel>::empty()));
                }
                collect_into(n, T::shape_type(), &mut items, Ghost(Seq::empty()));
                proof {
                    let subs = sub_list(view_node(*n), T::kind());
                    assert(Seq::<NodeModel>::empty() + subs =~= subs);
                    lemma_sub_list_wf(view_node(*n), T::kind());
                    lemma_dedup_distinct(subs);
                    assert forall|j: int| 0 <= j < dedup(subs).len() implies wf(
                        #[trigger] dedup(subs)[j],
                    ) && kind_of(dedup(subs)[j]) == T::kind() by {
                        assert(dedup(subs).contains(dedup(subs)[j]));
                        lemma_dedup_membership(subs, dedup(subs)[j]);
                        let i = choose|i: int| 0 <= i < subs.len() && subs[i] == dedup(subs)[j];
                    }
                }
            },
        }
        ShapeIter { items, pos: 0, _phantom: PhantomData }
    }
}

impl Shape {
    /// Build the sub-shape index of `self` for the variant `T`: every
    /// distinct sub-shape of that kind occurring within `self`, each listed
    /// once, in pre-order of first occurrence.
    pub fn traverse<'i, T: IsShape>(&'i self) -> (it: ShapeIter<'i, T>)
        requires
            self.wf_spec(),
        ensures
            it.inv(),
            it.position() == 0,
            it.entries() == match self@ {
                Option::None => Seq::<NodeModel>::empty(),
                Option::Some(m) => dedup(sub_list(m, T::kind())),
            },
    {
        ShapeIter::new(self)
    }
}

} // verus!
