//! The scene-node tree: one recursive type unifying bare leaves, flat groups
//! and nested groups, with value-semantics composition and a pre-order draw
//! traversal.
//!
//! Composition never mutates an existing node: `attach` and the builder
//! methods consume their arguments and return a new tree; a caller that
//! wants to keep using the old value takes a deep copy first (see
//! [`SceneNode::duplicate`]). The draw traversal
//! turns a tree into the ordered sequence of (world transform, payload)
//! pairs that a rendering backend consumes, accumulating transforms
//! top-down, parent-first.

use vstd::prelude::*;

use crate::payload::Payload;
use crate::transform::{compose_fits, compose_m, identity_m, Transform, TransformM, Vec3};

verus! {

/// A node of the scene graph: either a leaf carrying exactly one payload, or
/// a group carrying an optional payload and an ordered list of children.
/// Child transforms are relative to their parent.
#[derive(PartialEq, Debug)]
pub enum SceneNode {
    Leaf { payload: Payload, transform: Transform },
    Group { payload: Option<Payload>, transform: Transform, children: Vec<SceneNode> },
}

/// One entry of a draw sequence: a payload under its world transform.
#[derive(Clone, Copy, PartialEq, Eq, Structural, Debug)]
pub struct DrawCall {
    pub transform: Transform,
    pub payload: Payload,
}

/// Mathematical model of a `DrawCall`.
pub struct DrawM {
    pub transform: TransformM,
    pub payload: Payload,
}

impl View for DrawCall {
    type V = DrawM;

    open spec fn view(&self) -> DrawM {
        DrawM { transform: self.transform@, payload: self.payload }
    }
}

/// The models of a sequence of draw calls.
pub open spec fn calls_view(s: Seq<DrawCall>) -> Seq<DrawM> {
    s.map_values(|d: DrawCall| d@)
}

/// The node's own transform, relative to its parent.
pub open spec fn own_transform(n: SceneNode) -> TransformM {
    match n {
        SceneNode::Leaf { transform, .. } => transform@,
        SceneNode::Group { transform, .. } => transform@,
    }
}

/// The node's designated root payload: a leaf's payload, or a group's
/// optional one.
pub open spec fn root_payload(n: SceneNode) -> Option<Payload> {
    match n {
        SceneNode::Leaf { payload, .. } => Some(payload),
        SceneNode::Group { payload, .. } => payload,
    }
}

/// The node's ordered children (empty for a leaf).
pub open spec fn children_of(n: SceneNode) -> Seq<SceneNode> {
    match n {
        SceneNode::Leaf { .. } => Seq::empty(),
        SceneNode::Group { children, .. } => children@,
    }
}

/// What a root payload contributes to the draw sequence: one call under the
/// node's combined transform, or nothing when the group has no payload.
pub open spec fn root_emission(payload: Option<Payload>, own: TransformM) -> Seq<DrawM> {
    match payload {
        Some(p) => seq![DrawM { transform: own, payload: p }],
        None => Seq::empty(),
    }
}

/// The ordered draw sequence a node emits under the accumulated transform
/// `acc`: its root payload first, then each child's emission in list order,
/// under the node's combined transform.
pub open spec fn emission(n: SceneNode, acc: TransformM) -> Seq<DrawM>
    decreases n,
{
    match n {
        SceneNode::Leaf { payload, transform } => seq![
            DrawM { transform: compose_m(acc, transform@), payload },
        ],
        SceneNode::Group { payload, transform, children } => {
            let own = compose_m(acc, transform@);
            root_emission(payload, own) + children_emission(children@, own)
        },
    }
}

/// The concatenated emissions of a list of nodes, in order, all under the
/// same accumulated transform.
pub open spec fn children_emission(cs: Seq<SceneNode>, acc: TransformM) -> Seq<DrawM>
    decreases cs,
{
    if cs.len() == 0 {
        Seq::empty()
    } else {
        emission(cs[0], acc) + children_emission(cs.drop_first(), acc)
    }
}

/// Every transform composition a traversal of `n` under `acc` performs is
/// representable in the fixed-width coordinate type.
pub open spec fn compose_ok(n: SceneNode, acc: TransformM) -> bool
    decreases n,
{
    &&& compose_fits(acc, own_transform(n))
    &&& match n {
        SceneNode::Leaf { .. } => true,
        SceneNode::Group { children, transform, .. } => {
            forall|i: int|
                0 <= i < children@.len() ==> compose_ok(
                    #[trigger] children@[i],
                    compose_m(acc, transform@),
                )
        },
    }
}

/// Structural equivalence of two trees: the same shape with the same
/// payloads and the same transforms everywhere. Two equivalent trees are
/// indistinguishable to every operation of this library, whether or not
/// they share storage.
pub open spec fn equiv(a: SceneNode, b: SceneNode) -> bool
    decreases a,
{
    &&& root_payload(a) == root_payload(b)
    &&& own_transform(a) == own_transform(b)
    &&& (a is Leaf <==> b is Leaf)
    &&& match a {
        SceneNode::Leaf { .. } => true,
        SceneNode::Group { children, .. } => {
            &&& children_of(b).len() == children@.len()
            &&& forall|i: int|
                0 <= i < children@.len() ==> equiv(#[trigger] children@[i], children_of(b)[i])
        },
    }
}

/// How `attach` relates its result to its inputs: the parent's root payload
/// and own transform are kept, and the child is appended to the parent's
/// children in last position.
pub open spec fn attach_post(parent: SceneNode, child: SceneNode, r: SceneNode) -> bool {
    &&& r is Group
    &&& root_payload(r) == root_payload(parent)
    &&& own_transform(r) == own_transform(parent)
    &&& children_of(r) == children_of(parent).push(child)
}

/// How `attach_many` relates its result to its inputs: the parent's root
/// payload and own transform are kept, and the given nodes are appended to
/// the parent's children in order. With nothing to attach the parent comes
/// back unchanged.
pub open spec fn attach_many_post(parent: SceneNode, cs: Seq<SceneNode>, r: SceneNode) -> bool {
    &&& root_payload(r) == root_payload(parent)
    &&& own_transform(r) == own_transform(parent)
    &&& children_of(r) == children_of(parent) + cs
    &&& (cs.len() > 0 ==> r is Group)
    &&& (cs.len() == 0 ==> r == parent)
}

/// The root payload with its texture handle replaced; `None` stays `None`.
pub open spec fn with_texture_m(p: Option<Payload>, texture: u32) -> Option<Payload> {
    match p {
        Some(pl) => Some(Payload { texture, ..pl }),
        None => None,
    }
}

/// The root payload with its specular reflectance replaced.
pub open spec fn with_specular_reflectance_m(p: Option<Payload>, s: Vec3) -> Option<Payload> {
    match p {
        Some(pl) => Some(Payload { specular_reflectance: s, ..pl }),
        None => None,
    }
}

/// The root payload with its shininess exponent replaced.
pub open spec fn with_phong_q_m(p: Option<Payload>, q: i64) -> Option<Payload> {
    match p {
        Some(pl) => Some(Payload { phong_q: q, ..pl }),
        None => None,
    }
}

/// The root payload with its base color replaced.
pub open spec fn with_color_m(p: Option<Payload>, c: Vec3) -> Option<Payload> {
    match p {
        Some(pl) => Some(Payload { color: c, ..pl }),
        None => None,
    }
}

/// The root payload's local bounding-box minimum, when a root payload is
/// present.
pub open spec fn spec_bbox_min(n: SceneNode) -> Option<Vec3> {
    match root_payload(n) {
        Some(p) => Some(p.bbox_min),
        None => None,
    }
}

/// The root payload's local bounding-box maximum, when a root payload is
/// present.
pub open spec fn spec_bbox_max(n: SceneNode) -> Option<Vec3> {
    match root_payload(n) {
        Some(p) => Some(p.bbox_max),
        None => None,
    }
}

/// Sequence concatenation is associative.
pub proof fn lemma_seq_add_assoc<A>(a: Seq<A>, b: Seq<A>, c: Seq<A>)
    ensures
        (a + b) + c == a + (b + c),
{
    assert((a + b) + c =~= a + (b + c));
}

/// Viewing draw calls commutes with concatenation.
pub proof fn lemma_calls_view_add(a: Seq<DrawCall>, b: Seq<DrawCall>)
    ensures
        calls_view(a + b) == calls_view(a) + calls_view(b),
{
    assert(calls_view(a + b) =~= calls_view(a) + calls_view(b));
}

/// Appending one node to a list appends its emission to the list's.
pub proof fn lemma_children_emission_snoc(cs: Seq<SceneNode>, c: SceneNode, acc: TransformM)
    ensures
        children_emission(cs.push(c), acc) == children_emission(cs, acc) + emission(c, acc),
    decreases cs.len(),
{
    if cs.len() == 0 {
        assert(cs.push(c)[0] == c);
        assert(cs.push(c).drop_first() =~= cs);
        assert(children_emission(cs, acc) == Seq::<DrawM>::empty());
        assert(children_emission(cs.push(c), acc) == emission(c, acc) + children_emission(
            cs,
            acc,
        ));
        assert(emission(c, acc) + Seq::<DrawM>::empty() =~= Seq::<DrawM>::empty() + emission(
            c,
            acc,
        ));
    } else {
        lemma_children_emission_snoc(cs.drop_first(), c, acc);
        assert(cs.push(c).drop_first() =~= cs.drop_first().push(c));
        assert(cs.push(c)[0] == cs[0]);
        lemma_seq_add_assoc(
            emission(cs[0], acc),
            children_emission(cs.drop_first(), acc),
            emission(c, acc),
        );
    }
}

/// Law: pairwise-equivalent child lists emit identical draw sequences.
pub proof fn lemma_equiv_children_emission(xs: Seq<SceneNode>, ys: Seq<SceneNode>, acc: TransformM)
    requires
        xs.len() == ys.len(),
        forall|i: int| 0 <= i < xs.len() ==> equiv(#[trigger] xs[i], ys[i]),
    ensures
        children_emission(xs, acc) == children_emission(ys, acc),
    decreases xs,
{
    if xs.len() > 0 {
        lemma_equiv_emission(xs[0], ys[0], acc);
        lemma_equiv_children_emission(xs.drop_first(), ys.drop_first(), acc);
    }
}

/// Law: structurally equivalent trees emit identical draw sequences under
/// every accumulated transform, so a deep copy is indistinguishable from
/// its source in every traversal.
pub proof fn lemma_equiv_emission(a: SceneNode, b: SceneNode, acc: TransformM)
    requires
        equiv(a, b),
    ensures
        emission(a, acc) == emission(b, acc),
    decreases a,
{
    match a {
        SceneNode::Leaf { .. } => {
            assert(emission(a, acc) =~= emission(b, acc));
        },
        SceneNode::Group { children, .. } => {
            lemma_emission_unfold(a, acc);
            lemma_emission_unfold(b, acc);
            lemma_equiv_children_emission(
                children@,
                children_of(b),
                compose_m(acc, own_transform(a)),
            );
        },
    }
}

/// A group's emission is its root payload's contribution followed by its
/// children's, all under its combined transform.
pub proof fn lemma_emission_unfold(n: SceneNode, acc: TransformM)
    requires
        n is Group,
    ensures
        emission(n, acc) == root_emission(root_payload(n), compose_m(acc, own_transform(n)))
            + children_emission(children_of(n), compose_m(acc, own_transform(n))),
{
}

/// A leaf's emission is exactly its root payload's contribution.
pub proof fn lemma_emission_leaf(n: SceneNode, acc: TransformM)
    requires
        n is Leaf,
    ensures
        emission(n, acc) == root_emission(root_payload(n), compose_m(acc, own_transform(n))),
{
    assert(emission(n, acc) =~= root_emission(
        root_payload(n),
        compose_m(acc, own_transform(n)),
    ));
}

/// Concatenating two child lists concatenates their emissions.
pub proof fn lemma_children_emission_concat(
    xs: Seq<SceneNode>,
    ys: Seq<SceneNode>,
    acc: TransformM,
)
    ensures
        children_emission(xs + ys, acc) == children_emission(xs, acc) + children_emission(ys, acc),
    decreases xs.len(),
{
    if xs.len() == 0 {
        assert(xs + ys =~= ys);
        assert(children_emission(xs, acc) == Seq::<DrawM>::empty());
        assert(children_emission(xs, acc) + children_emission(ys, acc) =~= children_emission(
            ys,
            acc,
        ));
    } else {
        lemma_children_emission_concat(xs.drop_first(), ys, acc);
        assert((xs + ys).drop_first() =~= xs.drop_first() + ys);
        assert((xs + ys)[0] == xs[0]);
        assert((xs + ys).len() > 0);
        lemma_seq_add_assoc(
            emission(xs[0], acc),
            children_emission(xs.drop_first(), acc),
            children_emission(ys, acc),
        );
    }
}

/// Law: the traversal of `attach(parent, child)` emits exactly what the
/// parent alone emits, followed by what the child emits one level deeper,
/// under the parent's combined transform.
pub proof fn lemma_attach_emission(
    parent: SceneNode,
    child: SceneNode,
    r: SceneNode,
    acc: TransformM,
)
    requires
        attach_post(parent, child, r),
    ensures
        emission(r, acc) == emission(parent, acc) + emission(
            child,
            compose_m(acc, own_transform(parent)),
        ),
{
    let own = compose_m(acc, own_transform(parent));
    lemma_emission_unfold(r, acc);
    lemma_children_emission_snoc(children_of(parent), child, own);
    match parent {
        SceneNode::Leaf { payload, transform } => {
            lemma_emission_leaf(parent, acc);
            assert(children_emission(children_of(parent), own) == Seq::<DrawM>::empty());
            assert(Seq::<DrawM>::empty() + emission(child, own) =~= emission(child, own));
        },
        SceneNode::Group { payload, transform, children } => {
            lemma_seq_add_assoc(
                root_emission(payload, own),
                children_emission(children@, own),
                emission(child, own),
            );
        },
    }
}

/// Law: the traversal of `attach_many(parent, nodes)` emits exactly what
/// the parent alone emits, followed by the nodes' emissions in order, one
/// level deeper.
pub proof fn lemma_attach_many_emission(
    parent: SceneNode,
    cs: Seq<SceneNode>,
    r: SceneNode,
    acc: TransformM,
)
    requires
        attach_many_post(parent, cs, r),
    ensures
        emission(r, acc) == emission(parent, acc) + children_emission(
            cs,
            compose_m(acc, own_transform(parent)),
        ),
{
    let own = compose_m(acc, own_transform(parent));
    if cs.len() == 0 {
        assert(children_emission(cs, own) == Seq::<DrawM>::empty());
        assert(emission(parent, acc) + Seq::<DrawM>::empty() =~= emission(parent, acc));
    } else {
        lemma_emission_unfold(r, acc);
        lemma_children_emission_concat(children_of(parent), cs, own);
        match parent {
            SceneNode::Leaf { payload, transform } => {
                lemma_emission_leaf(parent, acc);
                assert(children_emission(children_of(parent), own) == Seq::<DrawM>::empty());
                assert(Seq::<DrawM>::empty() + children_emission(cs, own) =~= children_emission(
                    cs,
                    own,
                ));
            },
            SceneNode::Group { payload, transform, children } => {
                lemma_seq_add_assoc(
                    root_emission(payload, own),
                    children_emission(children@, own),
                    children_emission(cs, own),
                );
            },
        }
    }
}

/// Law: attaching `b` and then `c` one at a time produces the same ordered
/// emission as attaching `[b, c]` in one call — repeated attachment
/// flattens into a single ordered children list under one root.
pub proof fn lemma_attach_flatten(
    a: SceneNode,
    b: SceneNode,
    c: SceneNode,
    ab: SceneNode,
    abc: SceneNode,
    many: SceneNode,
    acc: TransformM,
)
    requires
        attach_post(a, b, ab),
        attach_post(ab, c, abc),
        attach_many_post(a, seq![b, c], many),
    ensures
        emission(abc, acc) == emission(many, acc),
{
    let own = compose_m(acc, own_transform(a));
    lemma_attach_emission(a, b, ab, acc);
    lemma_attach_emission(ab, c, abc, acc);
    lemma_attach_many_emission(a, seq![b, c], many, acc);
    assert(children_emission(Seq::<SceneNode>::empty(), own) == Seq::<DrawM>::empty());
    assert(seq![c].drop_first() =~= Seq::<SceneNode>::empty());
    assert(children_emission(seq![c], own) == emission(c, own) + children_emission(
        Seq::<SceneNode>::empty(),
        own,
    ));
    assert(seq![b, c].drop_first() =~= seq![c]);
    assert(children_emission(seq![b, c], own) == emission(b, own) + children_emission(
        seq![c],
        own,
    ));
    assert(emission(c, own) + Seq::<DrawM>::empty() =~= emission(c, own));
    lemma_seq_add_assoc(emission(a, acc), emission(b, own), emission(c, own));
}

impl SceneNode {
    /// Wrap a payload in a leaf node with the identity transform.
    pub fn leaf(payload: Payload) -> (r: SceneNode)
        ensures
            r is Leaf,
            root_payload(r) == Some(payload),
            own_transform(r) == identity_m(),
            children_of(r) == Seq::<SceneNode>::empty(),
    {
        SceneNode::Leaf { payload, transform: Transform::identity() }
    }

    /// A group node with no payload of its own: a pure grouping point.
    pub fn group(children: Vec<SceneNode>) -> (r: SceneNode)
        ensures
            r is Group,
            root_payload(r) is None,
            own_transform(r) == identity_m(),
            children_of(r) == children@,
    {
        SceneNode::Group { payload: None, transform: Transform::identity(), children }
    }

    /// Attach `child` as the last child of `self`, producing a new group
    /// whose designated root payload and transform are `self`'s. A leaf
    /// parent becomes a group with one child; a group parent keeps its
    /// existing children, in order, with `child` appended. The child keeps
    /// its internal structure as one nested subtree.
    pub fn attach(self, child: SceneNode) -> (r: SceneNode)
        ensures
            attach_post(self, child, r),
    {
        match self {
            SceneNode::Leaf { payload, transform } => {
                let mut cs: Vec<SceneNode> = Vec::new();
                cs.push(child);
                SceneNode::Group { payload: Some(payload), transform, children: cs }
            },
            SceneNode::Group { payload, transform, mut children } => {
                children.push(child);
                SceneNode::Group { payload, transform, children }
            },
        }
    }

    /// A deep copy of the tree: a new value, sharing no storage with
    /// `self`, structurally equivalent to it. Composing the copy (for
    /// instance with [`SceneNode::attach`], which consumes its operands)
    /// leaves the source in the caller's hands, untouched.
    #[verifier::loop_isolation(false)]
    pub fn duplicate(&self) -> (r: SceneNode)
        ensures
            equiv(*self, r),
        decreases *self,
    {
        match self {
            SceneNode::Leaf { payload, transform } => SceneNode::Leaf {
                payload: *payload,
                transform: *transform,
            },
            SceneNode::Group { payload, transform, children } => {
                let mut cs: Vec<SceneNode> = Vec::new();
                let mut i: usize = 0;
                while i < children.len()
                    invariant
                        i <= children.len(),
                        cs@.len() == i,
                        forall|j: int| 0 <= j < i ==> equiv(#[trigger] children@[j], cs@[j]),
                    decreases children.len() - i,
                {
                    proof {
                        assert(decreases_to!(*self => (*self)->Group_children@[i as int]));
                    }
                    let d = children[i].duplicate();
                    cs.push(d);
                    i += 1;
                }
                SceneNode::Group { payload: *payload, transform: *transform, children: cs }
            },
        }
    }

    /// Attach every node of `nodes`, in order, as further children of
    /// `self`: the same result as folding [`SceneNode::attach`] over the
    /// sequence one node at a time.
    #[verifier::loop_isolation(false)]
    pub fn attach_many(self, nodes: Vec<SceneNode>) -> (r: SceneNode)
        ensures
            attach_many_post(self, nodes@, r),
    {
        let ghost s = self;
        let ghost all = nodes@;
        let mut rest = nodes;
        let mut r = self;
        proof {
            assert(all.subrange(0, 0) =~= Seq::<SceneNode>::empty());
            assert(children_of(s) + all.subrange(0, 0) =~= children_of(s));
            assert(all.subrange(0, all.len() as int) =~= all);
        }
        while rest.len() > 0
            invariant
                rest@.len() <= all.len(),
                rest@ == all.subrange(all.len() - rest@.len(), all.len() as int),
                attach_many_post(s, all.subrange(0, all.len() - rest@.len()), r),
            decreases rest@.len(),
        {
            let ghost i = all.len() - rest@.len();
            let c = rest.remove(0);
            proof {
                assert(c == all[i]);
                assert(rest@ =~= all.subrange(i + 1, all.len() as int));
            }
            r = r.attach(c);
            proof {
                assert(all.subrange(0, i + 1) =~= all.subrange(0, i).push(all[i]));
                assert(children_of(s) + all.subrange(0, i + 1) =~= (children_of(s)
                    + all.subrange(0, i)).push(all[i]));
            }
        }
        r
    }

    /// Replace the node's own transform wholesale; the payload and the
    /// children (whose transforms are relative to this node) are kept.
    pub fn with_transform(self, transform: Transform) -> (r: SceneNode)
        ensures
            r is Leaf <==> self is Leaf,
            root_payload(r) == root_payload(self),
            children_of(r) == children_of(self),
            own_transform(r) == transform@,
    {
        match self {
            SceneNode::Leaf { payload, .. } => SceneNode::Leaf { payload, transform },
            SceneNode::Group { payload, children, .. } => SceneNode::Group {
                payload,
                transform,
                children,
            },
        }
    }

    /// The node's own transform.
    pub fn get_matrix(&self) -> (r: Transform)
        ensures
            r@ == own_transform(*self),
    {
        match self {
            SceneNode::Leaf { transform, .. } => *transform,
            SceneNode::Group { transform, .. } => *transform,
        }
    }

    /// Translate the node's local space by `(dx, dy, dz)`: the translation
    /// applies before the node's current transform, so a later zero scale
    /// placed the same way cannot cancel it.
    pub fn translate(self, dx: i64, dy: i64, dz: i64) -> (r: SceneNode)
        requires
            compose_fits(
                own_transform(self),
                (TransformM { sx: 1, sy: 1, sz: 1, tx: dx as int, ty: dy as int, tz: dz as int }),
            ),
        ensures
            r is Leaf <==> self is Leaf,
            root_payload(r) == root_payload(self),
            children_of(r) == children_of(self),
            own_transform(r) == compose_m(
                own_transform(self),
                (TransformM { sx: 1, sy: 1, sz: 1, tx: dx as int, ty: dy as int, tz: dz as int }),
            ),
    {
        let op = Transform::translate(dx, dy, dz);
        match self {
            SceneNode::Leaf { payload, transform } => {
                let t2 = transform.compose(&op);
                SceneNode::Leaf { payload, transform: t2 }
            },
            SceneNode::Group { payload, transform, children } => {
                let t2 = transform.compose(&op);
                SceneNode::Group { payload, transform: t2, children }
            },
        }
    }

    /// Scale the node's local space by `(sx, sy, sz)` per axis, applied
    /// before the node's current transform. A zero factor is legal and
    /// collapses the corresponding axis.
    pub fn scale(self, sx: i64, sy: i64, sz: i64) -> (r: SceneNode)
        requires
            compose_fits(
                own_transform(self),
                (TransformM { sx: sx as int, sy: sy as int, sz: sz as int, tx: 0, ty: 0, tz: 0 }),
            ),
        ensures
            r is Leaf <==> self is Leaf,
            root_payload(r) == root_payload(self),
            children_of(r) == children_of(self),
            own_transform(r) == compose_m(
                own_transform(self),
                (TransformM { sx: sx as int, sy: sy as int, sz: sz as int, tx: 0, ty: 0, tz: 0 }),
            ),
    {
        let op = Transform::scale(sx, sy, sz);
        match self {
            SceneNode::Leaf { payload, transform } => {
                let t2 = transform.compose(&op);
                SceneNode::Leaf { payload, transform: t2 }
            },
            SceneNode::Group { payload, transform, children } => {
                let t2 = transform.compose(&op);
                SceneNode::Group { payload, transform: t2, children }
            },
        }
    }

    /// The local bounding-box minimum of the designated root payload, or
    /// `None` when a payload-less group is asked.
    pub fn get_bbox_min(&self) -> (r: Option<Vec3>)
        ensures
            r == spec_bbox_min(*self),
    {
        match self {
            SceneNode::Leaf { payload, .. } => Some(payload.bbox_min),
            SceneNode::Group { payload: Some(p), .. } => Some(p.bbox_min),
            SceneNode::Group { payload: None, .. } => None,
        }
    }

    /// The local bounding-box maximum of the designated root payload, or
    /// `None` when a payload-less group is asked.
    pub fn get_bbox_max(&self) -> (r: Option<Vec3>)
        ensures
            r == spec_bbox_max(*self),
    {
        match self {
            SceneNode::Leaf { payload, .. } => Some(payload.bbox_max),
            SceneNode::Group { payload: Some(p), .. } => Some(p.bbox_max),
            SceneNode::Group { payload: None, .. } => None,
        }
    }

    /// Replace the texture handle of the designated root payload; children
    /// and everything else are kept. A payload-less group is unchanged.
    pub fn with_texture(self, texture: u32) -> (r: SceneNode)
        ensures
            r is Leaf <==> self is Leaf,
            own_transform(r) == own_transform(self),
            children_of(r) == children_of(self),
            root_payload(r) == with_texture_m(root_payload(self), texture),
    {
        match self {
            SceneNode::Leaf { payload, transform } => {
                let mut p = payload;
                p.texture = texture;
                SceneNode::Leaf { payload: p, transform }
            },
            SceneNode::Group { payload, transform, children } => {
                let p2 = match payload {
                    Some(pl) => {
                        let mut q = pl;
                        q.texture = texture;
                        Some(q)
                    },
                    None => None,
                };
                SceneNode::Group { payload: p2, transform, children }
            },
        }
    }

    /// Replace the specular reflectance of the designated root payload.
    pub fn with_specular_reflectance(self, specular_reflectance: &Vec3) -> (r: SceneNode)
        ensures
            r is Leaf <==> self is Leaf,
            own_transform(r) == own_transform(self),
            children_of(r) == children_of(self),
            root_payload(r) == with_specular_reflectance_m(
                root_payload(self),
                *specular_reflectance,
            ),
    {
        match self {
            SceneNode::Leaf { payload, transform } => {
                let mut p = payload;
                p.specular_reflectance = *specular_reflectance;
                SceneNode::Leaf { payload: p, transform }
            },
            SceneNode::Group { payload, transform, children } => {
                let p2 = match payload {
                    Some(pl) => {
                        let mut q = pl;
                        q.specular_reflectance = *specular_reflectance;
                        Some(q)
                    },
                    None => None,
                };
                SceneNode::Group { payload: p2, transform, children }
            },
        }
    }

    /// Replace the shininess exponent of the designated root payload.
    pub fn with_specular_phong_q(self, phong_q: i64) -> (r: SceneNode)
        ensures
            r is Leaf <==> self is Leaf,
            own_transform(r) == own_transform(self),
            children_of(r) == children_of(self),
            root_payload(r) == with_phong_q_m(root_payload(self), phong_q),
    {
        match self {
            SceneNode::Leaf { payload, transform } => {
                let mut p = payload;
                p.phong_q = phong_q;
                SceneNode::Leaf { payload: p, transform }
            },
            SceneNode::Group { payload, transform, children } => {
                let p2 = match payload {
                    Some(pl) => {
                        let mut q = pl;
                        q.phong_q = phong_q;
                        Some(q)
                    },
                    None => None,
                };
                SceneNode::Group { payload: p2, transform, children }
            },
        }
    }

    /// Replace the base color of the designated root payload.
    pub fn with_color(self, color: &Vec3) -> (r: SceneNode)
        ensures
            r is Leaf <==> self is Leaf,
            own_transform(r) == own_transform(self),
            children_of(r) == children_of(self),
            root_payload(r) == with_color_m(root_payload(self), *color),
    {
        match self {
            SceneNode::Leaf { payload, transform } => {
                let mut p = payload;
                p.color = *color;
                SceneNode::Leaf { payload: p, transform }
            },
            SceneNode::Group { payload, transform, children } => {
                let p2 = match payload {
                    Some(pl) => {
                        let mut q = pl;
                        q.color = *color;
                        Some(q)
                    },
                    None => None,
                };
                SceneNode::Group { payload: p2, transform, children }
            },
        }
    }

    /// Whether every transform composition a traversal of `self` under `acc`
    /// would perform stays representable. Callers that cannot establish
    /// [`compose_ok`] ahead of time check it with this before calling
    /// [`SceneNode::draw`].
    #[verifier::loop_isolation(false)]
    pub fn transforms_fit(&self, acc: &Transform) -> (b: bool)
        ensures
            b == compose_ok(*self, acc@),
        decreases *self,
    {
        match self {
            SceneNode::Leaf { transform, .. } => acc.try_compose(transform).is_some(),
            SceneNode::Group { payload, transform, children } => {
                match acc.try_compose(transform) {
                    None => false,
                    Some(own) => {
                        let mut i: usize = 0;
                        while i < children.len()
                            invariant
                                i <= children.len(),
                                own@ == compose_m(acc@, transform@),
                                compose_fits(acc@, transform@),
                                forall|j: int|
                                    0 <= j < i ==> compose_ok(#[trigger] children@[j], own@),
                            decreases children.len() - i,
                        {
                            proof {
                                assert(decreases_to!(*self => (*self)->Group_children@[i as int]));
                            }
                            if !children[i].transforms_fit(&own) {
                                proof {
                                    assert(!compose_ok(children@[i as int], own@));
                                }
                                return false;
                            }
                            i += 1;
                        }
                        true
                    },
                }
            },
        }
    }

    /// Traverse the tree under the accumulated transform `acc` and return
    /// the ordered draw sequence: a pre-order walk that emits each node's
    /// payload (when present) under its combined world transform, then its
    /// children in list order.
    #[verifier::loop_isolation(false)]
    pub fn draw(&self, acc: &Transform) -> (out: Vec<DrawCall>)
        requires
            compose_ok(*self, acc@),
        ensures
            calls_view(out@) == emission(*self, acc@),
        decreases *self,
    {
        match self {
            SceneNode::Leaf { payload, transform } => {
                let own = acc.compose(transform);
                let mut out: Vec<DrawCall> = Vec::new();
                out.push(DrawCall { transform: own, payload: *payload });
                proof {
                    assert(calls_view(out@) =~= emission(*self, acc@));
                }
                out
            },
            SceneNode::Group { payload, transform, children } => {
                let own = acc.compose(transform);
                let mut out: Vec<DrawCall> = Vec::new();
                match payload {
                    Some(p) => {
                        out.push(DrawCall { transform: own, payload: *p });
                    },
                    None => {},
                }
                proof {
                    assert(calls_view(out@) =~= root_emission(*payload, own@));
                    assert(children@.subrange(0, 0) =~= Seq::<SceneNode>::empty());
                    assert(root_emission(*payload, own@) + Seq::<DrawM>::empty() =~= root_emission(
                        *payload,
                        own@,
                    ));
                }
                let mut i: usize = 0;
                while i < children.len()
                    invariant
                        i <= children.len(),
                        own@ == compose_m(acc@, transform@),
                        forall|j: int|
                            0 <= j < children@.len() ==> compose_ok(
                                #[trigger] children@[j],
                                own@,
                            ),
                        calls_view(out@) == root_emission(*payload, own@) + children_emission(
                            children@.subrange(0, i as int),
                            own@,
                        ),
                    decreases children.len() - i,
                {
                    let ghost prefix = children@.subrange(0, i as int);
                    proof {
                        assert(decreases_to!(*self => (*self)->Group_children@[i as int]));
                    }
                    let mut sub = children[i].draw(&own);
                    proof {
                        lemma_calls_view_add(out@, sub@);
                        lemma_children_emission_snoc(prefix, children@[i as int], own@);
                        lemma_seq_add_assoc(
                            root_emission(*payload, own@),
                            children_emission(prefix, own@),
                            emission(children@[i as int], own@),
                        );
                        assert(children@.subrange(0, i + 1) =~= prefix.push(
                            children@[i as int],
                        ));
                    }
                    out.append(&mut sub);
                    i += 1;
                }
                proof {
                    assert(children@.subrange(0, children@.len() as int) =~= children@);
                }
                out
            },
        }
    }
}

} // verus!
