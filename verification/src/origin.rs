//! Origins and reference permissions: which storage a reference may designate.

use crate::text::same_string;
use crate::text::{compare_text, order_int, order_text, order_text_laws, order_text_transitive};
use vstd::prelude::*;

verus! {

/// Stable identity of a value binding.
#[derive(Debug, Clone, Copy, PartialEq, Eq, PartialOrd, Ord, Hash, Structural)]
pub struct OwnerId(pub u32);

/// Stable identity of a declared or inferred origin parameter.
#[derive(Debug, Clone, Copy, PartialEq, Eq, PartialOrd, Ord, Hash, Structural)]
pub struct OriginParamId(pub u32);

/// One projection step within an origin-tracked place.
#[derive(Debug, PartialEq, Eq)]
#[allow(inconsistent_fields)]
pub enum OriginSeg {
    /// A named struct field.
    Field(String),
    /// An index whose value is not part of the static origin identity.
    AnyIndex,
}

/// What a [`OriginSeg`] holds.
#[allow(inconsistent_fields)]
pub enum OriginSegView {
    Field(Seq<char>),
    AnyIndex,
}

/// An owner together with its statically known projection path.
#[derive(Debug, PartialEq, Eq)]
pub struct OriginPlace {
    pub root: OwnerId,
    pub path: Vec<OriginSeg>,
}

/// What a [`OriginPlace`] holds.
pub struct OriginPlaceView {
    pub root: OwnerId,
    pub path: Seq<OriginSegView>,
}

/// The storage a reference may designate.
#[derive(Debug, PartialEq, Eq)]
#[allow(inconsistent_fields)]
pub enum Origin {
    Param(OriginParamId),
    Place(OriginPlace),
    Union(Vec<Origin>),
    Static,
    Untracked { mutable: bool },
}

/// What a [`Origin`] holds.
#[allow(inconsistent_fields)]
pub enum OriginView {
    Param(OriginParamId),
    Place(OriginPlaceView),
    Union(Seq<OriginView>),
    Static,
    Untracked { mutable: bool },
}

/// Permission available through a checked reference.
#[derive(Debug, Clone, Copy, PartialEq, Eq, Structural)]
pub enum Mutability {
    Immutable,
    Mutable,
    Param(OriginParamId),
}

/// Provenance kept by an origin-bearing unsafe pointer type. `Legacy` is the
/// one-argument spelling, which carries no origin.
#[derive(Debug, PartialEq, Eq)]
#[allow(inconsistent_fields)]
pub enum PointerOrigin {
    Legacy,
    Place { place: OriginPlace, mutable: bool },
    Param { id: OriginParamId, mutability: Mutability },
    Static,
    Untracked { mutable: bool },
    UnsafeAny { mutable: bool },
}

/// What a [`PointerOrigin`] holds.
#[allow(inconsistent_fields)]
pub enum PointerOriginView {
    Legacy,
    Place { place: OriginPlaceView, mutable: bool },
    Param { id: OriginParamId, mutability: Mutability },
    Static,
    Untracked { mutable: bool },
    UnsafeAny { mutable: bool },
}

pub open spec fn origin_seg_view(x: OriginSeg) -> OriginSegView
    decreases x,
{
    match x {
        OriginSeg::Field(a0) => OriginSegView::Field(a0@),
        OriginSeg::AnyIndex => OriginSegView::AnyIndex,
    }
}

impl View for OriginSeg {
    type V = OriginSegView;

    open spec fn view(&self) -> OriginSegView {
        origin_seg_view(*self)
    }
}

pub fn clone_origin_seg(x: &OriginSeg) -> (r: OriginSeg)
    ensures
        origin_seg_view(r) == origin_seg_view(*x),
    decreases x,
{
    match x {
        OriginSeg::Field(a0) => OriginSeg::Field(a0.clone()),
        OriginSeg::AnyIndex => OriginSeg::AnyIndex,
    }
}

impl Clone for OriginSeg {
    fn clone(&self) -> (r: Self)
        ensures
            r@ == self@,
    {
        clone_origin_seg(self)
    }
}

pub open spec fn origin_place_view(x: OriginPlace) -> OriginPlaceView
    decreases x,
{
    OriginPlaceView {
        root: x.root,
        path: origin_seg_list_view(x.path@),
    }
}

impl View for OriginPlace {
    type V = OriginPlaceView;

    open spec fn view(&self) -> OriginPlaceView {
        origin_place_view(*self)
    }
}

pub fn clone_origin_place(x: &OriginPlace) -> (r: OriginPlace)
    ensures
        origin_place_view(r) == origin_place_view(*x),
    decreases x,
{
    let r = OriginPlace {
        root: x.root,
        path: clone_origin_seg_list((&x.path)),
    };
    proof {
        unfold_origin_place(*x);
        unfold_origin_place(r);
    }
    r
}

impl Clone for OriginPlace {
    fn clone(&self) -> (r: Self)
        ensures
            r@ == self@,
    {
        clone_origin_place(self)
    }
}

pub open spec fn origin_view(x: Origin) -> OriginView
    decreases x,
{
    match x {
        Origin::Param(a0) => OriginView::Param(a0),
        Origin::Place(a0) => OriginView::Place(origin_place_view(a0)),
        Origin::Union(a0) => OriginView::Union(origin_list_view(a0@)),
        Origin::Static => OriginView::Static,
        Origin::Untracked { mutable } => OriginView::Untracked { mutable },
    }
}

impl View for Origin {
    type V = OriginView;

    open spec fn view(&self) -> OriginView {
        origin_view(*self)
    }
}

pub fn clone_origin(x: &Origin) -> (r: Origin)
    ensures
        origin_view(r) == origin_view(*x),
    decreases x,
{
    let r = match x {
        Origin::Param(a0) => Origin::Param(*a0),
        Origin::Place(a0) => Origin::Place(clone_origin_place(a0)),
        Origin::Union(a0) => Origin::Union(clone_origin_list(a0)),
        Origin::Static => Origin::Static,
        Origin::Untracked { mutable } => Origin::Untracked { mutable: *mutable },
    };
    proof {
        unfold_origin(*x);
        unfold_origin(r);
    }
    r
}

impl Clone for Origin {
    fn clone(&self) -> (r: Self)
        ensures
            r@ == self@,
    {
        clone_origin(self)
    }
}

pub open spec fn pointer_origin_view(x: PointerOrigin) -> PointerOriginView
    decreases x,
{
    match x {
        PointerOrigin::Legacy => PointerOriginView::Legacy,
        PointerOrigin::Place { place, mutable } => PointerOriginView::Place { place: origin_place_view(place), mutable },
        PointerOrigin::Param { id, mutability } => PointerOriginView::Param { id, mutability },
        PointerOrigin::Static => PointerOriginView::Static,
        PointerOrigin::Untracked { mutable } => PointerOriginView::Untracked { mutable },
        PointerOrigin::UnsafeAny { mutable } => PointerOriginView::UnsafeAny { mutable },
    }
}

impl View for PointerOrigin {
    type V = PointerOriginView;

    open spec fn view(&self) -> PointerOriginView {
        pointer_origin_view(*self)
    }
}

pub fn clone_pointer_origin(x: &PointerOrigin) -> (r: PointerOrigin)
    ensures
        pointer_origin_view(r) == pointer_origin_view(*x),
    decreases x,
{
    match x {
        PointerOrigin::Legacy => PointerOrigin::Legacy,
        PointerOrigin::Place { place, mutable } => PointerOrigin::Place { place: clone_origin_place(place), mutable: *mutable },
        PointerOrigin::Param { id, mutability } => PointerOrigin::Param { id: *id, mutability: *mutability },
        PointerOrigin::Static => PointerOrigin::Static,
        PointerOrigin::Untracked { mutable } => PointerOrigin::Untracked { mutable: *mutable },
        PointerOrigin::UnsafeAny { mutable } => PointerOrigin::UnsafeAny { mutable: *mutable },
    }
}

impl Clone for PointerOrigin {
    fn clone(&self) -> (r: Self)
        ensures
            r@ == self@,
    {
        clone_pointer_origin(self)
    }
}

pub open spec fn origin_seg_list_view(s: Seq<OriginSeg>) -> Seq<OriginSegView>
    decreases s,
{
    Seq::new(s.len(), |i: int| if 0 <= i < s.len() { origin_seg_view(s[i]) } else { arbitrary() })
}

pub fn clone_origin_seg_list(v: &Vec<OriginSeg>) -> (r: Vec<OriginSeg>)
    ensures
        origin_seg_list_view(r@) == origin_seg_list_view(v@),
        r@.len() == v@.len(),
    decreases v@,
{
    let mut r: Vec<OriginSeg> = Vec::new();
    for i in 0..v.len()
        invariant
            r@.len() == i,
            forall|j: int| 0 <= j < i ==> origin_seg_view((#[trigger] r@[j])) == origin_seg_view(v@[j]),
    {
        r.push(clone_origin_seg((&v[i])));
    }
    assert(origin_seg_list_view(r@) =~= origin_seg_list_view(v@));
    r
}

pub open spec fn origin_list_view(s: Seq<Origin>) -> Seq<OriginView>
    decreases s,
{
    Seq::new(s.len(), |i: int| if 0 <= i < s.len() { origin_view(s[i]) } else { arbitrary() })
}

pub fn clone_origin_list(v: &Vec<Origin>) -> (r: Vec<Origin>)
    ensures
        origin_list_view(r@) == origin_list_view(v@),
        r@.len() == v@.len(),
    decreases v@,
{
    let mut r: Vec<Origin> = Vec::new();
    for i in 0..v.len()
        invariant
            r@.len() == i,
            forall|j: int| 0 <= j < i ==> origin_view((#[trigger] r@[j])) == origin_view(v@[j]),
    {
        r.push(clone_origin((&v[i])));
    }
    assert(origin_list_view(r@) =~= origin_list_view(v@));
    r
}

pub proof fn unfold_origin_place(x: OriginPlace)
    ensures
        origin_place_view(x) == (OriginPlaceView { root: x.root, path: origin_seg_list_view(x.path@) }),
{
        assert(origin_place_view(x).path =~= origin_seg_list_view(x.path@));
}

pub proof fn unfold_origin(x: Origin)
    ensures
        match x {
            Origin::Union(a0) => origin_view(x) == OriginView::Union(origin_list_view(a0@)),
            _ => true,
        },
{
    match x {
        Origin::Union(a0) => {
            assert(origin_view(x)->Union_0 =~= origin_list_view(a0@));
        },
        _ => {},
    }
}

/// Whether two values hold the same.
pub fn same_origin_seg(a: &OriginSeg, b: &OriginSeg) -> (r: bool)
    ensures
        r == (origin_seg_view(*a) == origin_seg_view(*b)),
    decreases a,
{
    match (a, b) {
        (OriginSeg::Field(p0), OriginSeg::Field(q0)) => same_string(p0, q0),
        (OriginSeg::AnyIndex, OriginSeg::AnyIndex) => true,
        _ => false,
    }
}

/// Whether two values hold the same.
pub fn same_origin_place(a: &OriginPlace, b: &OriginPlace) -> (r: bool)
    ensures
        r == (origin_place_view(*a) == origin_place_view(*b)),
    decreases a,
{
    proof {
        unfold_origin_place(*a);
        unfold_origin_place(*b);
    }
    a.root == b.root && same_origin_seg_list((&a.path), (&b.path))
}

/// Whether two values hold the same.
pub fn same_origin(a: &Origin, b: &Origin) -> (r: bool)
    ensures
        r == (origin_view(*a) == origin_view(*b)),
    decreases a,
{
    proof {
        unfold_origin(*a);
        unfold_origin(*b);
    }
    match (a, b) {
        (Origin::Param(p0), Origin::Param(q0)) => *p0 == *q0,
        (Origin::Place(p0), Origin::Place(q0)) => same_origin_place(p0, q0),
        (Origin::Union(p0), Origin::Union(q0)) => same_origin_list(p0, q0),
        (Origin::Static, Origin::Static) => true,
        (Origin::Untracked { mutable: p0 }, Origin::Untracked { mutable: q0 }) => *p0 == *q0,
        _ => false,
    }
}

/// Whether two values hold the same.
pub fn same_pointer_origin(a: &PointerOrigin, b: &PointerOrigin) -> (r: bool)
    ensures
        r == (pointer_origin_view(*a) == pointer_origin_view(*b)),
    decreases a,
{
    match (a, b) {
        (PointerOrigin::Legacy, PointerOrigin::Legacy) => true,
        (PointerOrigin::Place { place: p0, mutable: p1 }, PointerOrigin::Place { place: q0, mutable: q1 }) => same_origin_place(p0, q0) && *p1 == *q1,
        (PointerOrigin::Param { id: p0, mutability: p1 }, PointerOrigin::Param { id: q0, mutability: q1 }) => *p0 == *q0 && *p1 == *q1,
        (PointerOrigin::Static, PointerOrigin::Static) => true,
        (PointerOrigin::Untracked { mutable: p0 }, PointerOrigin::Untracked { mutable: q0 }) => *p0 == *q0,
        (PointerOrigin::UnsafeAny { mutable: p0 }, PointerOrigin::UnsafeAny { mutable: q0 }) => *p0 == *q0,
        _ => false,
    }
}

pub fn same_origin_seg_list(a: &Vec<OriginSeg>, b: &Vec<OriginSeg>) -> (r: bool)
    ensures
        r == (origin_seg_list_view(a@) == origin_seg_list_view(b@)),
    decreases a@,
{
    if a.len() != b.len() {
        assert(origin_seg_list_view(a@).len() != origin_seg_list_view(b@).len());
        return false;
    }
    for i in 0..a.len()
        invariant
            a@.len() == b@.len(),
            forall|j: int| 0 <= j < i ==> origin_seg_view((#[trigger] a@[j])) == origin_seg_view(b@[j]),
    {
        if !(same_origin_seg((&a[i]), (&b[i]))) {
            assert(origin_seg_list_view(a@)[i as int] != origin_seg_list_view(b@)[i as int]);
            return false;
        }
    }
    assert(origin_seg_list_view(a@) =~= origin_seg_list_view(b@));
    true
}

pub fn same_origin_list(a: &Vec<Origin>, b: &Vec<Origin>) -> (r: bool)
    ensures
        r == (origin_list_view(a@) == origin_list_view(b@)),
    decreases a@,
{
    if a.len() != b.len() {
        assert(origin_list_view(a@).len() != origin_list_view(b@).len());
        return false;
    }
    for i in 0..a.len()
        invariant
            a@.len() == b@.len(),
            forall|j: int| 0 <= j < i ==> origin_view((#[trigger] a@[j])) == origin_view(b@[j]),
    {
        if !(same_origin((&a[i]), (&b[i]))) {
            assert(origin_list_view(a@)[i as int] != origin_list_view(b@)[i as int]);
            return false;
        }
    }
    assert(origin_list_view(a@) =~= origin_list_view(b@));
    true
}

/// An origin in a callable contract. Roots name parameter slots, so that the
/// contract can be substituted with caller places.
#[derive(Debug, PartialEq, Eq)]
pub enum SigOrigin {
    Self_,
    Param(usize),
    Static,
    Untracked { mutable: bool },
    Projected(Box<SigOrigin>, Vec<OriginSeg>),
    Union(Vec<SigOrigin>),
    Infer,
}

/// Mutability component of a callable reference contract.
#[derive(Debug, PartialEq, Eq)]
pub enum SigMutability {
    Immutable,
    Mutable,
    BoolParam(String),
    Infer,
}

/// Reference result or parameter contract kept in a callable signature.
#[derive(Debug, PartialEq, Eq)]
pub struct RefSig {
    pub origin: SigOrigin,
    pub mutability: SigMutability,
}

/// The tracked origin a pointer provenance corresponds to. Only a place or an
/// origin parameter carries an owner loan.
pub open spec fn tracked_origin(p: PointerOriginView) -> Option<OriginView> {
    match p {
        PointerOriginView::Place { place, mutable } => Some(OriginView::Place(place)),
        PointerOriginView::Param { id, mutability } => Some(OriginView::Param(id)),
        _ => None,
    }
}

impl PointerOrigin {
    /// The loan-tracked [`Origin`] of a pointer that designates checked storage.
    pub fn as_origin(&self) -> (r: Option<Origin>)
        ensures
            (match r {
                Some(origin) => Some(origin@),
                None => None,
            }) == tracked_origin(self@),
    {
        match self {
            PointerOrigin::Place { place, .. } => Some(Origin::Place(place.clone())),
            PointerOrigin::Param { id, .. } => Some(Origin::Param(*id)),
            _ => None,
        }
    }
}

/// The order of projection steps: fields by name, then the wildcard index.
pub open spec fn order_seg(a: OriginSegView, b: OriginSegView) -> int {
    match (a, b) {
        (OriginSegView::Field(x), OriginSegView::Field(y)) => order_text(x, y, 0),
        (OriginSegView::Field(_), OriginSegView::AnyIndex) => -1,
        (OriginSegView::AnyIndex, OriginSegView::Field(_)) => 1,
        (OriginSegView::AnyIndex, OriginSegView::AnyIndex) => 0,
    }
}

/// Paths in lexicographic order, compared from index `i` on.
pub open spec fn order_path(a: Seq<OriginSegView>, b: Seq<OriginSegView>, i: nat) -> int
    decreases a.len() - i,
{
    if i >= a.len() {
        if i >= b.len() {
            0
        } else {
            -1
        }
    } else if i >= b.len() {
        1
    } else if order_seg(a[i as int], b[i as int]) != 0 {
        order_seg(a[i as int], b[i as int])
    } else {
        order_path(a, b, i + 1)
    }
}

pub open spec fn order_place(a: OriginPlaceView, b: OriginPlaceView) -> int {
    if a.root != b.root {
        order_int(a.root.0 as int, b.root.0 as int)
    } else {
        order_path(a.path, b.path, 0)
    }
}

pub open spec fn origin_rank(o: OriginView) -> int {
    match o {
        OriginView::Param(_) => 0,
        OriginView::Place(_) => 1,
        OriginView::Static => 2,
        OriginView::Untracked { .. } => 3,
        OriginView::Union(_) => 4,
    }
}

/// The canonical order of origins: by kind, then by content; unions by size
/// first.
pub open spec fn order_origin(a: OriginView, b: OriginView) -> int
    decreases a, 0nat,
{
    if origin_rank(a) != origin_rank(b) {
        order_int(origin_rank(a), origin_rank(b))
    } else {
        match (a, b) {
            (OriginView::Param(x), OriginView::Param(y)) => order_int(x.0 as int, y.0 as int),
            (OriginView::Place(x), OriginView::Place(y)) => order_place(x, y),
            (OriginView::Untracked { mutable: x }, OriginView::Untracked { mutable: y }) => if x
                == y {
                0
            } else if x {
                1
            } else {
                -1
            },
            (OriginView::Union(x), OriginView::Union(y)) => if x.len() != y.len() {
                order_int(x.len() as int, y.len() as int)
            } else {
                order_members(x, y, 0)
            },
            _ => 0,
        }
    }
}

pub open spec fn order_members(a: Seq<OriginView>, b: Seq<OriginView>, i: nat) -> int
    decreases a, a.len() - i,
{
    if i >= a.len() || i >= b.len() {
        0
    } else if order_origin(a[i as int], b[i as int]) != 0 {
        order_origin(a[i as int], b[i as int])
    } else {
        order_members(a, b, i + 1)
    }
}

proof fn order_seg_laws(a: OriginSegView, b: OriginSegView)
    ensures
        order_seg(b, a) == -order_seg(a, b),
        order_seg(a, b) == 0 <==> a == b,
{
    match (a, b) {
        (OriginSegView::Field(x), OriginSegView::Field(y)) => order_text_laws(x, y, 0),
        _ => {},
    }
}

proof fn order_seg_transitive(a: OriginSegView, b: OriginSegView, c: OriginSegView)
    requires
        order_seg(a, b) <= 0,
        order_seg(b, c) <= 0,
    ensures
        order_seg(a, c) <= 0,
{
    match (a, b, c) {
        (OriginSegView::Field(x), OriginSegView::Field(y), OriginSegView::Field(z)) => {
            order_text_transitive(x, y, z, 0);
        },
        _ => {},
    }
}

proof fn order_path_laws(a: Seq<OriginSegView>, b: Seq<OriginSegView>, i: nat)
    requires
        i <= a.len(),
        i <= b.len(),
        forall|k: int| 0 <= k < i ==> a[k] == b[k],
    ensures
        order_path(b, a, i) == -order_path(a, b, i),
        order_path(a, b, i) == 0 <==> a == b,
    decreases a.len() - i,
{
    if i < a.len() && i < b.len() {
        order_seg_laws(a[i as int], b[i as int]);
        if a[i as int] == b[i as int] {
            order_path_laws(a, b, i + 1);
        }
    } else if a.len() == b.len() {
        assert(a =~= b);
    }
}

proof fn order_path_transitive(
    a: Seq<OriginSegView>,
    b: Seq<OriginSegView>,
    c: Seq<OriginSegView>,
    i: nat,
)
    requires
        order_path(a, b, i) <= 0,
        order_path(b, c, i) <= 0,
    ensures
        order_path(a, c, i) <= 0,
    decreases a.len() - i,
{
    if i < a.len() && i < b.len() && i < c.len() {
        order_seg_laws(a[i as int], b[i as int]);
        order_seg_laws(b[i as int], c[i as int]);
        order_seg_laws(a[i as int], c[i as int]);
        order_seg_transitive(a[i as int], b[i as int], c[i as int]);
        if a[i as int] == b[i as int] && b[i as int] == c[i as int] {
            order_path_transitive(a, b, c, i + 1);
        } else if a[i as int] == c[i as int] {
            order_seg_laws(b[i as int], a[i as int]);
        }
    }
}

/// The canonical order tells distinct origins apart, is symmetric in sign, and puts
/// parameters before places, then static and untracked origins, then unions.
pub proof fn order_origin_laws(a: OriginView, b: OriginView)
    ensures
        order_origin(b, a) == -order_origin(a, b),
        order_origin(a, b) == 0 <==> a == b,
        origin_rank(a) < origin_rank(b) ==> order_origin(a, b) < 0,
    decreases a, 0nat,
{
    match (a, b) {
        (OriginView::Place(x), OriginView::Place(y)) => {
            if x.root == y.root {
                order_path_laws(x.path, y.path, 0);
            }
        },
        (OriginView::Union(x), OriginView::Union(y)) => {
            if x.len() == y.len() {
                order_members_laws(x, y, 0);
            }
        },
        _ => {},
    }
}

proof fn order_members_laws(a: Seq<OriginView>, b: Seq<OriginView>, i: nat)
    requires
        a.len() == b.len(),
        i <= a.len(),
        forall|k: int| 0 <= k < i ==> a[k] == b[k],
    ensures
        order_members(b, a, i) == -order_members(a, b, i),
        order_members(a, b, i) == 0 <==> a == b,
    decreases a, a.len() - i,
{
    if i < a.len() {
        order_origin_laws(a[i as int], b[i as int]);
        if a[i as int] == b[i as int] {
            order_members_laws(a, b, i + 1);
        }
    } else {
        assert(a =~= b);
    }
}

/// The canonical order is transitive.
pub proof fn order_origin_transitive(a: OriginView, b: OriginView, c: OriginView)
    requires
        order_origin(a, b) <= 0,
        order_origin(b, c) <= 0,
    ensures
        order_origin(a, c) <= 0,
    decreases a, 0nat,
{
    match (a, b, c) {
        (OriginView::Place(x), OriginView::Place(y), OriginView::Place(z)) => {
            if x.root == y.root && y.root == z.root {
                order_path_transitive(x.path, y.path, z.path, 0);
            }
        },
        (OriginView::Union(x), OriginView::Union(y), OriginView::Union(z)) => {
            if x.len() == y.len() && y.len() == z.len() {
                order_members_transitive(x, y, z, 0);
            }
        },
        _ => {},
    }
}

proof fn order_members_transitive(
    a: Seq<OriginView>,
    b: Seq<OriginView>,
    c: Seq<OriginView>,
    i: nat,
)
    requires
        a.len() == b.len(),
        b.len() == c.len(),
        order_members(a, b, i) <= 0,
        order_members(b, c, i) <= 0,
    ensures
        order_members(a, c, i) <= 0,
    decreases a, a.len() - i,
{
    if i < a.len() {
        order_origin_laws(a[i as int], b[i as int]);
        order_origin_laws(b[i as int], c[i as int]);
        order_origin_laws(a[i as int], c[i as int]);
        order_origin_transitive(a[i as int], b[i as int], c[i as int]);
        if a[i as int] == b[i as int] && b[i as int] == c[i as int] {
            order_members_transitive(a, b, c, i + 1);
        } else if a[i as int] == c[i as int] {
            order_origin_laws(b[i as int], a[i as int]);
        }
    }
}

fn compare_int(a: u32, b: u32) -> (r: i32)
    ensures
        r == order_int(a as int, b as int),
{
    if a < b {
        -1
    } else if a > b {
        1
    } else {
        0
    }
}

fn compare_seg(a: &OriginSeg, b: &OriginSeg) -> (r: i32)
    ensures
        r == order_seg(a@, b@),
{
    match (a, b) {
        (OriginSeg::Field(x), OriginSeg::Field(y)) => compare_text(x.as_str(), y.as_str()),
        (OriginSeg::Field(_), OriginSeg::AnyIndex) => -1,
        (OriginSeg::AnyIndex, OriginSeg::Field(_)) => 1,
        (OriginSeg::AnyIndex, OriginSeg::AnyIndex) => 0,
    }
}

fn compare_path(a: &Vec<OriginSeg>, b: &Vec<OriginSeg>) -> (r: i32)
    ensures
        r == order_path(origin_seg_list_view(a@), origin_seg_list_view(b@), 0),
{
    let ghost x = origin_seg_list_view(a@);
    let ghost y = origin_seg_list_view(b@);
    let mut i: usize = 0;
    while i < a.len() && i < b.len()
        invariant
            i <= a.len(),
            i <= b.len(),
            x == origin_seg_list_view(a@),
            y == origin_seg_list_view(b@),
            order_path(x, y, i as nat) == order_path(x, y, 0),
        decreases a.len() - i,
    {
        let c = compare_seg(&a[i], &b[i]);
        assert(c == order_seg(x[i as int], y[i as int]));
        if c != 0 {
            return c;
        }
        i = i + 1;
    }
    if i < a.len() {
        1
    } else if i < b.len() {
        -1
    } else {
        0
    }
}

fn rank_of(o: &Origin) -> (r: u32)
    ensures
        r == origin_rank(o@),
{
    match o {
        Origin::Param(_) => 0,
        Origin::Place(_) => 1,
        Origin::Static => 2,
        Origin::Untracked { .. } => 3,
        Origin::Union(_) => 4,
    }
}

/// Compare two origins in the canonical order: negative, zero or positive.
pub fn compare_origin(a: &Origin, b: &Origin) -> (r: i32)
    ensures
        r == order_origin(a@, b@),
    decreases a, 0nat,
{
    let c = compare_int(rank_of(a), rank_of(b));
    if c != 0 {
        return c;
    }
    match (a, b) {
        (Origin::Param(x), Origin::Param(y)) => compare_int(x.0, y.0),
        (Origin::Place(x), Origin::Place(y)) => if x.root != y.root {
            compare_int(x.root.0, y.root.0)
        } else {
            compare_path(&x.path, &y.path)
        },
        (Origin::Untracked { mutable: x }, Origin::Untracked { mutable: y }) => if *x == *y {
            0
        } else if *x {
            1
        } else {
            -1
        },
        (Origin::Union(x), Origin::Union(y)) => if x.len() < y.len() {
            -1
        } else if x.len() > y.len() {
            1
        } else {
            compare_members(x, y)
        },
        _ => 0,
    }
}

fn compare_members(a: &Vec<Origin>, b: &Vec<Origin>) -> (r: i32)
    ensures
        r == order_members(origin_list_view(a@), origin_list_view(b@), 0),
    decreases a@, 1nat,
{
    let ghost x = origin_list_view(a@);
    let ghost y = origin_list_view(b@);
    let mut i: usize = 0;
    while i < a.len() && i < b.len()
        invariant
            i <= a.len(),
            i <= b.len(),
            x == origin_list_view(a@),
            y == origin_list_view(b@),
            order_members(x, y, i as nat) == order_members(x, y, 0),
        decreases a.len() - i,
    {
        let c = compare_origin(&a[i], &b[i]);
        assert(c == order_origin(x[i as int], y[i as int]));
        if c != 0 {
            return c;
        }
        i = i + 1;
    }
    0
}

/// The members an origin contributes to a union: those of a union, however deep they are
/// nested, else itself.
pub open spec fn members_of(o: OriginView) -> Seq<OriginView>
    decreases o,
{
    match o {
        OriginView::Union(inner) => flattened(inner),
        _ => seq![o],
    }
}

/// The members of a list of origins, with unions replaced by their members.
pub open spec fn flattened(s: Seq<OriginView>) -> Seq<OriginView>
    decreases s,
{
    if s.len() == 0 {
        Seq::empty()
    } else {
        members_of(s[0]) + flattened(s.drop_first())
    }
}

/// A sorted sequence with `x` put where it belongs, unless it is there already.
pub open spec fn placed(s: Seq<OriginView>, x: OriginView) -> Seq<OriginView>
    decreases s.len(),
{
    if s.len() == 0 || order_origin(x, s.last()) > 0 {
        s.push(x)
    } else if order_origin(x, s.last()) == 0 {
        s
    } else {
        placed(s.drop_last(), x).push(s.last())
    }
}

/// `base` with all of `s` put where they belong.
pub open spec fn merged(s: Seq<OriginView>, base: Seq<OriginView>) -> Seq<OriginView>
    decreases s.len(),
{
    if s.len() == 0 {
        base
    } else {
        placed(merged(s.drop_first(), base), s[0])
    }
}

/// The origin for a sorted sequence of members: a lone member stands for itself.
pub open spec fn union_value(members: Seq<OriginView>) -> OriginView {
    if members.len() == 1 {
        members[0]
    } else {
        OriginView::Union(members)
    }
}

/// The canonical union of origins.
pub open spec fn union_of(s: Seq<OriginView>) -> OriginView {
    union_value(merged(flattened(s), Seq::empty()))
}

/// Whether a sequence is sorted without repetition.
pub open spec fn increasing(s: Seq<OriginView>) -> bool {
    forall|i: int, j: int|
        0 <= i < j < s.len() ==> order_origin(#[trigger] s[i], #[trigger] s[j]) < 0
}

proof fn merged_concat(a: Seq<OriginView>, b: Seq<OriginView>, base: Seq<OriginView>)
    ensures
        merged(a + b, base) == merged(a, merged(b, base)),
    decreases a.len(),
{
    if a.len() == 0 {
        assert(a + b =~= b);
    } else {
        assert((a + b).drop_first() =~= a.drop_first() + b);
        merged_concat(a.drop_first(), b, base);
    }
}

proof fn placed_keeps(s: Seq<OriginView>, x: OriginView)
    requires
        increasing(s),
    ensures
        increasing(placed(s, x)),
        forall|y: OriginView| #[trigger] placed(s, x).contains(y) <==> s.contains(y) || y == x,
    decreases s.len(),
{
    let p = placed(s, x);
    if s.len() == 0 || order_origin(x, s.last()) > 0 {
        assert forall|i: int, j: int| 0 <= i < j < p.len() implies order_origin(
            #[trigger] p[i],
            #[trigger] p[j],
        ) < 0 by {
            if j == s.len() {
                order_origin_laws(x, s.last());
                if i < s.len() - 1 {
                    order_origin_transitive(s[i], s.last(), x);
                    order_origin_laws(s[i], x);
                    order_origin_laws(s[i], s.last());
                }
            }
        }
        assert forall|y: OriginView| #[trigger] p.contains(y) <==> s.contains(y) || y == x by {
            if s.contains(y) {
                let k = choose|k: int| 0 <= k < s.len() && s[k] == y;
                assert(p[k] == y);
            }
            if y == x {
                assert(p[s.len() as int] == y);
            }
        }
    } else if order_origin(x, s.last()) == 0 {
        order_origin_laws(x, s.last());
        assert(s[s.len() - 1] == x);
    } else {
        let t = s.drop_last();
        placed_keeps(t, x);
        let q = placed(t, x);
        assert forall|i: int, j: int| 0 <= i < j < p.len() implies order_origin(
            #[trigger] p[i],
            #[trigger] p[j],
        ) < 0 by {
            if j == q.len() {
                assert(q.contains(q[i]));
                if q[i] != x {
                    let k = choose|k: int| 0 <= k < t.len() && t[k] == q[i];
                    assert(s[k] == q[i]);
                }
            }
        }
        assert forall|y: OriginView| #[trigger] p.contains(y) <==> s.contains(y) || y == x by {
            if p.contains(y) {
                let k = choose|k: int| 0 <= k < p.len() && p[k] == y;
                if k < q.len() {
                    assert(q.contains(y));
                    if y != x {
                        let m = choose|m: int| 0 <= m < t.len() && t[m] == y;
                        assert(s[m] == y);
                    }
                } else {
                    assert(s[s.len() - 1] == y);
                }
            }
            if s.contains(y) || y == x {
                if y == s.last() {
                    assert(p[p.len() - 1] == y);
                } else {
                    if s.contains(y) {
                        let k = choose|k: int| 0 <= k < s.len() && s[k] == y;
                        assert(t[k] == y);
                    }
                    assert(q.contains(y));
                    let k = choose|k: int| 0 <= k < q.len() && q[k] == y;
                    assert(p[k] == y);
                }
            }
        }
    }
}

proof fn merged_keeps(s: Seq<OriginView>, base: Seq<OriginView>)
    requires
        increasing(base),
    ensures
        increasing(merged(s, base)),
        forall|y: OriginView|
            #[trigger] merged(s, base).contains(y) <==> base.contains(y) || s.contains(y),
    decreases s.len(),
{
    if s.len() > 0 {
        let t = s.drop_first();
        merged_keeps(t, base);
        placed_keeps(merged(t, base), s[0]);
        assert forall|y: OriginView| s.contains(y) <==> t.contains(y) || y == s[0] by {
            if s.contains(y) {
                let k = choose|k: int| 0 <= k < s.len() && s[k] == y;
                if k > 0 {
                    assert(t[k - 1] == y);
                }
            }
            if t.contains(y) {
                let k = choose|k: int| 0 <= k < t.len() && t[k] == y;
                assert(s[k + 1] == y);
            }
        }
    }
}

proof fn drop_last_keeps(s: Seq<OriginView>, t: Seq<OriginView>, y: OriginView)
    requires
        increasing(s),
        s.len() > 0,
        t.len() > 0,
        s.last() == t.last(),
        s.drop_last().contains(y),
        s.contains(y) ==> t.contains(y),
    ensures
        t.drop_last().contains(y),
{
    let u = s.drop_last();
    let k = choose|k: int| 0 <= k < u.len() && u[k] == y;
    assert(s[k] == y);
    assert(s.contains(y));
    assert(t.contains(y));
    order_origin_laws(y, s.last());
    assert(order_origin(s[k], s[s.len() - 1]) < 0);
    let m = choose|m: int| 0 <= m < t.len() && t[m] == y;
    assert(t.drop_last()[m] == y);
}

proof fn increasing_is_unique(s: Seq<OriginView>, t: Seq<OriginView>)
    requires
        increasing(s),
        increasing(t),
        forall|y: OriginView| #[trigger] s.contains(y) <==> t.contains(y),
    ensures
        s == t,
    decreases s.len(),
{
    if s.len() == 0 {
        if t.len() > 0 {
            assert(t.contains(t[0]));
            assert(s.contains(t[0]));
        }
        assert(s =~= t);
    } else {
        assert(s.contains(s.last()));
        assert(t.contains(s.last()));
        assert(t.contains(t.last()));
        assert(s.contains(t.last()));
        let i = choose|i: int| 0 <= i < t.len() && t[i] == s.last();
        let j = choose|j: int| 0 <= j < s.len() && s[j] == t.last();
        assert(s.last() == t.last()) by {
            if i < t.len() - 1 && j < s.len() - 1 {
                order_origin_laws(s.last(), t.last());
            }
        }
        let u = s.drop_last();
        let v = t.drop_last();
        assert forall|y: OriginView| #[trigger] u.contains(y) <==> v.contains(y) by {
            if u.contains(y) {
                drop_last_keeps(s, t, y);
            }
            if v.contains(y) {
                drop_last_keeps(t, s, y);
            }
        }
        increasing_is_unique(u, v);
        assert(s =~= u.push(s.last()));
        assert(t =~= v.push(t.last()));
    }
}

/// A union has exactly the members it was built from, sorted and without
/// repetition.
pub proof fn union_is_canonical(s: Seq<OriginView>)
    ensures
        ({
            let members = merged(flattened(s), Seq::empty());
            &&& union_of(s) == union_value(members)
            &&& increasing(members)
            &&& forall|y: OriginView|
                #[trigger] members.contains(y) <==> flattened(s).contains(y)
        }),
{
    merged_keeps(flattened(s), Seq::empty());
}

/// A union does not depend on the order of its members, on how often they are
/// given, or on how they are grouped into unions.
pub proof fn union_ignores_order(a: Seq<OriginView>, b: Seq<OriginView>)
    requires
        forall|y: OriginView| #[trigger] flattened(a).contains(y) <==> flattened(b).contains(y),
    ensures
        union_of(a) == union_of(b),
{
    union_is_canonical(a);
    union_is_canonical(b);
    increasing_is_unique(
        merged(flattened(a), Seq::empty()),
        merged(flattened(b), Seq::empty()),
    );
}

proof fn members_are_flat(o: OriginView)
    ensures
        forall|y: OriginView| #[trigger] members_of(o).contains(y) ==> !(y is Union),
    decreases o,
{
    match o {
        OriginView::Union(inner) => {
            flattened_is_flat(inner);
            assert(members_of(o) == flattened(inner));
        },
        _ => {
            assert(members_of(o) == seq![o]);
        },
    }
}

/// No member of a union is itself a union.
pub proof fn flattened_is_flat(s: Seq<OriginView>)
    ensures
        forall|y: OriginView| #[trigger] flattened(s).contains(y) ==> !(y is Union),
    decreases s,
{
    if s.len() > 0 {
        let first = members_of(s[0]);
        let rest = flattened(s.drop_first());
        members_are_flat(s[0]);
        flattened_is_flat(s.drop_first());
        assert forall|y: OriginView| #[trigger] flattened(s).contains(y) implies !(y is Union) by {
            let k = choose|k: int| 0 <= k < (first + rest).len() && (first + rest)[k] == y;
            if k < first.len() {
                assert(first.contains(first[k]));
            } else {
                assert(rest.contains(rest[k - first.len()]));
            }
        }
    }
}

proof fn flat_stays(s: Seq<OriginView>)
    requires
        forall|k: int| 0 <= k < s.len() ==> !((#[trigger] s[k]) is Union),
    ensures
        flattened(s) == s,
    decreases s.len(),
{
    if s.len() == 0 {
        assert(flattened(s) =~= s);
    } else {
        assert forall|k: int| 0 <= k < s.len() - 1 implies !((#[trigger] s.drop_first()[k])
            is Union) by {
            assert(s.drop_first()[k] == s[k + 1]);
        }
        flat_stays(s.drop_first());
        assert(!(s[0] is Union));
        assert(flattened(s) == members_of(s[0]) + flattened(s.drop_first()));
        assert(members_of(s[0]) == seq![s[0]]);
        assert(seq![s[0]] + s.drop_first() =~= s);
    }
}

/// Taking the union of a union changes nothing.
pub proof fn union_is_idempotent(s: Seq<OriginView>)
    ensures
        union_of(seq![union_of(s)]) == union_of(s),
{
    let members = merged(flattened(s), Seq::empty());
    union_is_canonical(s);
    flattened_is_flat(s);
    assert forall|k: int| 0 <= k < members.len() implies !((#[trigger] members[k]) is Union) by {
        assert(members.contains(members[k]));
        assert(flattened(s).contains(members[k]));
    }
    let again = seq![union_of(s)];
    assert(again.drop_first() =~= Seq::<OriginView>::empty());
    assert(flattened(again.drop_first()) =~= Seq::<OriginView>::empty());
    assert(flattened(again) =~= members_of(union_of(s)));
    flat_stays(members);
    assert(members_of(union_of(s)) =~= members);
    union_is_canonical(again);
    increasing_is_unique(merged(flattened(again), Seq::empty()), members);
}

fn place_origin(sorted: &mut Vec<Origin>, x: Origin)
    ensures
        origin_list_view(final(sorted)@) == placed(origin_list_view(old(sorted)@), x@),
{
    let ghost s = origin_list_view(sorted@);
    let mut pos: usize = sorted.len();
    assert(s.take(pos as int) =~= s);
    assert(placed(s.take(pos as int), x@) + s.skip(pos as int) =~= placed(s, x@));
    while pos > 0 && compare_origin(&x, &sorted[pos - 1]) < 0
        invariant
            pos <= sorted@.len(),
            s == origin_list_view(sorted@),
            placed(s, x@) == placed(s.take(pos as int), x@) + s.skip(pos as int),
        decreases pos,
    {
        let ghost t = s.take(pos as int);
        assert(t.last() == s[pos - 1]);
        assert(t.drop_last() =~= s.take(pos - 1));
        assert(placed(t, x@) + s.skip(pos as int) =~= placed(s.take(pos - 1), x@) + s.skip(
            pos - 1,
        ));
        pos = pos - 1;
    }
    let ghost t = s.take(pos as int);
    if pos > 0 && compare_origin(&x, &sorted[pos - 1]) == 0 {
        assert(t.last() == s[pos - 1]);
        assert(t + s.skip(pos as int) =~= s);
    } else {
        assert(pos > 0 ==> t.last() == s[pos - 1]);
        sorted.insert(pos, x);
        assert(origin_list_view(sorted@) =~= t.push(x@) + s.skip(pos as int));
    }
}

/// Put the members of some origins where they belong.
fn merge_origins(list: Vec<Origin>, sorted: &mut Vec<Origin>)
    ensures
        origin_list_view(final(sorted)@) == merged(
            flattened(origin_list_view(list@)),
            origin_list_view(old(sorted)@),
        ),
    decreases list@,
{
    let mut rest = list;
    let ghost all = origin_list_view(list@);
    let ghost base = origin_list_view(sorted@);
    assert(all.skip(all.len() as int) =~= Seq::<OriginView>::empty());
    assert(flattened(all.skip(all.len() as int)) =~= Seq::<OriginView>::empty());
    assert(rest@ =~= list@.take(rest@.len() as int));
    while rest.len() > 0
        invariant
            all == origin_list_view(list@),
            rest@.len() <= list@.len(),
            rest@ == list@.take(rest@.len() as int),
            origin_list_view(sorted@) == merged(flattened(all.skip(rest@.len() as int)), base),
        decreases rest@.len(),
    {
        let ghost n = rest@.len() as int;
        let ghost done = origin_list_view(sorted@);
        assert(rest@.drop_last() =~= list@.take(n - 1));
        if let Some(x) = rest.pop() {
            proof {
                assert(x == list@[n - 1]);
                assert(all[n - 1] == x@);
                assert(all.skip(n - 1).drop_first() =~= all.skip(n));
                assert(all.skip(n - 1)[0] == x@);
                merged_concat(members_of(x@), flattened(all.skip(n)), base);
                unfold_origin(x);
            }
            match x {
                Origin::Union(inner) => {
                    assert(decreases_to!(list@ => list@[n - 1]));
                    merge_origins(inner, sorted);
                },
                other => {
                    place_origin(sorted, other);
                    proof {
                        let one = seq![other@];
                        assert(one.drop_first() =~= Seq::<OriginView>::empty());
                        assert(merged(one.drop_first(), done) == done);
                        assert(merged(one, done) == placed(done, other@));
                    }
                },
            }
        }
    }
    assert(all.skip(0) =~= all);
}

impl Origin {
    /// Construct a canonical union: unions among the origins are replaced by
    /// their members, however deep they are nested, repetitions are removed, and
    /// the members are sorted.
    pub fn union(origins: Vec<Origin>) -> (r: Origin)
        ensures
            r@ == union_of(origin_list_view(origins@)),
    {
        let mut sorted: Vec<Origin> = Vec::new();
        assert(origin_list_view(sorted@) =~= Seq::<OriginView>::empty());
        merge_origins(origins, &mut sorted);
        if sorted.len() == 1 {
            let ghost members = origin_list_view(sorted@);
            assert(members[0] == sorted@[0]@);
            match sorted.pop() {
                Some(only) => only,
                None => Origin::Union(Vec::new()),
            }
        } else {
            Origin::Union(sorted)
        }
    }

    /// Whether two origins may designate overlapping storage.
    pub fn overlaps(&self, other: &Origin) -> (r: bool)
        ensures
            r == may_overlap(self@, other@),
        decreases self, other,
    {
        match self {
            Origin::Union(left) => {
                proof {
                    unfold_origin(*self);
                }
                any_overlaps(left, other)
            },
            _ => match other {
                Origin::Union(right) => {
                    proof {
                        unfold_origin(*other);
                    }
                    proof {
                        overlap_union(self@, origin_list_view(right@));
                    }
                    overlaps_any(self, right)
                },
                _ => match (self, other) {
                    (Origin::Place(left), Origin::Place(right)) => places_overlap(left, right),
                    (Origin::Param(left), Origin::Param(right)) => *left == *right,
                    (Origin::Static, Origin::Static) => true,
                    (Origin::Untracked { .. }, _) => true,
                    (_, Origin::Untracked { .. }) => true,
                    _ => false,
                },
            },
        }
    }
}

proof fn union_overlap(left: Seq<OriginView>, b: OriginView)
    ensures
        may_overlap(OriginView::Union(left), b) == exists|i: int|
            0 <= i < left.len() && may_overlap(#[trigger] left[i], b),
{
    reveal_with_fuel(may_overlap, 2);
    let a = OriginView::Union(left);
    if may_overlap(a, b) {
        let i = choose|i: int|
            0 <= i < a->Union_0.len() && may_overlap(#[trigger] a->Union_0[i], b);
        assert(may_overlap(left[i], b));
    }
    if exists|i: int| 0 <= i < left.len() && may_overlap(#[trigger] left[i], b) {
        let i = choose|i: int| 0 <= i < left.len() && may_overlap(#[trigger] left[i], b);
        assert(may_overlap(a->Union_0[i], b));
    }
}

proof fn overlap_union(a: OriginView, right: Seq<OriginView>)
    requires
        !(a is Union),
    ensures
        may_overlap(a, OriginView::Union(right)) == exists|i: int|
            0 <= i < right.len() && may_overlap(a, #[trigger] right[i]),
{
    reveal_with_fuel(may_overlap, 2);
    let b = OriginView::Union(right);
    if may_overlap(a, b) {
        let i = choose|i: int|
            0 <= i < b->Union_0.len() && may_overlap(a, #[trigger] b->Union_0[i]);
        assert(may_overlap(a, right[i]));
    }
    if exists|i: int| 0 <= i < right.len() && may_overlap(a, #[trigger] right[i]) {
        let i = choose|i: int| 0 <= i < right.len() && may_overlap(a, #[trigger] right[i]);
        assert(may_overlap(a, b->Union_0[i]));
    }
}

fn any_overlaps(list: &Vec<Origin>, other: &Origin) -> (r: bool)
    ensures
        r == may_overlap(OriginView::Union(origin_list_view(list@)), other@),
    decreases list@, other,
{
    let ghost members = origin_list_view(list@);
    assert(members.len() == list@.len());
    proof {
        union_overlap(members, other@);
    }
    for i in 0..list.len()
        invariant
            members == origin_list_view(list@),
            members.len() == list@.len(),
            may_overlap(OriginView::Union(members), other@) == exists|k: int|
                0 <= k < members.len() && may_overlap(#[trigger] members[k], other@),
            forall|k: int| 0 <= k < i ==> !may_overlap(#[trigger] members[k], other@),
    {
        assert(members[i as int] == list@[i as int]@);
        if list[i].overlaps(other) {
            return true;
        }
    }
    false
}

fn overlaps_any(this: &Origin, list: &Vec<Origin>) -> (r: bool)
    ensures
        r == exists|i: int|
            0 <= i < list@.len() && may_overlap(this@, #[trigger] origin_list_view(list@)[i]),
    decreases this, list@,
{
    let ghost members = origin_list_view(list@);
    assert(members.len() == list@.len());
    for i in 0..list.len()
        invariant
            members == origin_list_view(list@),
            forall|k: int| 0 <= k < i ==> !may_overlap(this@, #[trigger] members[k]),
    {
        assert(members[i as int] == list@[i as int]@);
        if this.overlaps(&list[i]) {
            return true;
        }
    }
    false
}

/// Whether two path steps may select the same storage.
pub open spec fn segs_match(a: OriginSegView, b: OriginSegView) -> bool {
    a == b || a is AnyIndex || b is AnyIndex
}

/// Whether two places may overlap: they share the owner, and one path is a
/// prefix of the other up to wildcard indices.
pub open spec fn places_may_overlap(a: OriginPlaceView, b: OriginPlaceView) -> bool {
    a.root == b.root && forall|i: int|
        0 <= i < a.path.len() && i < b.path.len() ==> segs_match(
            #[trigger] a.path[i],
            #[trigger] b.path[i],
        )
}

/// Whether two origins may designate overlapping storage: unions overlap what
/// any member overlaps, and an untracked origin overlaps everything but the
/// empty union.
pub open spec fn may_overlap(a: OriginView, b: OriginView) -> bool
    decreases a, b,
{
    match a {
        OriginView::Union(left) => exists|i: int|
            0 <= i < left.len() && may_overlap(#[trigger] left[i], b),
        _ => match b {
            OriginView::Union(right) => exists|i: int|
                0 <= i < right.len() && may_overlap(a, #[trigger] right[i]),
            _ => match (a, b) {
                (OriginView::Place(x), OriginView::Place(y)) => places_may_overlap(x, y),
                (OriginView::Param(x), OriginView::Param(y)) => x == y,
                (OriginView::Static, OriginView::Static) => true,
                (OriginView::Untracked { .. }, _) => true,
                (_, OriginView::Untracked { .. }) => true,
                _ => false,
            },
        },
    }
}

/// Whether two projected owner places may designate overlapping storage.
pub fn places_overlap(left: &OriginPlace, right: &OriginPlace) -> (r: bool)
    ensures
        r == places_may_overlap(left@, right@),
{
    if left.root != right.root {
        return false;
    }
    let ghost x = origin_seg_list_view(left.path@);
    let ghost y = origin_seg_list_view(right.path@);
    let mut i: usize = 0;
    while i < left.path.len() && i < right.path.len()
        invariant
            i <= left.path.len(),
            i <= right.path.len(),
            x == origin_seg_list_view(left.path@),
            y == origin_seg_list_view(right.path@),
            x == left@.path,
            y == right@.path,
            forall|k: int| 0 <= k < i ==> segs_match(#[trigger] x[k], #[trigger] y[k]),
        decreases left.path.len() - i,
    {
        let a = &left.path[i];
        let b = &right.path[i];
        let wild = matches!(a, OriginSeg::AnyIndex) || matches!(b, OriginSeg::AnyIndex);
        let equal = same_origin_seg(a, b);
        assert(x[i as int] == a@ && y[i as int] == b@);
        if !equal && !wild {
            assert(!segs_match(x[i as int], y[i as int]));
            return false;
        }
        i = i + 1;
    }
    true
}

proof fn overlap_distributes(a: OriginView, right: Seq<OriginView>)
    ensures
        may_overlap(a, OriginView::Union(right)) == exists|i: int|
            0 <= i < right.len() && may_overlap(a, #[trigger] right[i]),
    decreases a,
{
    let u = OriginView::Union(right);
    match a {
        OriginView::Union(left) => {
            union_overlap(left, u);
            if may_overlap(a, u) {
                let k = choose|k: int| 0 <= k < left.len() && may_overlap(#[trigger] left[k], u);
                overlap_distributes(left[k], right);
                let i = choose|i: int|
                    0 <= i < right.len() && may_overlap(left[k], #[trigger] right[i]);
                union_overlap(left, right[i]);
                assert(may_overlap(a, right[i]));
            }
            if exists|i: int| 0 <= i < right.len() && may_overlap(a, #[trigger] right[i]) {
                let i = choose|i: int| 0 <= i < right.len() && may_overlap(a, #[trigger] right[i]);
                union_overlap(left, right[i]);
                let k = choose|k: int|
                    0 <= k < left.len() && may_overlap(#[trigger] left[k], right[i]);
                overlap_distributes(left[k], right);
                assert(may_overlap(left[k], u));
            }
        },
        _ => {
            overlap_union(a, right);
        },
    }
}

/// Overlap does not depend on which origin is asked about the other.
pub proof fn overlap_is_symmetric(a: OriginView, b: OriginView)
    ensures
        may_overlap(a, b) == may_overlap(b, a),
    decreases a, b,
{
    match a {
        OriginView::Union(left) => {
            overlap_distributes(b, left);
            assert forall|i: int| 0 <= i < left.len() implies may_overlap(#[trigger] left[i], b)
                == may_overlap(b, left[i]) by {
                overlap_is_symmetric(left[i], b);
            }
        },
        _ => match b {
            OriginView::Union(right) => {
                assert forall|i: int| 0 <= i < right.len() implies may_overlap(
                    a,
                    #[trigger] right[i],
                ) == may_overlap(right[i], a) by {
                    overlap_is_symmetric(a, right[i]);
                }
            },
            _ => {},
        },
    }
}

/// A place overlaps each of its own sub-places.
pub proof fn place_overlaps_its_parts(root: OwnerId, path: Seq<OriginSegView>, more: Seq<OriginSegView>)
    ensures
        may_overlap(
            OriginView::Place(OriginPlaceView { root, path }),
            OriginView::Place(OriginPlaceView { root, path: path + more }),
        ),
{
}

} // verus!
