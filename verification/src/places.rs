//! Flattening of place expressions.

use crate::ast::{
    Expr, ExprKind, ExprKindView, ExprView, KwArg, KwArgView, expr_list_view, kw_arg_list_view,
    unfold_expr_kind,
};
use crate::calls::{lowered_unconverted, lowered_value};
use crate::debug::{expr_kind_printed, print_expr_kind};
use crate::facts::{projected_variant, variant_projection};
use crate::flatten::{
    Flatten, FlattenView, Loan, LoanView, alias_of, bears_origin, borrow_among, child, child_facts,
    clone_loan, contains_slot, emitted, fact_adjustments, fact_any_ty, find_alias, find_borrow,
    find_loans, find_pointer, following_index, fresh_reg, holds_slot, interned, is_descriptor,
    is_origin_bearing_pointer, is_slice_descriptor, known_adjustments, known_any_ty,
    loan_list_view, loans_of, marked_unsupported, next_index, place_of_handle, place_of_name,
    place_of_use, pointer_among, slot_of_use,
};
use crate::hir::{HirExpr, HirExprView};
use crate::mir::{
    MirInstr, MirInstrView, MirPlace, MirPlaceView, Proj, ProjView, Reg, accessed_through,
    clone_mir_place, project, project_opt, projected, projected_opt, root_place, through,
    unfold_mir_instr, whole_place,
};
use crate::text::{cat2, contains_name, opt_view, same_text};
use vstd::prelude::*;

verus! {

/// The place an expression denotes. Subscripts are evaluated into registers.
pub open spec fn lowered_place(
    s: FlattenView,
    e: ExprView,
    h: Option<HirExprView>,
) -> (FlattenView, MirPlaceView)
    decreases e, 1nat,
{
    match e.kind {
        ExprKindView::Identifier(name) => place_of_use(s, name, h),
        ExprKindView::Member { object, field } => {
            let (s, base) = lowered_place(s, *object, child_facts(h, 0));
            (s, projected_opt(base, ProjView::Field(field), known_any_ty(h)))
        },
        ExprKindView::Index { object, index } => {
            let (s, base) = lowered_place(s, *object, child_facts(h, 0));
            let (s, at) = lowered_value(s, *index, child_facts(h, 1));
            (s, projected_opt(base, ProjView::Index(at), known_any_ty(h)))
        },
        ExprKindView::TypeApply { name, .. } => {
            let (s, place) = lowered_variant_place(s, name, h);
            match place {
                Some(place) => (s, place),
                None => lowered_no_place(s, e),
            }
        },
        _ => lowered_no_place(s, e),
    }
}

/// The alternative of a variant that an expression projects to.
#[verifier::opaque]
pub open spec fn lowered_variant_place(
    s: FlattenView,
    name: Seq<char>,
    h: Option<HirExprView>,
) -> (FlattenView, Option<MirPlaceView>) {
    match projected_variant(known_adjustments(h), 0) {
        Some((_, index)) => match known_any_ty(h) {
            Some(ty) => {
                let (s, base) = place_of_name(s, name);
                (s, Some(projected(base, ProjView::Variant(index), ty)))
            },
            None => (s, None),
        },
        None => (s, None),
    }
}

/// What is no place is marked, and stands for a variable of its own.
#[verifier::opaque]
pub open spec fn lowered_no_place(s: FlattenView, e: ExprView) -> (FlattenView, MirPlaceView) {
    let s = marked_unsupported(s, "invalid assignment place reached MIR lowering: "@ + expr_kind_printed(e.kind));
    let (s, var) = interned(s, "$invalid_place"@);
    (s, whole_place(var, None))
}

/// The place of a call argument: a variable or a field chain without a
/// subscript, so that nothing is evaluated twice.
pub open spec fn lowered_simple_place(
    s: FlattenView,
    e: ExprView,
    h: Option<HirExprView>,
) -> (FlattenView, Option<MirPlaceView>)
    decreases e, 1nat,
{
    match e.kind {
        ExprKindView::Identifier(name) => {
            let (s, place) = place_of_use(s, name, h);
            (s, Some(place))
        },
        ExprKindView::Member { object, field } => if is_descriptor(child_facts(h, 0)) {
            (s, None)
        } else {
            let (s, base) = lowered_simple_place(s, *object, child_facts(h, 0));
            match base {
                Some(base) => (
                    s,
                    Some(projected_opt(base, ProjView::Field(field), known_any_ty(h))),
                ),
                None => (s, None),
            }
        },
        ExprKindView::TypeApply { name, .. } => lowered_variant_place(s, name, h),
        _ => (s, None),
    }
}

/// The place of a variable or a field chain. `Self` stands for `self`.
pub open spec fn lowered_field_place(
    s: FlattenView,
    e: ExprView,
    h: Option<HirExprView>,
) -> (FlattenView, Option<MirPlaceView>)
    decreases e, 1nat,
{
    match e.kind {
        ExprKindView::Identifier(name) => {
            let root = if name == "Self"@ {
                "self"@
            } else {
                name
            };
            let (s, place) = place_of_use(s, root, h);
            (s, Some(place))
        },
        ExprKindView::Member { object, field } => if is_descriptor(child_facts(h, 0)) {
            (s, None)
        } else {
            let (s, base) = lowered_field_place(s, *object, child_facts(h, 0));
            match base {
                Some(base) => (
                    s,
                    Some(projected_opt(base, ProjView::Field(field), known_any_ty(h))),
                ),
                None => (s, None),
            }
        },
        _ => (s, None),
    }
}

/// The place of a receiver, when it has one. A move out of the receiver is
/// looked through when `moved` is set.
pub open spec fn lowered_try_place(
    s: FlattenView,
    e: ExprView,
    h: Option<HirExprView>,
    moved: bool,
) -> (FlattenView, Option<MirPlaceView>)
    decreases e, 1nat,
{
    match e.kind {
        ExprKindView::Identifier(name) => {
            let (s, place) = place_of_use(s, name, h);
            (s, Some(place))
        },
        ExprKindView::Member { object, field } => if is_descriptor(child_facts(h, 0)) {
            (s, None)
        } else {
            let (s, base) = lowered_try_place(s, *object, child_facts(h, 0), false);
            match base {
                Some(base) => (
                    s,
                    Some(projected_opt(base, ProjView::Field(field), known_any_ty(h))),
                ),
                None => (s, None),
            }
        },
        ExprKindView::Index { object, index } => {
            let (s, base) = lowered_try_place(s, *object, child_facts(h, 0), false);
            match base {
                Some(base) => {
                    let (s, at) = lowered_value(s, *index, child_facts(h, 1));
                    (s, Some(projected_opt(base, ProjView::Index(at), known_any_ty(h))))
                },
                None => (s, None),
            }
        },
        ExprKindView::TypeApply { name, .. } => lowered_variant_place(s, name, h),
        ExprKindView::Transfer(inner) => if moved {
            lowered_try_place(s, *inner, child_facts(h, 0), false)
        } else {
            (s, None)
        },
        _ => (s, None),
    }
}

/// The storage behind a pointer variable that is bound once: the one place it
/// was made from.
#[verifier::opaque]
pub open spec fn lowered_deref(
    s: FlattenView,
    object: ExprView,
    h: Option<HirExprView>,
) -> (FlattenView, Option<MirPlaceView>) {
    match object.kind {
        ExprKindView::Identifier(name) => if !bears_origin(h) || s.reassigned.contains(name) {
            (s, None)
        } else {
            let (s, var) = slot_of_use(s, name, h);
            match loans_of(s.aggregate_loans, var) {
                Some(loans) => if loans.len() == 1 {
                    (s, Some(accessed_through(loans[0].place, var)))
                } else {
                    (s, None)
                },
                None => (s, None),
            }
        },
        _ => (s, None),
    }
}

/// The handle of a variable that is a local reference or holds one.
#[verifier::opaque]
pub open spec fn lowered_alias_handle(
    s: FlattenView,
    e: ExprView,
    h: Option<HirExprView>,
) -> (FlattenView, Option<Reg>) {
    match e.kind {
        ExprKindView::Identifier(name) => {
            let (s, var) = slot_of_use(s, name, h);
            match alias_of(s.aliases, var) {
                Some(loan) => {
                    let (s, dest) = fresh_reg(s, e.span, e.source, Some(loan.place.root));
                    let s = emitted(s, MirInstrView::MakeRef { dest, place: loan.place });
                    (s, Some(dest))
                },
                None => if holds_slot(s.runtime_aliases, var, 0) {
                    let (s, dest) = fresh_reg(s, e.span, e.source, Some(var));
                    let place = place_of_handle(s, var);
                    let s = emitted(s, MirInstrView::MakeRef { dest, place });
                    (s, Some(dest))
                } else {
                    (s, None)
                },
            }
        },
        _ => (s, None),
    }
}

/// A reference to what an expression denotes.
pub open spec fn lowered_handle(
    s: FlattenView,
    e: ExprView,
    h: Option<HirExprView>,
) -> (FlattenView, Reg)
    decreases e, 7nat,
{
    let (s, direct) = lowered_alias_handle(s, e, h);
    match direct {
        Some(handle) => (s, handle),
        None => if denotes_variant(e, h) {
            let (s, place) = lowered_place(s, e, h);
            let (s, dest) = fresh_reg(s, e.span, e.source, Some(place.root));
            let s = emitted(s, MirInstrView::MakeRef { dest, place });
            (s, dest)
        } else if (
            match e.kind {
                ExprKindView::Member { .. } | ExprKindView::Index { .. } => true,
                _ => false,
            }
        ) {
            let (s, place) = lowered_place(s, e, h);
            let (s, storage) = fresh_reg(s, e.span, e.source, Some(place.root));
            let s = emitted(s, MirInstrView::MakeRef { dest: storage, place });
            let (s, dest) = fresh_reg(s, e.span, e.source, None);
            let s = emitted(s, MirInstrView::ReadRef { dest, reference: storage });
            (s, dest)
        } else {
            lowered_unconverted(s, e, h)
        },
    }
}

/// The loans an expression carries into an aggregate, all of them.
pub open spec fn lowered_borrows(
    s: FlattenView,
    e: ExprView,
    h: Option<HirExprView>,
) -> (FlattenView, Seq<LoanView>)
    decreases e, 1nat,
{
    match e.kind {
        ExprKindView::Identifier(name) => {
            let (s, var) = slot_of_use(s, name, h);
            match borrow_among(known_adjustments(h), 0) {
                Some(mutable) => match alias_of(s.aliases, var) {
                    Some(loan) => (s, seq![LoanView { place: loan.place, mutable }]),
                    None => (s, Seq::empty()),
                },
                None => match loans_of(s.aggregate_loans, var) {
                    Some(loans) => (s, loans),
                    None => (s, Seq::empty()),
                },
            }
        },
        ExprKindView::Call { args, kwargs, .. } => match pointer_among(known_adjustments(h), 0) {
            Some(mutable) => {
                let (s, place) = lowered_pointer_source(
                    s,
                    kwargs,
                    child_facts(h, args.len() as usize),
                    0,
                );
                match place {
                    Some(place) => (s, seq![LoanView { place, mutable }]),
                    None => (s, Seq::empty()),
                }
            },
            None => {
                let found = Seq::<LoanView>::empty();
                let (s, loans) = lowered_arg_borrows(s, args, h, 0, found, 0);
                lowered_kwarg_borrows(s, kwargs, h, 0, loans, args.len() as usize)
            },
        },
        ExprKindView::Transfer(inner) => lowered_borrows(s, *inner, child_facts(h, 0)),
        ExprKindView::ListLit(values) => {
            let found = Seq::<LoanView>::empty();
            lowered_arg_borrows(s, values, h, 0, found, 0)
        },
        ExprKindView::TupleLit(values) => {
            let found = Seq::<LoanView>::empty();
            lowered_arg_borrows(s, values, h, 0, found, 0)
        },
        _ => (s, Seq::empty()),
    }
}

/// The place a pointer is made from: the first keyword argument.
pub open spec fn lowered_pointer_source(
    s: FlattenView,
    kwargs: Seq<KwArgView>,
    h: Option<HirExprView>,
    i: nat,
) -> (FlattenView, Option<MirPlaceView>)
    decreases kwargs, (kwargs.len() - i) as nat,
{
    if i >= kwargs.len() {
        (s, None)
    } else {
        let kwarg = kwargs[i as int];
        let (s, place) = lowered_place(s, kwarg.value, h);
        (s, Some(place))
    }
}

pub open spec fn lowered_arg_borrows(
    s: FlattenView,
    args: Seq<ExprView>,
    h: Option<HirExprView>,
    i: nat,
    out: Seq<LoanView>,
    k: usize,
) -> (FlattenView, Seq<LoanView>)
    decreases args, (args.len() - i) as nat,
{
    if i >= args.len() {
        (s, out)
    } else {
        let arg = args[i as int];
        let (s, more) = lowered_borrows(s, arg, child_facts(h, k));
        let out = all_loans(more, 0, out);
        let k = following_index(k);
        lowered_arg_borrows(s, args, h, i + 1, out, k)
    }
}

pub open spec fn lowered_kwarg_borrows(
    s: FlattenView,
    kwargs: Seq<KwArgView>,
    h: Option<HirExprView>,
    i: nat,
    out: Seq<LoanView>,
    k: usize,
) -> (FlattenView, Seq<LoanView>)
    decreases kwargs, (kwargs.len() - i) as nat,
{
    if i >= kwargs.len() {
        (s, out)
    } else {
        let kwarg = kwargs[i as int];
        let (s, more) = lowered_borrows(s, kwarg.value, child_facts(h, k));
        let out = all_loans(more, 0, out);
        let k = following_index(k);
        lowered_kwarg_borrows(s, kwargs, h, i + 1, out, k)
    }
}

impl Flatten {
    /// See [`lowered_place`].
    pub fn place(self, e: &Expr, h: Option<&HirExpr>) -> (r: (Flatten, MirPlace))
        ensures
            r.0@ == lowered_place(self@, e@, opt_view(h)).0,
            r.1@ == lowered_place(self@, e@, opt_view(h)).1,
        decreases e, 1nat,
    {
        let mut this = self;
        proof { unfold_expr_kind(e.kind); }
        match &e.kind {
            ExprKind::Identifier(name) => {
                return this.place_root(name, h);
            },
            ExprKind::Member { object, field } => {
                let (next, base) = this.place(&**object, child(h, 0));
                this = next;
                return (this, project_opt(base, Proj::Field(field.clone()), fact_any_ty(h)));
            },
            ExprKind::Index { object, index } => {
                let (next2, base) = this.place(&**object, child(h, 0));
                this = next2;
                let (next3, at) = this.expr(&**index, child(h, 1));
                this = next3;
                return (this, project_opt(base, Proj::Index(at), fact_any_ty(h)));
            },
            ExprKind::TypeApply { name, .. } => {
                let (next4, place) = this.variant_place(name, h);
                this = next4;
                match place {
                    Some(place) => {
                        return (this, place);
                    },
                    None => {
                        return this.no_place(e);
                    },
                }
            },
            _ => {
                assert(!(e.kind@ is Identifier));
                assert(!(e.kind@ is Member));
                assert(!(e.kind@ is Index));
                assert(!(e.kind@ is TypeApply));
                return this.no_place(e);
            },
        }
    }

    /// See [`lowered_variant_place`].
    pub fn variant_place(
        self,
        name: &String,
        h: Option<&HirExpr>,
    ) -> (r: (Flatten, Option<MirPlace>))
        ensures
            r.0@ == lowered_variant_place(self@, name@, opt_view(h)).0,
            opt_view(r.1) == lowered_variant_place(self@, name@, opt_view(h)).1,
    {
        proof { reveal(lowered_variant_place); }
        let mut this = self;
        match variant_projection(&fact_adjustments(h)) {
            Some((_, index)) => {
                match fact_any_ty(h) {
                    Some(ty) => {
                        let (next, base) = this.resolved_place(name);
                        this = next;
                        return (this, Some(project(base, Proj::Variant(index), ty)));
                    },
                    None => {
                        return (this, None);
                    },
                }
            },
            None => {
                return (this, None);
            },
        }
    }

    /// See [`lowered_no_place`].
    pub fn no_place(self, e: &Expr) -> (r: (Flatten, MirPlace))
        ensures
            r.0@ == lowered_no_place(self@, e@).0,
            r.1@ == lowered_no_place(self@, e@).1,
    {
        proof { reveal(lowered_no_place); }
        let mut this = self;
        this = this.unsupported(cat2("invalid assignment place reached MIR lowering: ", print_expr_kind(&e.kind).as_str()));
        let (next, var) = this.var(&"$invalid_place".to_owned());
        this = next;
        return (this, root_place(var, None));
    }

    /// See [`lowered_simple_place`].
    pub fn simple_place(self, e: &Expr, h: Option<&HirExpr>) -> (r: (Flatten, Option<MirPlace>))
        ensures
            r.0@ == lowered_simple_place(self@, e@, opt_view(h)).0,
            opt_view(r.1) == lowered_simple_place(self@, e@, opt_view(h)).1,
        decreases e, 1nat,
    {
        let mut this = self;
        proof { unfold_expr_kind(e.kind); }
        match &e.kind {
            ExprKind::Identifier(name) => {
                let (next, place) = this.place_root(name, h);
                this = next;
                return (this, Some(place));
            },
            ExprKind::Member { object, field } => {
                if is_slice_descriptor(child(h, 0)) {
                    return (this, None);
                } else {
                    let (next2, base) = this.simple_place(&**object, child(h, 0));
                    this = next2;
                    match base {
                        Some(base) => {
                            return (
                                this,
                                Some(project_opt(base, Proj::Field(field.clone()), fact_any_ty(h))),
                            );
                        },
                        None => {
                            return (this, None);
                        },
                    }
                }
            },
            ExprKind::TypeApply { name, .. } => {
                return this.variant_place(name, h);
            },
            _ => {
                assert(!(e.kind@ is Identifier));
                assert(!(e.kind@ is Member));
                assert(!(e.kind@ is TypeApply));
                return (this, None);
            },
        }
    }

    /// See [`lowered_field_place`].
    pub fn pure_field_place(self, e: &Expr, h: Option<&HirExpr>) -> (r: (Flatten, Option<MirPlace>))
        ensures
            r.0@ == lowered_field_place(self@, e@, opt_view(h)).0,
            opt_view(r.1) == lowered_field_place(self@, e@, opt_view(h)).1,
        decreases e, 1nat,
    {
        let mut this = self;
        proof { unfold_expr_kind(e.kind); }
        match &e.kind {
            ExprKind::Identifier(name) => {
                let root = if same_text(name.as_str(), "Self") {
                    "self".to_owned()
                } else {
                    name.clone()
                };
                let (next, place) = this.place_root(&root, h);
                this = next;
                return (this, Some(place));
            },
            ExprKind::Member { object, field } => {
                if is_slice_descriptor(child(h, 0)) {
                    return (this, None);
                } else {
                    let (next2, base) = this.pure_field_place(&**object, child(h, 0));
                    this = next2;
                    match base {
                        Some(base) => {
                            return (
                                this,
                                Some(project_opt(base, Proj::Field(field.clone()), fact_any_ty(h))),
                            );
                        },
                        None => {
                            return (this, None);
                        },
                    }
                }
            },
            _ => {
                assert(!(e.kind@ is Identifier));
                assert(!(e.kind@ is Member));
                return (this, None);
            },
        }
    }

    /// See [`lowered_try_place`].
    pub fn try_place(
        self,
        e: &Expr,
        h: Option<&HirExpr>,
        moved: bool,
    ) -> (r: (Flatten, Option<MirPlace>))
        ensures
            r.0@ == lowered_try_place(self@, e@, opt_view(h), moved).0,
            opt_view(r.1) == lowered_try_place(self@, e@, opt_view(h), moved).1,
        decreases e, 1nat,
    {
        let mut this = self;
        proof { unfold_expr_kind(e.kind); }
        match &e.kind {
            ExprKind::Identifier(name) => {
                let (next, place) = this.place_root(name, h);
                this = next;
                return (this, Some(place));
            },
            ExprKind::Member { object, field } => {
                if is_slice_descriptor(child(h, 0)) {
                    return (this, None);
                } else {
                    let (next2, base) = this.try_place(&**object, child(h, 0), false);
                    this = next2;
                    match base {
                        Some(base) => {
                            return (
                                this,
                                Some(project_opt(base, Proj::Field(field.clone()), fact_any_ty(h))),
                            );
                        },
                        None => {
                            return (this, None);
                        },
                    }
                }
            },
            ExprKind::Index { object, index } => {
                let (next3, base) = this.try_place(&**object, child(h, 0), false);
                this = next3;
                match base {
                    Some(base) => {
                        let (next4, at) = this.expr(&**index, child(h, 1));
                        this = next4;
                        return (this, Some(project_opt(base, Proj::Index(at), fact_any_ty(h))));
                    },
                    None => {
                        return (this, None);
                    },
                }
            },
            ExprKind::TypeApply { name, .. } => {
                return this.variant_place(name, h);
            },
            ExprKind::Transfer(inner) => {
                if moved {
                    return this.try_place(&**inner, child(h, 0), false);
                } else {
                    return (this, None);
                }
            },
            _ => {
                assert(!(e.kind@ is Identifier));
                assert(!(e.kind@ is Member));
                assert(!(e.kind@ is Index));
                assert(!(e.kind@ is TypeApply));
                assert(!(e.kind@ is Transfer));
                return (this, None);
            },
        }
    }

    /// See [`lowered_deref`].
    pub fn pointer_deref_place(
        self,
        object: &Expr,
        h: Option<&HirExpr>,
    ) -> (r: (Flatten, Option<MirPlace>))
        ensures
            r.0@ == lowered_deref(self@, object@, opt_view(h)).0,
            opt_view(r.1) == lowered_deref(self@, object@, opt_view(h)).1,
    {
        proof { reveal(lowered_deref); }
        let mut this = self;
        proof { unfold_expr_kind(object.kind); }
        match &object.kind {
            ExprKind::Identifier(name) => {
                if !is_origin_bearing_pointer(h) || contains_name(&this.reassigned, name) {
                    return (this, None);
                } else {
                    let (next, var) = this.expression_var(name, h);
                    this = next;
                    match find_loans(&this.aggregate_loans, var) {
                        Some(loans) => {
                            if loans.len() == 1 {
                                return (this, Some(through(clone_mir_place((&loans[0].place)), var)));
                            } else {
                                return (this, None);
                            }
                        },
                        None => {
                            return (this, None);
                        },
                    }
                }
            },
            _ => {
                assert(!(object.kind@ is Identifier));
                return (this, None);
            },
        }
    }

    /// See [`lowered_alias_handle`].
    pub fn alias_handle(self, e: &Expr, h: Option<&HirExpr>) -> (r: (Flatten, Option<Reg>))
        ensures
            r.0@ == lowered_alias_handle(self@, e@, opt_view(h)).0,
            r.1 == lowered_alias_handle(self@, e@, opt_view(h)).1,
    {
        proof { reveal(lowered_alias_handle); }
        let mut this = self;
        proof { unfold_expr_kind(e.kind); }
        match &e.kind {
            ExprKind::Identifier(name) => {
                let (next, var) = this.expression_var(name, h);
                this = next;
                match find_alias(&this.aliases, var) {
                    Some(loan) => {
                        let (next2, dest) = this.fresh(e.span, &e.source, Some(loan.place.root));
                        this = next2;
                        let instr = MirInstr::MakeRef { dest, place: loan.place };
                        proof { unfold_mir_instr(instr); }
                        this = this.emit(instr);
                        return (this, Some(dest));
                    },
                    None => {
                        if contains_slot(&this.runtime_aliases, var) {
                            let (next3, dest) = this.fresh(e.span, &e.source, Some(var));
                            this = next3;
                            let place = this.handle_place(var);
                            let instr2 = MirInstr::MakeRef { dest, place };
                            proof { unfold_mir_instr(instr2); }
                            this = this.emit(instr2);
                            return (this, Some(dest));
                        } else {
                            return (this, None);
                        }
                    },
                }
            },
            _ => {
                assert(!(e.kind@ is Identifier));
                return (this, None);
            },
        }
    }

    /// See [`lowered_handle`].
    pub fn reference_handle(self, e: &Expr, h: Option<&HirExpr>) -> (r: (Flatten, Reg))
        ensures
            r.0@ == lowered_handle(self@, e@, opt_view(h)).0,
            r.1 == lowered_handle(self@, e@, opt_view(h)).1,
        decreases e, 7nat,
    {
        let mut this = self;
        let (next, direct) = this.alias_handle(e, h);
        this = next;
        match direct {
            Some(handle) => {
                return (this, handle);
            },
            None => {
                if is_variant_projection(e, h) {
                    let (next2, place) = this.place(e, h);
                    this = next2;
                    let (next3, dest) = this.fresh(e.span, &e.source, Some(place.root));
                    this = next3;
                    let instr = MirInstr::MakeRef { dest, place };
                    proof { unfold_mir_instr(instr); }
                    this = this.emit(instr);
                    return (this, dest);
                } else {
                    if matches!(e.kind, ExprKind::Member { .. } | ExprKind::Index { .. }) {
                        let (next4, place) = this.place(e, h);
                        this = next4;
                        let (next5, storage) = this.fresh(e.span, &e.source, Some(place.root));
                        this = next5;
                        let instr2 = MirInstr::MakeRef { dest: storage, place };
                        proof { unfold_mir_instr(instr2); }
                        this = this.emit(instr2);
                        let (next6, dest) = this.fresh(e.span, &e.source, None);
                        this = next6;
                        let instr3 = MirInstr::ReadRef { dest, reference: storage };
                        proof { unfold_mir_instr(instr3); }
                        this = this.emit(instr3);
                        return (this, dest);
                    } else {
                        return this.expr_unconverted(e, h);
                    }
                }
            },
        }
    }

    /// See [`lowered_borrows`].
    pub fn aggregate_borrows(self, e: &Expr, h: Option<&HirExpr>) -> (r: (Flatten, Vec<Loan>))
        ensures
            r.0@ == lowered_borrows(self@, e@, opt_view(h)).0,
            loan_list_view(r.1@) == lowered_borrows(self@, e@, opt_view(h)).1,
        decreases e, 1nat,
    {
        let mut this = self;
        proof { unfold_expr_kind(e.kind); }
        match &e.kind {
            ExprKind::Identifier(name) => {
                let (next, var) = this.expression_var(name, h);
                this = next;
                match find_borrow(&fact_adjustments(h)) {
                    Some(mutable) => {
                        match find_alias(&this.aliases, var) {
                            Some(loan) => {
                                let item = Loan { place: loan.place, mutable };
                                let ghost seen = item@;
                                let list = vec![item];
                                assert(loan_list_view(list@) =~= seq![seen]);
                                return (this, list);
                            },
                            None => {
                                let list2: Vec<Loan> = Vec::new();
                                assert(loan_list_view(list2@) =~= Seq::<LoanView>::empty());
                                return (this, list2);
                            },
                        }
                    },
                    None => {
                        match find_loans(&this.aggregate_loans, var) {
                            Some(loans) => {
                                return (this, loans);
                            },
                            None => {
                                let list3: Vec<Loan> = Vec::new();
                                assert(loan_list_view(list3@) =~= Seq::<LoanView>::empty());
                                return (this, list3);
                            },
                        }
                    },
                }
            },
            ExprKind::Call { args, kwargs, .. } => {
                match find_pointer(&fact_adjustments(h)) {
                    Some(mutable) => {
                        let (next2, place) = this.pointer_source(kwargs, child(h, args.len()));
                        this = next2;
                        match place {
                            Some(place) => {
                                let item2 = Loan { place, mutable };
                                let ghost seen2 = item2@;
                                let list4 = vec![item2];
                                assert(loan_list_view(list4@) =~= seq![seen2]);
                                return (this, list4);
                            },
                            None => {
                                let list5: Vec<Loan> = Vec::new();
                                assert(loan_list_view(list5@) =~= Seq::<LoanView>::empty());
                                return (this, list5);
                            },
                        }
                    },
                    None => {
                        let found: Vec<Loan> = Vec::new();
                        assert(loan_list_view(found@) =~= Seq::<LoanView>::empty());
                        let (next3, loans) = this.borrows_of_args(args, h, 0, found);
                        this = next3;
                        return this.borrows_of_kwargs(kwargs, h, args.len(), loans);
                    },
                }
            },
            ExprKind::Transfer(inner) => {
                return this.aggregate_borrows(&**inner, child(h, 0));
            },
            ExprKind::ListLit(values) => {
                let found: Vec<Loan> = Vec::new();
                assert(loan_list_view(found@) =~= Seq::<LoanView>::empty());
                return this.borrows_of_args(values, h, 0, found);
            },
            ExprKind::TupleLit(values) => {
                let found: Vec<Loan> = Vec::new();
                assert(loan_list_view(found@) =~= Seq::<LoanView>::empty());
                return this.borrows_of_args(values, h, 0, found);
            },
            _ => {
                assert(!(e.kind@ is Identifier));
                assert(!(e.kind@ is Call));
                assert(!(e.kind@ is Transfer));
                assert(!(e.kind@ is ListLit));
                assert(!(e.kind@ is TupleLit));
                let list6: Vec<Loan> = Vec::new();
                assert(loan_list_view(list6@) =~= Seq::<LoanView>::empty());
                return (this, list6);
            },
        }
    }

    /// See [`lowered_pointer_source`].
    pub fn pointer_source(
        self,
        kwargs: &Vec<KwArg>,
        h: Option<&HirExpr>,
    ) -> (r: (Flatten, Option<MirPlace>))
        ensures
            r.0@ == lowered_pointer_source(self@, kw_arg_list_view(kwargs@), opt_view(h), 0).0,
            opt_view(r.1) == lowered_pointer_source(self@, kw_arg_list_view(kwargs@), opt_view(h), 0).1,
        decreases kwargs@, 0nat,
    {
        let mut this = self;
        let ghost goal = lowered_pointer_source(self@, kw_arg_list_view(kwargs@), opt_view(h), 0);
        let mut i: usize = 0;
        while i < kwargs.len()
            invariant
                i <= kwargs@.len(),
                kw_arg_list_view(kwargs@).len() == kwargs@.len(),
                lowered_pointer_source(this@, kw_arg_list_view(kwargs@), opt_view(h), i as nat) == goal,
                goal == lowered_pointer_source(self@, kw_arg_list_view(kwargs@), opt_view(h), 0),
            decreases kwargs@.len() - i,
        {
            let kwarg = &kwargs[i];
            assert(kw_arg_list_view(kwargs@)[i as int] == kwarg@);
            let (next, place) = this.place(&kwarg.value, h);
            this = next;
            return (this, Some(place));
        }
        (this, None)
    }

    /// See [`lowered_arg_borrows`].
    pub fn borrows_of_args(
        self,
        args: &Vec<Expr>,
        h: Option<&HirExpr>,
        base: usize,
        found: Vec<Loan>,
    ) -> (r: (Flatten, Vec<Loan>))
        ensures
            r.0@ == lowered_arg_borrows(
                self@,
                expr_list_view(args@),
                opt_view(h),
                0,
                loan_list_view(found@),
                base,
            ).0,
            loan_list_view(r.1@) == lowered_arg_borrows(
                self@,
                expr_list_view(args@),
                opt_view(h),
                0,
                loan_list_view(found@),
                base,
            ).1,
        decreases args@, 0nat,
    {
        let mut this = self;
        let mut out: Vec<Loan> = found;
        let mut k: usize = base;
        let ghost goal = lowered_arg_borrows(
            self@,
            expr_list_view(args@),
            opt_view(h),
            0,
            loan_list_view(found@),
            base,
        );
        let mut i: usize = 0;
        while i < args.len()
            invariant
                i <= args@.len(),
                expr_list_view(args@).len() == args@.len(),
                lowered_arg_borrows(
                    this@,
                    expr_list_view(args@),
                    opt_view(h),
                    i as nat,
                    loan_list_view(out@),
                    k,
                ) == goal,
                goal == lowered_arg_borrows(
                    self@,
                    expr_list_view(args@),
                    opt_view(h),
                    0,
                    loan_list_view(found@),
                    base,
                ),
            decreases args@.len() - i,
        {
            let arg = &args[i];
            assert(expr_list_view(args@)[i as int] == arg@);
            let (next, more) = this.aggregate_borrows(arg, child(h, k));
            this = next;
            out = append_loans(out, &more);
            k = next_index(k);
            i = i + 1;
        }
        (this, out)
    }

    /// See [`lowered_kwarg_borrows`].
    pub fn borrows_of_kwargs(
        self,
        kwargs: &Vec<KwArg>,
        h: Option<&HirExpr>,
        base: usize,
        found: Vec<Loan>,
    ) -> (r: (Flatten, Vec<Loan>))
        ensures
            r.0@ == lowered_kwarg_borrows(
                self@,
                kw_arg_list_view(kwargs@),
                opt_view(h),
                0,
                loan_list_view(found@),
                base,
            ).0,
            loan_list_view(r.1@) == lowered_kwarg_borrows(
                self@,
                kw_arg_list_view(kwargs@),
                opt_view(h),
                0,
                loan_list_view(found@),
                base,
            ).1,
        decreases kwargs@, 0nat,
    {
        let mut this = self;
        let mut out: Vec<Loan> = found;
        let mut k: usize = base;
        let ghost goal = lowered_kwarg_borrows(
            self@,
            kw_arg_list_view(kwargs@),
            opt_view(h),
            0,
            loan_list_view(found@),
            base,
        );
        let mut i: usize = 0;
        while i < kwargs.len()
            invariant
                i <= kwargs@.len(),
                kw_arg_list_view(kwargs@).len() == kwargs@.len(),
                lowered_kwarg_borrows(
                    this@,
                    kw_arg_list_view(kwargs@),
                    opt_view(h),
                    i as nat,
                    loan_list_view(out@),
                    k,
                ) == goal,
                goal == lowered_kwarg_borrows(
                    self@,
                    kw_arg_list_view(kwargs@),
                    opt_view(h),
                    0,
                    loan_list_view(found@),
                    base,
                ),
            decreases kwargs@.len() - i,
        {
            let kwarg = &kwargs[i];
            assert(kw_arg_list_view(kwargs@)[i as int] == kwarg@);
            let (next, more) = this.aggregate_borrows(&kwarg.value, child(h, k));
            this = next;
            out = append_loans(out, &more);
            k = next_index(k);
            i = i + 1;
        }
        (this, out)
    }
}

pub open spec fn all_loans(more: Seq<LoanView>, i: nat, out: Seq<LoanView>) -> Seq<LoanView>
    decreases more, (more.len() - i) as nat,
{
    if i >= more.len() {
        out
    } else {
        let loan = more[i as int];
        let out = out.push(loan);
        all_loans(more, i + 1, out)
    }
}

/// See [`all_loans`].
pub fn append_loans(loans: Vec<Loan>, more: &Vec<Loan>) -> (r: Vec<Loan>)
    ensures
        loan_list_view(r@) == all_loans(loan_list_view(more@), 0, loan_list_view(loans@)),
    decreases more@, 0nat,
{
    let mut out: Vec<Loan> = loans;
    let ghost goal = all_loans(loan_list_view(more@), 0, loan_list_view(loans@));
    let mut i: usize = 0;
    while i < more.len()
        invariant
            i <= more@.len(),
            loan_list_view(more@).len() == more@.len(),
            all_loans(loan_list_view(more@), i as nat, loan_list_view(out@)) == goal,
            goal == all_loans(loan_list_view(more@), 0, loan_list_view(loans@)),
        decreases more@.len() - i,
    {
        let loan = &more[i];
        assert(loan_list_view(more@)[i as int] == loan@);
        let item = clone_loan(loan);
        let ghost before = loan_list_view(out@);
        let ghost added = item@;
        out.push(item);
        assert(loan_list_view(out@) =~= before.push(added));
        i = i + 1;
    }
    out
}

/// Whether an expression denotes an alternative of a variant.
#[verifier::opaque]
pub open spec fn denotes_variant(e: ExprView, h: Option<HirExprView>) -> bool {
    (
        e.kind matches ExprKindView::TypeApply { .. }
    ) && projected_variant(known_adjustments(h), 0) is Some
}

/// See [`denotes_variant`].
pub fn is_variant_projection(e: &Expr, h: Option<&HirExpr>) -> (r: bool)
    ensures
        r == denotes_variant(e@, opt_view(h)),
{
    proof { reveal(denotes_variant); }
    matches!(
        e.kind,
        ExprKind::TypeApply { .. },
    ) && variant_projection(&fact_adjustments(h)).is_some()
}

} // verus!
