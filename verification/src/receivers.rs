//! Flattening of method receivers.

use crate::ast::{Expr, ExprKind, ExprKindView, ExprView, unfold_expr_kind};
use crate::calls::lowered_value;
use crate::exprs::lowered_no_value;
use crate::flatten::{Flatten, FlattenView, child, child_facts, emitted, fresh_reg};
use crate::hir::{HirExpr, HirExprView};
use crate::mir::{
    MirInstr, MirInstrView, MirPlace, MirPlaceView, Reg, clone_mir_place, unfold_mir_instr,
};
use crate::places::lowered_try_place;
use crate::text::opt_view;
use vstd::prelude::*;

verus! {

pub open spec fn lowered_receiver(
    s: FlattenView,
    e: ExprView,
    h: Option<HirExprView>,
    destroy: bool,
) -> (FlattenView, (Reg, Option<MirPlaceView>))
    decreases e, 2nat,
{
    let (s, place) = lowered_receiver_place(s, e, h, destroy);
    match place {
        Some(place) => {
            let (s, recv) = lowered_load(s, e, place);
            (s, (recv, Some(place)))
        },
        None => {
            let (s, recv) = lowered_receiver_value(s, e, h);
            (s, (recv, None))
        },
    }
}

/// The value of a place, in a fresh register.
#[verifier::opaque]
pub open spec fn lowered_load(
    s: FlattenView,
    e: ExprView,
    place: MirPlaceView,
) -> (FlattenView, Reg) {
    let (s, dest) = fresh_reg(s, e.span, e.source, None);
    let s = emitted(s, MirInstrView::LoadPlace { dest, place });
    (s, dest)
}

pub open spec fn lowered_receiver_value(
    s: FlattenView,
    e: ExprView,
    h: Option<HirExprView>,
) -> (FlattenView, Reg)
    decreases e, 1nat,
{
    match e.kind {
        ExprKindView::MethodCall { object, .. } => lowered_value(s, *object, child_facts(h, 0)),
        _ => lowered_no_value(s, e),
    }
}

/// The place of a receiver. An explicit destructor looks through a move.
pub open spec fn lowered_receiver_place(
    s: FlattenView,
    e: ExprView,
    h: Option<HirExprView>,
    destroy: bool,
) -> (FlattenView, Option<MirPlaceView>)
    decreases e, 1nat,
{
    match e.kind {
        ExprKindView::MethodCall { object, .. } => lowered_try_place(
            s,
            *object,
            child_facts(h, 0),
            destroy,
        ),
        _ => (s, None),
    }
}

pub open spec fn consumed_receiver(
    s: FlattenView,
    e: ExprView,
    h: Option<HirExprView>,
    recv: Reg,
) -> FlattenView
    decreases e, 2nat,
{
    let (s, place) = lowered_receiver_place(s, e, h, true);
    let s = consumed(s, place, recv);
    s
}

#[verifier::opaque]
pub open spec fn consumed(s: FlattenView, place: Option<MirPlaceView>, recv: Reg) -> FlattenView {
    match place {
        Some(place) => if place.proj.len() == 0 {
            let s = emitted(s, MirInstrView::ConsumeVar { var: place.root });
            s
        } else {
            let s = emitted(s, MirInstrView::ConsumePlace { place, marker: recv });
            s
        },
        None => s,
    }
}

impl Flatten {
    /// See [`lowered_receiver`].
    pub fn receiver(
        self,
        e: &Expr,
        h: Option<&HirExpr>,
        destroy: bool,
    ) -> (r: (Flatten, (Reg, Option<MirPlace>)))
        ensures
            r.0@ == lowered_receiver(self@, e@, opt_view(h), destroy).0,
            (r.1.0, opt_view(r.1.1)) == lowered_receiver(self@, e@, opt_view(h), destroy).1,
        decreases e, 2nat,
    {
        let mut this = self;
        let (next, place) = this.receiver_place(e, h, destroy);
        this = next;
        match place {
            Some(place) => {
                let (next2, recv) = this.loaded(e, clone_mir_place(&place));
                this = next2;
                return (this, (recv, Some(place)));
            },
            None => {
                let (next3, recv) = this.receiver_value(e, h);
                this = next3;
                return (this, (recv, None));
            },
        }
    }

    /// See [`lowered_load`].
    pub fn loaded(self, e: &Expr, place: MirPlace) -> (r: (Flatten, Reg))
        ensures
            r.0@ == lowered_load(self@, e@, place@).0,
            r.1 == lowered_load(self@, e@, place@).1,
    {
        proof { reveal(lowered_load); }
        let mut this = self;
        let (next, dest) = this.fresh(e.span, &e.source, None);
        this = next;
        let instr = MirInstr::LoadPlace { dest, place };
        proof { unfold_mir_instr(instr); }
        this = this.emit(instr);
        return (this, dest);
    }

    /// See [`lowered_receiver_value`].
    pub fn receiver_value(self, e: &Expr, h: Option<&HirExpr>) -> (r: (Flatten, Reg))
        ensures
            r.0@ == lowered_receiver_value(self@, e@, opt_view(h)).0,
            r.1 == lowered_receiver_value(self@, e@, opt_view(h)).1,
        decreases e, 1nat,
    {
        let mut this = self;
        proof { unfold_expr_kind(e.kind); }
        match &e.kind {
            ExprKind::MethodCall { object, .. } => {
                return this.expr(&**object, child(h, 0));
            },
            _ => {
                assert(!(e.kind@ is MethodCall));
                return this.no_value(e);
            },
        }
    }

    /// See [`lowered_receiver_place`].
    pub fn receiver_place(
        self,
        e: &Expr,
        h: Option<&HirExpr>,
        destroy: bool,
    ) -> (r: (Flatten, Option<MirPlace>))
        ensures
            r.0@ == lowered_receiver_place(self@, e@, opt_view(h), destroy).0,
            opt_view(r.1) == lowered_receiver_place(self@, e@, opt_view(h), destroy).1,
        decreases e, 1nat,
    {
        let mut this = self;
        proof { unfold_expr_kind(e.kind); }
        match &e.kind {
            ExprKind::MethodCall { object, .. } => {
                return this.try_place(&**object, child(h, 0), destroy);
            },
            _ => {
                assert(!(e.kind@ is MethodCall));
                return (this, None);
            },
        }
    }

    /// See [`consumed_receiver`].
    pub fn consume_receiver(self, e: &Expr, h: Option<&HirExpr>, recv: Reg) -> (r: Flatten)
        ensures
            r@ == consumed_receiver(self@, e@, opt_view(h), recv),
        decreases e, 2nat,
    {
        let mut this = self;
        let (next, place) = this.receiver_place(e, h, true);
        this = next;
        return this.consume(place, recv);
    }

    /// See [`consumed`].
    pub fn consume(self, place: Option<MirPlace>, recv: Reg) -> (r: Flatten)
        ensures
            r@ == consumed(self@, opt_view(place), recv),
    {
        proof { reveal(consumed); }
        let mut this = self;
        match place {
            Some(place) => {
                if place.proj.len() == 0 {
                    let instr = MirInstr::ConsumeVar { var: place.root };
                    proof { unfold_mir_instr(instr); }
                    return this.emit(instr);
                } else {
                    let instr2 = MirInstr::ConsumePlace { place, marker: recv };
                    proof { unfold_mir_instr(instr2); }
                    return this.emit(instr2);
                }
            },
            None => {
                return this;
            },
        }
    }
}

} // verus!
