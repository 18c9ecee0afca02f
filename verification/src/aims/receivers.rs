//! Blocks lead to blocks of their function: receivers.

use crate::aims::calls::lowered_value_aims;
use crate::aims::exprs::lowered_no_value_aims;
use crate::aims::places::lowered_try_place_aims;
use crate::ast::{ExprKindView, ExprView};
use crate::calls::lowered_value;
use crate::exprs::lowered_no_value;
use crate::flatten::{FlattenView, child_facts, emitted, fresh_reg};
use crate::hir::HirExprView;
use crate::mir::{MirInstrView, MirPlaceView, Reg};
use crate::places::lowered_try_place;
use crate::receivers::{
    consumed, consumed_receiver, lowered_load, lowered_receiver, lowered_receiver_place,
    lowered_receiver_value,
};
use crate::aims::flatten::{aimed, emitted_aims, fresh_reg_aims, further};
use vstd::prelude::*;

verus! {

pub(crate) proof fn lowered_receiver_aims(
    s: FlattenView,
    e: ExprView,
    h: Option<HirExprView>,
    destroy: bool,
)
    requires
        aimed(s),
    ensures
        aimed(lowered_receiver(s, e, h, destroy).0),
        further(s, lowered_receiver(s, e, h, destroy).0),
    decreases e, 2nat,
{
    let _ = {
        let (s, place) = {
            lowered_receiver_place_aims(s, e, h, destroy);
            lowered_receiver_place(s, e, h, destroy)
        };
        match place {
            Some(place) => {
                let (s, recv) = {
                    lowered_load_aims(s, e, place);
                    lowered_load(s, e, place)
                };
                (s, (recv, Some(place)))
            },
            None => {
                let (s, recv) = {
                    lowered_receiver_value_aims(s, e, h);
                    lowered_receiver_value(s, e, h)
                };
                (s, (recv, None))
            },
        }
    };
}

pub(crate) proof fn lowered_load_aims(
    s: FlattenView,
    e: ExprView,
    place: MirPlaceView,
)
    requires
        aimed(s),
    ensures
        aimed(lowered_load(s, e, place).0),
        further(s, lowered_load(s, e, place).0),
{
    reveal(lowered_load);
    let _ = {
        let (s, dest) = {
            fresh_reg_aims(s, e.span, e.source, None);
            fresh_reg(s, e.span, e.source, None)
        };
        let s = {
            emitted_aims(s, MirInstrView::LoadPlace { dest, place });
            emitted(s, MirInstrView::LoadPlace { dest, place })
        };
        (s, dest)
    };
}

pub(crate) proof fn lowered_receiver_value_aims(
    s: FlattenView,
    e: ExprView,
    h: Option<HirExprView>,
)
    requires
        aimed(s),
    ensures
        aimed(lowered_receiver_value(s, e, h).0),
        further(s, lowered_receiver_value(s, e, h).0),
    decreases e, 1nat,
{
    let _ = {
        match e.kind {
            ExprKindView::MethodCall { object, .. } => {
                lowered_value_aims(s, *object, child_facts(h, 0));
                lowered_value(s, *object, child_facts(h, 0))
            },
            _ => {
                lowered_no_value_aims(s, e);
                lowered_no_value(s, e)
            },
        }
    };
}

pub(crate) proof fn lowered_receiver_place_aims(
    s: FlattenView,
    e: ExprView,
    h: Option<HirExprView>,
    destroy: bool,
)
    requires
        aimed(s),
    ensures
        aimed(lowered_receiver_place(s, e, h, destroy).0),
        further(s, lowered_receiver_place(s, e, h, destroy).0),
    decreases e, 1nat,
{
    let _ = {
        match e.kind {
            ExprKindView::MethodCall { object, .. } => {
                lowered_try_place_aims(s, *object, child_facts(h, 0), destroy);
                lowered_try_place(s, *object, child_facts(h, 0), destroy)
            },
            _ => (s, None),
        }
    };
}

pub(crate) proof fn consumed_receiver_aims(
    s: FlattenView,
    e: ExprView,
    h: Option<HirExprView>,
    recv: Reg,
)
    requires
        aimed(s),
    ensures
        aimed(consumed_receiver(s, e, h, recv)),
        further(s, consumed_receiver(s, e, h, recv)),
    decreases e, 2nat,
{
    let _ = {
        let (s, place) = {
            lowered_receiver_place_aims(s, e, h, true);
            lowered_receiver_place(s, e, h, true)
        };
        let s = {
            consumed_aims(s, place, recv);
            consumed(s, place, recv)
        };
        s
    };
}

pub(crate) proof fn consumed_aims(
    s: FlattenView,
    place: Option<MirPlaceView>,
    recv: Reg,
)
    requires
        aimed(s),
    ensures
        aimed(consumed(s, place, recv)),
        further(s, consumed(s, place, recv)),
{
    reveal(consumed);
    let _ = {
        match place {
            Some(place) => if place.proj.len() == 0 {
                let s = {
                    emitted_aims(s, MirInstrView::ConsumeVar { var: place.root });
                    emitted(s, MirInstrView::ConsumeVar { var: place.root })
                };
                s
            } else {
                let s = {
                    emitted_aims(s, MirInstrView::ConsumePlace { place, marker: recv });
                    emitted(s, MirInstrView::ConsumePlace { place, marker: recv })
                };
                s
            },
            None => s,
        }
    };
}

} // verus!
