//! Flattening only adds registers, slots and blocks: receivers.

use crate::ast::{ExprKindView, ExprView};
use crate::calls::lowered_value;
use crate::exprs::lowered_no_value;
use crate::flatten::{FlattenView, child_facts, emitted, fresh_reg};
use crate::growth::calls::lowered_value_grows;
use crate::growth::exprs::lowered_no_value_grows;
use crate::growth::flatten::{emitted_grows, fresh_reg_grows, grown};
use crate::growth::places::lowered_try_place_grows;
use crate::hir::HirExprView;
use crate::mir::{MirInstrView, MirPlaceView, Reg};
use crate::places::lowered_try_place;
use crate::receivers::{
    consumed, consumed_receiver, lowered_load, lowered_receiver, lowered_receiver_place,
    lowered_receiver_value,
};
use vstd::prelude::*;

verus! {

pub(crate) proof fn lowered_receiver_grows(
    from: FlattenView,
    s: FlattenView,
    e: ExprView,
    h: Option<HirExprView>,
    destroy: bool,
)
    requires
        grown(from, s),
    ensures
        grown(from, lowered_receiver(s, e, h, destroy).0),
        s.blocks.len() <= lowered_receiver(s, e, h, destroy).0.blocks.len(),
    decreases e, 2nat,
{
    let _ = {
        let (s, place) = {
            lowered_receiver_place_grows(from, s, e, h, destroy);
            lowered_receiver_place(s, e, h, destroy)
        };
        match place {
            Some(place) => {
                let (s, recv) = {
                    lowered_load_grows(from, s, e, place);
                    lowered_load(s, e, place)
                };
                (s, (recv, Some(place)))
            },
            None => {
                let (s, recv) = {
                    lowered_receiver_value_grows(from, s, e, h);
                    lowered_receiver_value(s, e, h)
                };
                (s, (recv, None))
            },
        }
    };
}

pub(crate) proof fn lowered_load_grows(
    from: FlattenView,
    s: FlattenView,
    e: ExprView,
    place: MirPlaceView,
)
    requires
        grown(from, s),
    ensures
        grown(from, lowered_load(s, e, place).0),
        s.blocks.len() <= lowered_load(s, e, place).0.blocks.len(),
{
    reveal(lowered_load);
    let _ = {
        let (s, dest) = {
            fresh_reg_grows(from, s, e.span, e.source, None);
            fresh_reg(s, e.span, e.source, None)
        };
        let s = {
            emitted_grows(from, s, MirInstrView::LoadPlace { dest, place });
            emitted(s, MirInstrView::LoadPlace { dest, place })
        };
        (s, dest)
    };
}

pub(crate) proof fn lowered_receiver_value_grows(
    from: FlattenView,
    s: FlattenView,
    e: ExprView,
    h: Option<HirExprView>,
)
    requires
        grown(from, s),
    ensures
        grown(from, lowered_receiver_value(s, e, h).0),
        s.blocks.len() <= lowered_receiver_value(s, e, h).0.blocks.len(),
    decreases e, 1nat,
{
    let _ = {
        match e.kind {
            ExprKindView::MethodCall { object, .. } => {
                lowered_value_grows(from, s, *object, child_facts(h, 0));
                lowered_value(s, *object, child_facts(h, 0))
            },
            _ => {
                lowered_no_value_grows(from, s, e);
                lowered_no_value(s, e)
            },
        }
    };
}

pub(crate) proof fn lowered_receiver_place_grows(
    from: FlattenView,
    s: FlattenView,
    e: ExprView,
    h: Option<HirExprView>,
    destroy: bool,
)
    requires
        grown(from, s),
    ensures
        grown(from, lowered_receiver_place(s, e, h, destroy).0),
        s.blocks.len() <= lowered_receiver_place(s, e, h, destroy).0.blocks.len(),
    decreases e, 1nat,
{
    let _ = {
        match e.kind {
            ExprKindView::MethodCall { object, .. } => {
                lowered_try_place_grows(from, s, *object, child_facts(h, 0), destroy);
                lowered_try_place(s, *object, child_facts(h, 0), destroy)
            },
            _ => (s, None),
        }
    };
}

pub(crate) proof fn consumed_receiver_grows(
    from: FlattenView,
    s: FlattenView,
    e: ExprView,
    h: Option<HirExprView>,
    recv: Reg,
)
    requires
        grown(from, s),
    ensures
        grown(from, consumed_receiver(s, e, h, recv)),
        s.blocks.len() <= consumed_receiver(s, e, h, recv).blocks.len(),
    decreases e, 2nat,
{
    let _ = {
        let (s, place) = {
            lowered_receiver_place_grows(from, s, e, h, true);
            lowered_receiver_place(s, e, h, true)
        };
        let s = {
            consumed_grows(from, s, place, recv);
            consumed(s, place, recv)
        };
        s
    };
}

pub(crate) proof fn consumed_grows(
    from: FlattenView,
    s: FlattenView,
    place: Option<MirPlaceView>,
    recv: Reg,
)
    requires
        grown(from, s),
    ensures
        grown(from, consumed(s, place, recv)),
        s.blocks.len() <= consumed(s, place, recv).blocks.len(),
{
    reveal(consumed);
    let _ = {
        match place {
            Some(place) => if place.proj.len() == 0 {
                let s = {
                    emitted_grows(from, s, MirInstrView::ConsumeVar { var: place.root });
                    emitted(s, MirInstrView::ConsumeVar { var: place.root })
                };
                s
            } else {
                let s = {
                    emitted_grows(from, s, MirInstrView::ConsumePlace { place, marker: recv });
                    emitted(s, MirInstrView::ConsumePlace { place, marker: recv })
                };
                s
            },
            None => s,
        }
    };
}

} // verus!
