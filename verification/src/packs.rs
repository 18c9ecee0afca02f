//! Expansion of type packs and of spread packs.

use crate::ast::{
    ComprehensionClause, ComprehensionClauseView, Expr, ExprKind, ExprKindView, ExprView, FnParam,
    FnParamView, InfixOp, KwArg, KwArgView, Method, MethodView, Param, ParamArg, ParamArgView,
    ParamView, Stmt, StmtKind, StmtKindView, StmtView, StructComptime, StructComptimeView,
    SubscriptArg, SubscriptArgView, TStringPart, TStringPartView, Type, TypeView, WithItem,
    WithItemView, branch_list_view, clone_capture_list, clone_expr, clone_expr_kind,
    clone_expr_list, clone_param_arg, clone_stmt_kind, clone_t_string_part, clone_type,
    clone_type_list, clone_type_param_list, comparison_list_view, comprehension_clause_list_view,
    entry_list_view, expr_list_view, fn_param_list_view, kw_arg_list_view, method_list_view,
    pack_length_list_view, pack_list_view, param_arg_list_view, param_list_view, stmt_list_view,
    struct_comptime_list_view, subscript_arg_list_view, t_string_part_list_view, type_list_view,
    unfold_expr_kind, unfold_method, unfold_stmt_kind, unfold_type, with_item_list_view,
};
use crate::text::{chars_of, clone_string_list, opt_view, same_string, same_text, text_of};
use vstd::prelude::*;

verus! {

/// The value of the last entry of a key.
pub open spec fn pack_types(entries: Seq<(Seq<char>, Seq<TypeView>)>, key: Seq<char>) -> Option<Seq<TypeView>>
    decreases entries.len(),
{
    if entries.len() == 0 {
        None
    } else if entries.last().0 == key {
        Some(entries.last().1)
    } else {
        pack_types(entries.drop_last(), key)
    }
}

/// See [`pack_types`].
pub fn find_pack(entries: &Vec<(String, Vec<Type>)>, key: &String) -> (r: Option<Vec<Type>>)
    ensures
        (match r { Some(v) => Some(type_list_view(v@)), None => None }) == pack_types(pack_list_view(entries@), key@),
{
    let ghost all = pack_list_view(entries@);
    let mut i: usize = entries.len();
    assert(all.take(i as int) =~= all);
    while i > 0
        invariant
            i <= entries@.len(),
            all == pack_list_view(entries@),
            all.len() == entries@.len(),
            pack_types(all, key@) == pack_types(all.take(i as int), key@),
        decreases i,
    {
        assert(all.take(i as int).last() == all[i - 1]);
        assert(all.take(i as int).drop_last() =~= all.take(i - 1));
        i = i - 1;
        if same_string(&entries[i].0, key) {
            return Some(clone_type_list(&entries[i].1));
        }
    }
    None
}

/// The value of the last entry of a key.
pub open spec fn pack_length(entries: Seq<(Seq<char>, usize)>, key: Seq<char>) -> Option<usize>
    decreases entries.len(),
{
    if entries.len() == 0 {
        None
    } else if entries.last().0 == key {
        Some(entries.last().1)
    } else {
        pack_length(entries.drop_last(), key)
    }
}

/// See [`pack_length`].
pub fn find_length(entries: &Vec<(String, usize)>, key: &String) -> (r: Option<usize>)
    ensures
        r == pack_length(pack_length_list_view(entries@), key@),
{
    let ghost all = pack_length_list_view(entries@);
    let mut i: usize = entries.len();
    assert(all.take(i as int) =~= all);
    while i > 0
        invariant
            i <= entries@.len(),
            all == pack_length_list_view(entries@),
            all.len() == entries@.len(),
            pack_length(all, key@) == pack_length(all.take(i as int), key@),
        decreases i,
    {
        assert(all.take(i as int).last() == all[i - 1]);
        assert(all.take(i as int).drop_last() =~= all.take(i - 1));
        i = i - 1;
        if same_string(&entries[i].0, key) {
            return Some(entries[i].1);
        }
    }
    None
}

/// A name without the stars before it.
#[verifier::opaque]
pub open spec fn without_stars(name: Seq<char>) -> Seq<char> {
    name.skip(stars_before(name, 0) as int)
}

/// How many stars stand from a place on.
pub open spec fn stars_before(name: Seq<char>, i: nat) -> nat
    decreases name.len() - i,
{
    if i < name.len() && name[i as int] == '*' {
        stars_before(name, i + 1)
    } else {
        i
    }
}

/// Whether a name starts with a star.
#[verifier::opaque]
pub open spec fn begins_with_star(name: Seq<char>) -> bool {
    name.len() > 0 && name[0] == '*'
}

/// See [`begins_with_star`].
pub fn starts_with_star(name: &String) -> (r: bool)
    ensures
        r == begins_with_star(name@),
{
    proof {
        reveal(begins_with_star);
    }
    let chars = chars_of(name.as_str());
    chars.len() > 0 && chars[0] == '*'
}

/// See [`without_stars`].
pub fn trim_stars(name: &String) -> (r: String)
    ensures
        r@ == without_stars(name@),
{
    proof {
        reveal(without_stars);
    }
    let chars = chars_of(name.as_str());
    let mut i: usize = 0;
    while i < chars.len() && chars[i] == '*'
        invariant
            i <= chars@.len(),
            chars@ == name@,
            stars_before(name@, 0) == stars_before(name@, i as nat),
        decreases chars@.len() - i,
    {
        i = i + 1;
    }
    text_of(&chars, i, chars.len())
}


/// The types of the pack an argument names.
#[verifier::opaque]
pub open spec fn pack_named(
    arg: ParamArgView,
    packs: Seq<(Seq<char>, Seq<TypeView>)>,
) -> Option<Seq<TypeView>> {
    match arg {
        ParamArgView::Type(ty) => match ty {
            TypeView::Named(name, args) => if begins_with_star(name) && args.len() == 0 {
                pack_types(packs, without_stars(name))
            } else {
                None
            },
            _ => None,
        },
        _ => None,
    }
}

/// See [`pack_named`].
pub fn pack_of(arg: &ParamArg, packs: &Vec<(String, Vec<Type>)>) -> (r: Option<Vec<Type>>)
    ensures
        (
            match r { Some(v) => Some(type_list_view(v@)), None => None }
        ) == pack_named(arg@, pack_list_view(packs@)),
{
    proof { reveal(pack_named); }
    match arg {
        ParamArg::Type(ty) => {
            proof { unfold_type(*ty); }
            match ty {
                Type::Named(name, args) => {
                    if starts_with_star(name) && args.len() == 0 {
                        find_pack(packs, &trim_stars(name))
                    } else {
                        None
                    }
                },
                _ => {
                    assert(!(ty@ is Named));
                    None
                },
            }
        },
        _ => {
            assert(!(arg@ is Type));
            None
        },
    }
}

pub open spec fn and_type_args(
    types: Seq<TypeView>,
    i: nat,
    out: Seq<ParamArgView>,
) -> Seq<ParamArgView>
    decreases types, (types.len() - i) as nat,
{
    if i >= types.len() {
        out
    } else {
        let ty = types[i as int];
        let out = out.push(ParamArgView::Type(ty));
        and_type_args(types, i + 1, out)
    }
}

/// See [`and_type_args`].
pub fn with_type_args(types: &Vec<Type>, found: Vec<ParamArg>) -> (r: Vec<ParamArg>)
    ensures
        param_arg_list_view(r@) == and_type_args(
            type_list_view(types@),
            0,
            param_arg_list_view(found@),
        ),
    decreases types@, 0nat,
{
    let mut out: Vec<ParamArg> = found;
    let ghost goal = and_type_args(type_list_view(types@), 0, param_arg_list_view(found@));
    let mut i: usize = 0;
    while i < types.len()
        invariant
            i <= types@.len(),
            type_list_view(types@).len() == types@.len(),
            and_type_args(type_list_view(types@), i as nat, param_arg_list_view(out@)) == goal,
            goal == and_type_args(type_list_view(types@), 0, param_arg_list_view(found@)),
        decreases types@.len() - i,
    {
        let ty = &types[i];
        assert(type_list_view(types@)[i as int] == ty@);
        let item = ParamArg::Type(clone_type(ty));
        let ghost before = param_arg_list_view(out@);
        let ghost added = item@;
        out.push(item);
        assert(param_arg_list_view(out@) =~= before.push(added));
        i = i + 1;
    }
    out
}

/// The pack that an argument spreads, with whether its elements are moved.
#[verifier::opaque]
pub open spec fn pack_spread(arg: ExprView) -> Option<(Seq<char>, bool)> {
    match arg.kind {
        ExprKindView::Spread(value) => match value.kind {
            ExprKindView::Identifier(name) => Some((name, false)),
            ExprKindView::Transfer(inner) => pack_moved(*inner),
            _ => None,
        },
        _ => None,
    }
}

/// See [`pack_spread`].
pub fn spread_pack(arg: &Expr) -> (r: Option<(String, bool)>)
    ensures
        (match r { Some(v) => Some((v.0@, v.1)), None => None }) == pack_spread(arg@),
{
    proof { reveal(pack_spread); }
    proof { unfold_expr_kind(arg.kind); }
    match &arg.kind {
        ExprKind::Spread(value) => {
            proof { unfold_expr_kind(value.kind); }
            match &value.kind {
                ExprKind::Identifier(name) => Some((name.clone(), false)),
                ExprKind::Transfer(inner) => moved_pack(&**inner),
                _ => {
                    assert(!(value.kind@ is Identifier));
                    assert(!(value.kind@ is Transfer));
                    None
                },
            }
        },
        _ => {
            assert(!(arg.kind@ is Spread));
            None
        },
    }
}

#[verifier::opaque]
pub open spec fn pack_moved(inner: ExprView) -> Option<(Seq<char>, bool)> {
    match inner.kind {
        ExprKindView::Identifier(name) => Some((name, true)),
        _ => None,
    }
}

/// See [`pack_moved`].
pub fn moved_pack(inner: &Expr) -> (r: Option<(String, bool)>)
    ensures
        (match r { Some(v) => Some((v.0@, v.1)), None => None }) == pack_moved(inner@),
{
    proof { reveal(pack_moved); }
    proof { unfold_expr_kind(inner.kind); }
    match &inner.kind {
        ExprKind::Identifier(name) => Some((name.clone(), true)),
        _ => {
            assert(!(inner.kind@ is Identifier));
            None
        },
    }
}

/// An expression at the place of another one.
#[verifier::opaque]
pub open spec fn placed_at(kind: ExprKindView, arg: ExprView) -> ExprView {
    ExprView { kind, span: arg.span, source: arg.source }
}

/// See [`placed_at`].
pub fn at_place(kind: ExprKind, arg: &Expr) -> (r: Expr)
    ensures
        r@ == placed_at(kind@, arg@),
{
    proof { reveal(placed_at); }
    Expr {
        kind,
        span: arg.span,
        source: (match (&arg.source) { Some(y) => Some(y.clone()), None => None }),
    }
}

/// One element of a pack.
#[verifier::opaque]
pub open spec fn element_of_pack(
    arg: ExprView,
    pack: Seq<char>,
    moved: bool,
    k: usize,
) -> ExprView {
    let base = placed_at(ExprKindView::Identifier(pack), arg);
    let index = placed_at(ExprKindView::Int(k as i64), arg);
    let indexed = placed_at(
        ExprKindView::Index { object: Box::new(base), index: Box::new(index) },
        arg,
    );
    if moved {
        placed_at(ExprKindView::Transfer(Box::new(indexed)), arg)
    } else {
        indexed
    }
}

/// See [`element_of_pack`].
pub fn pack_element(arg: &Expr, pack: &String, moved: bool, k: usize) -> (r: Expr)
    ensures
        r@ == element_of_pack(arg@, pack@, moved, k),
{
    proof { reveal(element_of_pack); }
    let kind = ExprKind::Identifier(pack.clone());
    proof { unfold_expr_kind(kind); }
    let base = at_place(kind, arg);
    let kind2 = ExprKind::Int(k as i64);
    proof { unfold_expr_kind(kind2); }
    let index = at_place(kind2, arg);
    let kind3 = ExprKind::Index { object: Box::new(base), index: Box::new(index) };
    proof { unfold_expr_kind(kind3); }
    let indexed = at_place(kind3, arg);
    if moved {
        let kind4 = ExprKind::Transfer(Box::new(indexed));
        proof { unfold_expr_kind(kind4); }
        at_place(kind4, arg)
    } else {
        indexed
    }
}

pub open spec fn and_elements(
    arg: ExprView,
    pack: Seq<char>,
    moved: bool,
    k: usize,
    length: usize,
    found: Seq<ExprView>,
) -> Seq<ExprView>
    decreases (length - k) as nat,
{
    if k < length {
        let out = found;
        let out = out.push(element_of_pack(arg, pack, moved, k));
        and_elements(arg, pack, moved, (k + 1) as usize, length, out)
    } else {
        found
    }
}

/// See [`and_elements`].
pub fn with_elements(
    arg: &Expr,
    pack: &String,
    moved: bool,
    k: usize,
    length: usize,
    found: Vec<Expr>,
) -> (r: Vec<Expr>)
    ensures
        expr_list_view(r@) == and_elements(arg@, pack@, moved, k, length, expr_list_view(found@)),
    decreases (length - k) as nat,
{
    if k < length {
        let mut out = found;
        let item = pack_element(arg, pack, moved, k);
        let ghost before = expr_list_view(out@);
        let ghost added = item@;
        out.push(item);
        assert(expr_list_view(out@) =~= before.push(added));
        with_elements(arg, pack, moved, k + 1, length, out)
    } else {
        found
    }
}

#[verifier::opaque]
pub open spec fn and_spread(
    arg: ExprView,
    lengths: Seq<(Seq<char>, usize)>,
    found: Seq<ExprView>,
) -> Seq<ExprView> {
    match pack_spread(arg) {
        Some((pack, moved)) => match pack_length(lengths, pack) {
            Some(length) => and_elements(arg, pack, moved, 0, length, found),
            None => and_expr(found, arg),
        },
        None => and_expr(found, arg),
    }
}

/// See [`and_spread`].
pub fn with_spread(
    arg: &Expr,
    lengths: &Vec<(String, usize)>,
    found: Vec<Expr>,
) -> (r: Vec<Expr>)
    ensures
        expr_list_view(r@) == and_spread(
            arg@,
            pack_length_list_view(lengths@),
            expr_list_view(found@),
        ),
{
    proof { reveal(and_spread); }
    match spread_pack(arg) {
        Some((pack, moved)) => {
            match find_length(lengths, &pack) {
                Some(length) => with_elements(arg, &pack, moved, 0, length, found),
                None => with_expr(found, arg),
            }
        },
        None => with_expr(found, arg),
    }
}

#[verifier::opaque]
pub open spec fn and_expr(found: Seq<ExprView>, arg: ExprView) -> Seq<ExprView> {
    let out = found;
    let out = out.push(arg);
    out
}

/// See [`and_expr`].
pub fn with_expr(found: Vec<Expr>, arg: &Expr) -> (r: Vec<Expr>)
    ensures
        expr_list_view(r@) == and_expr(expr_list_view(found@), arg@),
{
    proof { reveal(and_expr); }
    let mut out = found;
    let item = clone_expr(arg);
    let ghost before = expr_list_view(out@);
    let ghost added = item@;
    out.push(item);
    assert(expr_list_view(out@) =~= before.push(added));
    out
}

/// Arguments with each spread pack of known length replaced by its elements.
pub open spec fn spread_out(
    args: Seq<ExprView>,
    lengths: Seq<(Seq<char>, usize)>,
    i: nat,
    out: Seq<ExprView>,
) -> Seq<ExprView>
    decreases args, (args.len() - i) as nat,
{
    if i >= args.len() {
        out
    } else {
        let arg = args[i as int];
        let out = and_spread(arg, lengths, out);
        spread_out(args, lengths, i + 1, out)
    }
}

/// See [`spread_out`].
pub fn expand_tuple_spread_arguments(
    args: &Vec<Expr>,
    lengths: &Vec<(String, usize)>,
) -> (r: Vec<Expr>)
    ensures
        expr_list_view(r@) == spread_out(
            expr_list_view(args@),
            pack_length_list_view(lengths@),
            0,
            Seq::<ExprView>::empty(),
        ),
    decreases args@, 0nat,
{
    let mut out: Vec<Expr> = Vec::new();
    assert(expr_list_view(out@) =~= Seq::<ExprView>::empty());
    let ghost goal = spread_out(
        expr_list_view(args@),
        pack_length_list_view(lengths@),
        0,
        Seq::<ExprView>::empty(),
    );
    let mut i: usize = 0;
    while i < args.len()
        invariant
            i <= args@.len(),
            expr_list_view(args@).len() == args@.len(),
            spread_out(
                expr_list_view(args@),
                pack_length_list_view(lengths@),
                i as nat,
                expr_list_view(out@),
            ) == goal,
            goal == spread_out(
                expr_list_view(args@),
                pack_length_list_view(lengths@),
                0,
                Seq::<ExprView>::empty(),
            ),
        decreases args@.len() - i,
    {
        let arg = &args[i];
        assert(expr_list_view(args@)[i as int] == arg@);
        out = with_spread(arg, lengths, out);
        i = i + 1;
    }
    out
}

/// The arguments of a call. Only a tuple takes the elements of a pack.
#[verifier::opaque]
pub open spec fn args_spread(
    name: Seq<char>,
    args: Seq<ExprView>,
    lengths: Seq<(Seq<char>, usize)>,
) -> Seq<ExprView> {
    if name == "Tuple"@ {
        spread_out(args, lengths, 0, Seq::empty())
    } else {
        args
    }
}

/// See [`args_spread`].
pub fn spread_args(
    name: &String,
    args: Vec<Expr>,
    lengths: &Vec<(String, usize)>,
) -> (r: Vec<Expr>)
    ensures
        expr_list_view(r@) == args_spread(
            name@,
            expr_list_view(args@),
            pack_length_list_view(lengths@),
        ),
{
    proof { reveal(args_spread); }
    if same_text(name.as_str(), "Tuple") {
        expand_tuple_spread_arguments(&args, lengths)
    } else {
        args
    }
}

/// The arguments of a type, with each pack among them replaced by its types.
pub open spec fn expanded_param_arg_list(
    items: Seq<ParamArgView>,
    packs: Seq<(Seq<char>, Seq<TypeView>)>,
    i: nat,
    out: Seq<ParamArgView>,
) -> Seq<ParamArgView>
    decreases items, (items.len() - i) as nat,
{
    if i >= items.len() {
        out
    } else {
        let item = items[i as int];
        match pack_named(item, packs) {
            Some(types) => {
                let out = and_type_args(types, 0, out);
                expanded_param_arg_list(items, packs, i + 1, out)
            },
            None => {
                let out = out.push(expanded_param_arg(item, packs));
                expanded_param_arg_list(items, packs, i + 1, out)
            },
        }
    }
}

/// See [`expanded_param_arg_list`].
pub fn expand_param_arg_list(
    items: &Vec<ParamArg>,
    packs: &Vec<(String, Vec<Type>)>,
) -> (r: Vec<ParamArg>)
    ensures
        param_arg_list_view(r@) == expanded_param_arg_list(
            param_arg_list_view(items@),
            pack_list_view(packs@),
            0,
            Seq::<ParamArgView>::empty(),
        ),
    decreases items@, 0nat,
{
    let mut out: Vec<ParamArg> = Vec::new();
    assert(param_arg_list_view(out@) =~= Seq::<ParamArgView>::empty());
    let ghost goal = expanded_param_arg_list(
        param_arg_list_view(items@),
        pack_list_view(packs@),
        0,
        Seq::<ParamArgView>::empty(),
    );
    let mut i: usize = 0;
    while i < items.len()
        invariant
            i <= items@.len(),
            param_arg_list_view(items@).len() == items@.len(),
            expanded_param_arg_list(
                param_arg_list_view(items@),
                pack_list_view(packs@),
                i as nat,
                param_arg_list_view(out@),
            ) == goal,
            goal == expanded_param_arg_list(
                param_arg_list_view(items@),
                pack_list_view(packs@),
                0,
                Seq::<ParamArgView>::empty(),
            ),
        decreases items@.len() - i,
    {
        let item = &items[i];
        assert(param_arg_list_view(items@)[i as int] == item@);
        match pack_of(item, packs) {
            Some(types) => {
                out = with_type_args(&types, out);
            },
            None => {
                let item2 = expand_param_arg(item, packs);
                let ghost before = param_arg_list_view(out@);
                let ghost added = item2@;
                out.push(item2);
                assert(param_arg_list_view(out@) =~= before.push(added));
            },
        }
        i = i + 1;
    }
    out
}

pub open spec fn expanded_type_list(
    items: Seq<TypeView>,
    packs: Seq<(Seq<char>, Seq<TypeView>)>,
    i: nat,
    out: Seq<TypeView>,
) -> Seq<TypeView>
    decreases items, (items.len() - i) as nat,
{
    if i >= items.len() {
        out
    } else {
        let item = items[i as int];
        let out = out.push(expanded_type(item, packs));
        expanded_type_list(items, packs, i + 1, out)
    }
}

/// See [`expanded_type_list`].
pub fn expand_type_list(items: &Vec<Type>, packs: &Vec<(String, Vec<Type>)>) -> (r: Vec<Type>)
    ensures
        type_list_view(r@) == expanded_type_list(
            type_list_view(items@),
            pack_list_view(packs@),
            0,
            Seq::<TypeView>::empty(),
        ),
    decreases items@, 0nat,
{
    let mut out: Vec<Type> = Vec::new();
    assert(type_list_view(out@) =~= Seq::<TypeView>::empty());
    let ghost goal = expanded_type_list(
        type_list_view(items@),
        pack_list_view(packs@),
        0,
        Seq::<TypeView>::empty(),
    );
    let mut i: usize = 0;
    while i < items.len()
        invariant
            i <= items@.len(),
            type_list_view(items@).len() == items@.len(),
            expanded_type_list(
                type_list_view(items@),
                pack_list_view(packs@),
                i as nat,
                type_list_view(out@),
            ) == goal,
            goal == expanded_type_list(
                type_list_view(items@),
                pack_list_view(packs@),
                0,
                Seq::<TypeView>::empty(),
            ),
        decreases items@.len() - i,
    {
        let item = &items[i];
        assert(type_list_view(items@)[i as int] == item@);
        let item2 = expand_type(item, packs);
        let ghost before = type_list_view(out@);
        let ghost added = item2@;
        out.push(item2);
        assert(type_list_view(out@) =~= before.push(added));
        i = i + 1;
    }
    out
}

pub open spec fn expanded_opt_boxed_type(
    value: Option<Box<TypeView>>,
    packs: Seq<(Seq<char>, Seq<TypeView>)>,
) -> Option<Box<TypeView>>
    decreases value, 0nat,
{
    match value {
        Some(value) => Some(Box::new(expanded_type(*value, packs))),
        None => None,
    }
}

/// See [`expanded_opt_boxed_type`].
pub fn expand_opt_boxed_type(
    value: &Option<Box<Type>>,
    packs: &Vec<(String, Vec<Type>)>,
) -> (r: Option<Box<Type>>)
    ensures
        (match r { Some(v) => Some(Box::new(v@)), None => None }) == expanded_opt_boxed_type(
            (match value { Some(v) => Some(Box::new(v@)), None => None }),
            pack_list_view(packs@),
        ),
    decreases value, 0nat,
{
    match value {
        Some(value) => Some(Box::new(expand_type(&**value, packs))),
        None => None,
    }
}

/// A type with the packs among its arguments replaced by their types.
pub open spec fn expanded_type(ty: TypeView, packs: Seq<(Seq<char>, Seq<TypeView>)>) -> TypeView
    decreases ty, 0nat,
{
    match ty {
        TypeView::Named(a0, a1) => TypeView::Named(
            a0,
            expanded_param_arg_list(a1, packs, 0, Seq::empty()),
        ),
        TypeView::Assoc { base, name } => TypeView::Assoc {
            base: Box::new(expanded_type(*base, packs)),
            name,
        },
        TypeView::Func { params, ret, thin, raises, raises_type } => TypeView::Func {
            params: expanded_type_list(params, packs, 0, Seq::empty()),
            ret: Box::new(expanded_type(*ret, packs)),
            thin,
            raises,
            raises_type: expanded_opt_boxed_type(raises_type, packs),
        },
        TypeView::Ref { referent, origin } => TypeView::Ref {
            referent: Box::new(expanded_type(*referent, packs)),
            origin,
        },
        _ => ty,
    }
}

/// See [`expanded_type`].
pub fn expand_type(ty: &Type, packs: &Vec<(String, Vec<Type>)>) -> (r: Type)
    ensures
        r@ == expanded_type(ty@, pack_list_view(packs@)),
    decreases ty, 0nat,
{
    proof { unfold_type(*ty); }
    match ty {
        Type::Named(a0, a1) => {
            let type_value = Type::Named(a0.clone(), expand_param_arg_list(a1, packs));
            proof { unfold_type(type_value); }
            type_value
        },
        Type::Assoc { base, name } => {
            let type_value2 = Type::Assoc {
                base: Box::new(expand_type(&**base, packs)),
                name: name.clone(),
            };
            proof { unfold_type(type_value2); }
            type_value2
        },
        Type::Func { params, ret, thin, raises, raises_type } => {
            let type_value3 = Type::Func {
                params: expand_type_list(params, packs),
                ret: Box::new(expand_type(&**ret, packs)),
                thin: *thin,
                raises: *raises,
                raises_type: expand_opt_boxed_type(raises_type, packs),
            };
            proof { unfold_type(type_value3); }
            type_value3
        },
        Type::Ref { referent, origin } => {
            let type_value4 = Type::Ref {
                referent: Box::new(expand_type(&**referent, packs)),
                origin: (
                    match origin { Some(y) => Some(Box::new(clone_expr((&**y)))), None => None }
                ),
            };
            proof { unfold_type(type_value4); }
            type_value4
        },
        _ => {
            assert(!(ty@ is Named));
            assert(!(ty@ is Assoc));
            assert(!(ty@ is Func));
            assert(!(ty@ is Ref));
            clone_type(ty)
        },
    }
}

pub open spec fn expanded_param_arg(
    param_arg: ParamArgView,
    packs: Seq<(Seq<char>, Seq<TypeView>)>,
) -> ParamArgView
    decreases param_arg, 0nat,
{
    match param_arg {
        ParamArgView::Type(a0) => ParamArgView::Type(expanded_type(a0, packs)),
        ParamArgView::Named { name, value } => ParamArgView::Named {
            name,
            value: Box::new(expanded_param_arg(*value, packs)),
        },
        _ => param_arg,
    }
}

/// See [`expanded_param_arg`].
pub fn expand_param_arg(param_arg: &ParamArg, packs: &Vec<(String, Vec<Type>)>) -> (r: ParamArg)
    ensures
        r@ == expanded_param_arg(param_arg@, pack_list_view(packs@)),
    decreases param_arg, 0nat,
{
    match param_arg {
        ParamArg::Type(a0) => ParamArg::Type(expand_type(a0, packs)),
        ParamArg::Named { name, value } => ParamArg::Named {
            name: name.clone(),
            value: Box::new(expand_param_arg(&**value, packs)),
        },
        _ => {
            assert(!(param_arg@ is Type));
            assert(!(param_arg@ is Named));
            clone_param_arg(param_arg)
        },
    }
}

pub open spec fn expanded_opt_type(
    value: Option<TypeView>,
    packs: Seq<(Seq<char>, Seq<TypeView>)>,
) -> Option<TypeView>
    decreases value, 0nat,
{
    match value {
        Some(value) => Some(expanded_type(value, packs)),
        None => None,
    }
}

/// See [`expanded_opt_type`].
pub fn expand_opt_type(
    value: &Option<Type>,
    packs: &Vec<(String, Vec<Type>)>,
) -> (r: Option<Type>)
    ensures
        opt_view(r) == expanded_opt_type(opt_view(*value), pack_list_view(packs@)),
    decreases value, 0nat,
{
    match value {
        Some(value) => Some(expand_type(value, packs)),
        None => None,
    }
}

pub open spec fn expanded_t_string_part(
    t_string_part: TStringPartView,
    packs: Seq<(Seq<char>, Seq<TypeView>)>,
    lengths: Seq<(Seq<char>, usize)>,
) -> TStringPartView
    decreases t_string_part, 0nat,
{
    match t_string_part {
        TStringPartView::Expr(a0) => TStringPartView::Expr(
            Box::new(expanded_expr(*a0, packs, lengths))
        ),
        _ => t_string_part,
    }
}

/// See [`expanded_t_string_part`].
pub fn expand_t_string_part(
    t_string_part: &TStringPart,
    packs: &Vec<(String, Vec<Type>)>,
    lengths: &Vec<(String, usize)>,
) -> (r: TStringPart)
    ensures
        r@ == expanded_t_string_part(
            t_string_part@,
            pack_list_view(packs@),
            pack_length_list_view(lengths@),
        ),
    decreases t_string_part, 0nat,
{
    match t_string_part {
        TStringPart::Expr(a0) => TStringPart::Expr(Box::new(expand_expr(&**a0, packs, lengths))),
        _ => {
            assert(!(t_string_part@ is Expr));
            clone_t_string_part(t_string_part)
        },
    }
}

pub open spec fn expanded_t_string_part_list(
    items: Seq<TStringPartView>,
    packs: Seq<(Seq<char>, Seq<TypeView>)>,
    lengths: Seq<(Seq<char>, usize)>,
    i: nat,
    out: Seq<TStringPartView>,
) -> Seq<TStringPartView>
    decreases items, (items.len() - i) as nat,
{
    if i >= items.len() {
        out
    } else {
        let item = items[i as int];
        let out = out.push(expanded_t_string_part(item, packs, lengths));
        expanded_t_string_part_list(items, packs, lengths, i + 1, out)
    }
}

/// See [`expanded_t_string_part_list`].
pub fn expand_t_string_part_list(
    items: &Vec<TStringPart>,
    packs: &Vec<(String, Vec<Type>)>,
    lengths: &Vec<(String, usize)>,
) -> (r: Vec<TStringPart>)
    ensures
        t_string_part_list_view(r@) == expanded_t_string_part_list(
            t_string_part_list_view(items@),
            pack_list_view(packs@),
            pack_length_list_view(lengths@),
            0,
            Seq::<TStringPartView>::empty(),
        ),
    decreases items@, 0nat,
{
    let mut out: Vec<TStringPart> = Vec::new();
    assert(t_string_part_list_view(out@) =~= Seq::<TStringPartView>::empty());
    let ghost goal = expanded_t_string_part_list(
        t_string_part_list_view(items@),
        pack_list_view(packs@),
        pack_length_list_view(lengths@),
        0,
        Seq::<TStringPartView>::empty(),
    );
    let mut i: usize = 0;
    while i < items.len()
        invariant
            i <= items@.len(),
            t_string_part_list_view(items@).len() == items@.len(),
            expanded_t_string_part_list(
                t_string_part_list_view(items@),
                pack_list_view(packs@),
                pack_length_list_view(lengths@),
                i as nat,
                t_string_part_list_view(out@),
            ) == goal,
            goal == expanded_t_string_part_list(
                t_string_part_list_view(items@),
                pack_list_view(packs@),
                pack_length_list_view(lengths@),
                0,
                Seq::<TStringPartView>::empty(),
            ),
        decreases items@.len() - i,
    {
        let item = &items[i];
        assert(t_string_part_list_view(items@)[i as int] == item@);
        let item2 = expand_t_string_part(item, packs, lengths);
        let ghost before = t_string_part_list_view(out@);
        let ghost added = item2@;
        out.push(item2);
        assert(t_string_part_list_view(out@) =~= before.push(added));
        i = i + 1;
    }
    out
}

pub open spec fn expanded_comparison_list(
    items: Seq<(InfixOp, ExprView)>,
    packs: Seq<(Seq<char>, Seq<TypeView>)>,
    lengths: Seq<(Seq<char>, usize)>,
    i: nat,
    out: Seq<(InfixOp, ExprView)>,
) -> Seq<(InfixOp, ExprView)>
    decreases items, (items.len() - i) as nat,
{
    if i >= items.len() {
        out
    } else {
        let item = items[i as int];
        let out = out.push((item.0, expanded_expr(item.1, packs, lengths)));
        expanded_comparison_list(items, packs, lengths, i + 1, out)
    }
}

/// See [`expanded_comparison_list`].
pub fn expand_comparison_list(
    items: &Vec<(InfixOp, Expr)>,
    packs: &Vec<(String, Vec<Type>)>,
    lengths: &Vec<(String, usize)>,
) -> (r: Vec<(InfixOp, Expr)>)
    ensures
        comparison_list_view(r@) == expanded_comparison_list(
            comparison_list_view(items@),
            pack_list_view(packs@),
            pack_length_list_view(lengths@),
            0,
            Seq::<(InfixOp, ExprView)>::empty(),
        ),
    decreases items@, 0nat,
{
    let mut out: Vec<(InfixOp, Expr)> = Vec::new();
    assert(comparison_list_view(out@) =~= Seq::<(InfixOp, ExprView)>::empty());
    let ghost goal = expanded_comparison_list(
        comparison_list_view(items@),
        pack_list_view(packs@),
        pack_length_list_view(lengths@),
        0,
        Seq::<(InfixOp, ExprView)>::empty(),
    );
    let mut i: usize = 0;
    while i < items.len()
        invariant
            i <= items@.len(),
            comparison_list_view(items@).len() == items@.len(),
            expanded_comparison_list(
                comparison_list_view(items@),
                pack_list_view(packs@),
                pack_length_list_view(lengths@),
                i as nat,
                comparison_list_view(out@),
            ) == goal,
            goal == expanded_comparison_list(
                comparison_list_view(items@),
                pack_list_view(packs@),
                pack_length_list_view(lengths@),
                0,
                Seq::<(InfixOp, ExprView)>::empty(),
            ),
        decreases items@.len() - i,
    {
        let item = &items[i];
        assert(comparison_list_view(items@)[i as int].1 =~= item.1@);
        let item2 = (item.0, expand_expr(&item.1, packs, lengths));
        let ghost before = comparison_list_view(out@);
        let ghost added = (item2.0, item2.1@);
        out.push(item2);
        assert(comparison_list_view(out@) =~= before.push(added));
        i = i + 1;
    }
    out
}

pub open spec fn expanded_expr_list(
    items: Seq<ExprView>,
    packs: Seq<(Seq<char>, Seq<TypeView>)>,
    lengths: Seq<(Seq<char>, usize)>,
    i: nat,
    out: Seq<ExprView>,
) -> Seq<ExprView>
    decreases items, (items.len() - i) as nat,
{
    if i >= items.len() {
        out
    } else {
        let item = items[i as int];
        let out = out.push(expanded_expr(item, packs, lengths));
        expanded_expr_list(items, packs, lengths, i + 1, out)
    }
}

/// See [`expanded_expr_list`].
pub fn expand_expr_list(
    items: &Vec<Expr>,
    packs: &Vec<(String, Vec<Type>)>,
    lengths: &Vec<(String, usize)>,
) -> (r: Vec<Expr>)
    ensures
        expr_list_view(r@) == expanded_expr_list(
            expr_list_view(items@),
            pack_list_view(packs@),
            pack_length_list_view(lengths@),
            0,
            Seq::<ExprView>::empty(),
        ),
    decreases items@, 0nat,
{
    let mut out: Vec<Expr> = Vec::new();
    assert(expr_list_view(out@) =~= Seq::<ExprView>::empty());
    let ghost goal = expanded_expr_list(
        expr_list_view(items@),
        pack_list_view(packs@),
        pack_length_list_view(lengths@),
        0,
        Seq::<ExprView>::empty(),
    );
    let mut i: usize = 0;
    while i < items.len()
        invariant
            i <= items@.len(),
            expr_list_view(items@).len() == items@.len(),
            expanded_expr_list(
                expr_list_view(items@),
                pack_list_view(packs@),
                pack_length_list_view(lengths@),
                i as nat,
                expr_list_view(out@),
            ) == goal,
            goal == expanded_expr_list(
                expr_list_view(items@),
                pack_list_view(packs@),
                pack_length_list_view(lengths@),
                0,
                Seq::<ExprView>::empty(),
            ),
        decreases items@.len() - i,
    {
        let item = &items[i];
        assert(expr_list_view(items@)[i as int] == item@);
        let item2 = expand_expr(item, packs, lengths);
        let ghost before = expr_list_view(out@);
        let ghost added = item2@;
        out.push(item2);
        assert(expr_list_view(out@) =~= before.push(added));
        i = i + 1;
    }
    out
}

pub open spec fn expanded_kw_arg(
    kw_arg: KwArgView,
    packs: Seq<(Seq<char>, Seq<TypeView>)>,
    lengths: Seq<(Seq<char>, usize)>,
) -> KwArgView
    decreases kw_arg, 0nat,
{
    KwArgView { name: kw_arg.name, value: expanded_expr(kw_arg.value, packs, lengths) }
}

/// See [`expanded_kw_arg`].
pub fn expand_kw_arg(
    kw_arg: &KwArg,
    packs: &Vec<(String, Vec<Type>)>,
    lengths: &Vec<(String, usize)>,
) -> (r: KwArg)
    ensures
        r@ == expanded_kw_arg(
            kw_arg@,
            pack_list_view(packs@),
            pack_length_list_view(lengths@),
        ),
    decreases kw_arg, 0nat,
{
    KwArg { name: (&kw_arg.name).clone(), value: expand_expr(&kw_arg.value, packs, lengths) }
}

pub open spec fn expanded_kw_arg_list(
    items: Seq<KwArgView>,
    packs: Seq<(Seq<char>, Seq<TypeView>)>,
    lengths: Seq<(Seq<char>, usize)>,
    i: nat,
    out: Seq<KwArgView>,
) -> Seq<KwArgView>
    decreases items, (items.len() - i) as nat,
{
    if i >= items.len() {
        out
    } else {
        let item = items[i as int];
        let out = out.push(expanded_kw_arg(item, packs, lengths));
        expanded_kw_arg_list(items, packs, lengths, i + 1, out)
    }
}

/// See [`expanded_kw_arg_list`].
pub fn expand_kw_arg_list(
    items: &Vec<KwArg>,
    packs: &Vec<(String, Vec<Type>)>,
    lengths: &Vec<(String, usize)>,
) -> (r: Vec<KwArg>)
    ensures
        kw_arg_list_view(r@) == expanded_kw_arg_list(
            kw_arg_list_view(items@),
            pack_list_view(packs@),
            pack_length_list_view(lengths@),
            0,
            Seq::<KwArgView>::empty(),
        ),
    decreases items@, 0nat,
{
    let mut out: Vec<KwArg> = Vec::new();
    assert(kw_arg_list_view(out@) =~= Seq::<KwArgView>::empty());
    let ghost goal = expanded_kw_arg_list(
        kw_arg_list_view(items@),
        pack_list_view(packs@),
        pack_length_list_view(lengths@),
        0,
        Seq::<KwArgView>::empty(),
    );
    let mut i: usize = 0;
    while i < items.len()
        invariant
            i <= items@.len(),
            kw_arg_list_view(items@).len() == items@.len(),
            expanded_kw_arg_list(
                kw_arg_list_view(items@),
                pack_list_view(packs@),
                pack_length_list_view(lengths@),
                i as nat,
                kw_arg_list_view(out@),
            ) == goal,
            goal == expanded_kw_arg_list(
                kw_arg_list_view(items@),
                pack_list_view(packs@),
                pack_length_list_view(lengths@),
                0,
                Seq::<KwArgView>::empty(),
            ),
        decreases items@.len() - i,
    {
        let item = &items[i];
        assert(kw_arg_list_view(items@)[i as int] == item@);
        let item2 = expand_kw_arg(item, packs, lengths);
        let ghost before = kw_arg_list_view(out@);
        let ghost added = item2@;
        out.push(item2);
        assert(kw_arg_list_view(out@) =~= before.push(added));
        i = i + 1;
    }
    out
}

pub open spec fn expanded_opt_boxed_expr(
    value: Option<Box<ExprView>>,
    packs: Seq<(Seq<char>, Seq<TypeView>)>,
    lengths: Seq<(Seq<char>, usize)>,
) -> Option<Box<ExprView>>
    decreases value, 0nat,
{
    match value {
        Some(value) => Some(Box::new(expanded_expr(*value, packs, lengths))),
        None => None,
    }
}

/// See [`expanded_opt_boxed_expr`].
pub fn expand_opt_boxed_expr(
    value: &Option<Box<Expr>>,
    packs: &Vec<(String, Vec<Type>)>,
    lengths: &Vec<(String, usize)>,
) -> (r: Option<Box<Expr>>)
    ensures
        (match r { Some(v) => Some(Box::new(v@)), None => None }) == expanded_opt_boxed_expr(
            (match value { Some(v) => Some(Box::new(v@)), None => None }),
            pack_list_view(packs@),
            pack_length_list_view(lengths@),
        ),
    decreases value, 0nat,
{
    match value {
        Some(value) => Some(Box::new(expand_expr(&**value, packs, lengths))),
        None => None,
    }
}

pub open spec fn expanded_subscript_arg(
    subscript_arg: SubscriptArgView,
    packs: Seq<(Seq<char>, Seq<TypeView>)>,
    lengths: Seq<(Seq<char>, usize)>,
) -> SubscriptArgView
    decreases subscript_arg, 0nat,
{
    match subscript_arg {
        SubscriptArgView::Index(a0) => SubscriptArgView::Index(expanded_expr(a0, packs, lengths)),
        SubscriptArgView::Slice { lower, upper, step } => SubscriptArgView::Slice {
            lower: expanded_opt_boxed_expr(lower, packs, lengths),
            upper: expanded_opt_boxed_expr(upper, packs, lengths),
            step: expanded_opt_boxed_expr(step, packs, lengths),
        },
    }
}

/// See [`expanded_subscript_arg`].
pub fn expand_subscript_arg(
    subscript_arg: &SubscriptArg,
    packs: &Vec<(String, Vec<Type>)>,
    lengths: &Vec<(String, usize)>,
) -> (r: SubscriptArg)
    ensures
        r@ == expanded_subscript_arg(
            subscript_arg@,
            pack_list_view(packs@),
            pack_length_list_view(lengths@),
        ),
    decreases subscript_arg, 0nat,
{
    match subscript_arg {
        SubscriptArg::Index(a0) => SubscriptArg::Index(expand_expr(a0, packs, lengths)),
        SubscriptArg::Slice { lower, upper, step } => SubscriptArg::Slice {
            lower: expand_opt_boxed_expr(lower, packs, lengths),
            upper: expand_opt_boxed_expr(upper, packs, lengths),
            step: expand_opt_boxed_expr(step, packs, lengths),
        },
    }
}

pub open spec fn expanded_subscript_arg_list(
    items: Seq<SubscriptArgView>,
    packs: Seq<(Seq<char>, Seq<TypeView>)>,
    lengths: Seq<(Seq<char>, usize)>,
    i: nat,
    out: Seq<SubscriptArgView>,
) -> Seq<SubscriptArgView>
    decreases items, (items.len() - i) as nat,
{
    if i >= items.len() {
        out
    } else {
        let item = items[i as int];
        let out = out.push(expanded_subscript_arg(item, packs, lengths));
        expanded_subscript_arg_list(items, packs, lengths, i + 1, out)
    }
}

/// See [`expanded_subscript_arg_list`].
pub fn expand_subscript_arg_list(
    items: &Vec<SubscriptArg>,
    packs: &Vec<(String, Vec<Type>)>,
    lengths: &Vec<(String, usize)>,
) -> (r: Vec<SubscriptArg>)
    ensures
        subscript_arg_list_view(r@) == expanded_subscript_arg_list(
            subscript_arg_list_view(items@),
            pack_list_view(packs@),
            pack_length_list_view(lengths@),
            0,
            Seq::<SubscriptArgView>::empty(),
        ),
    decreases items@, 0nat,
{
    let mut out: Vec<SubscriptArg> = Vec::new();
    assert(subscript_arg_list_view(out@) =~= Seq::<SubscriptArgView>::empty());
    let ghost goal = expanded_subscript_arg_list(
        subscript_arg_list_view(items@),
        pack_list_view(packs@),
        pack_length_list_view(lengths@),
        0,
        Seq::<SubscriptArgView>::empty(),
    );
    let mut i: usize = 0;
    while i < items.len()
        invariant
            i <= items@.len(),
            subscript_arg_list_view(items@).len() == items@.len(),
            expanded_subscript_arg_list(
                subscript_arg_list_view(items@),
                pack_list_view(packs@),
                pack_length_list_view(lengths@),
                i as nat,
                subscript_arg_list_view(out@),
            ) == goal,
            goal == expanded_subscript_arg_list(
                subscript_arg_list_view(items@),
                pack_list_view(packs@),
                pack_length_list_view(lengths@),
                0,
                Seq::<SubscriptArgView>::empty(),
            ),
        decreases items@.len() - i,
    {
        let item = &items[i];
        assert(subscript_arg_list_view(items@)[i as int] == item@);
        let item2 = expand_subscript_arg(item, packs, lengths);
        let ghost before = subscript_arg_list_view(out@);
        let ghost added = item2@;
        out.push(item2);
        assert(subscript_arg_list_view(out@) =~= before.push(added));
        i = i + 1;
    }
    out
}

pub open spec fn expanded_opt_expr(
    value: Option<ExprView>,
    packs: Seq<(Seq<char>, Seq<TypeView>)>,
    lengths: Seq<(Seq<char>, usize)>,
) -> Option<ExprView>
    decreases value, 0nat,
{
    match value {
        Some(value) => Some(expanded_expr(value, packs, lengths)),
        None => None,
    }
}

/// See [`expanded_opt_expr`].
pub fn expand_opt_expr(
    value: &Option<Expr>,
    packs: &Vec<(String, Vec<Type>)>,
    lengths: &Vec<(String, usize)>,
) -> (r: Option<Expr>)
    ensures
        opt_view(r) == expanded_opt_expr(
            opt_view(*value),
            pack_list_view(packs@),
            pack_length_list_view(lengths@),
        ),
    decreases value, 0nat,
{
    match value {
        Some(value) => Some(expand_expr(value, packs, lengths)),
        None => None,
    }
}

pub open spec fn expanded_entry_list(
    items: Seq<(ExprView, Option<ExprView>)>,
    packs: Seq<(Seq<char>, Seq<TypeView>)>,
    lengths: Seq<(Seq<char>, usize)>,
    i: nat,
    out: Seq<(ExprView, Option<ExprView>)>,
) -> Seq<(ExprView, Option<ExprView>)>
    decreases items, (items.len() - i) as nat,
{
    if i >= items.len() {
        out
    } else {
        let item = items[i as int];
        let out = out.push(
            (expanded_expr(item.0, packs, lengths), expanded_opt_expr(item.1, packs, lengths))
        );
        expanded_entry_list(items, packs, lengths, i + 1, out)
    }
}

/// See [`expanded_entry_list`].
pub fn expand_entry_list(
    items: &Vec<(Expr, Option<Expr>)>,
    packs: &Vec<(String, Vec<Type>)>,
    lengths: &Vec<(String, usize)>,
) -> (r: Vec<(Expr, Option<Expr>)>)
    ensures
        entry_list_view(r@) == expanded_entry_list(
            entry_list_view(items@),
            pack_list_view(packs@),
            pack_length_list_view(lengths@),
            0,
            Seq::<(ExprView, Option<ExprView>)>::empty(),
        ),
    decreases items@, 0nat,
{
    let mut out: Vec<(Expr, Option<Expr>)> = Vec::new();
    assert(entry_list_view(out@) =~= Seq::<(ExprView, Option<ExprView>)>::empty());
    let ghost goal = expanded_entry_list(
        entry_list_view(items@),
        pack_list_view(packs@),
        pack_length_list_view(lengths@),
        0,
        Seq::<(ExprView, Option<ExprView>)>::empty(),
    );
    let mut i: usize = 0;
    while i < items.len()
        invariant
            i <= items@.len(),
            entry_list_view(items@).len() == items@.len(),
            expanded_entry_list(
                entry_list_view(items@),
                pack_list_view(packs@),
                pack_length_list_view(lengths@),
                i as nat,
                entry_list_view(out@),
            ) == goal,
            goal == expanded_entry_list(
                entry_list_view(items@),
                pack_list_view(packs@),
                pack_length_list_view(lengths@),
                0,
                Seq::<(ExprView, Option<ExprView>)>::empty(),
            ),
        decreases items@.len() - i,
    {
        let item = &items[i];
        assert(entry_list_view(items@)[i as int].0 =~= item.0@);
        assert(entry_list_view(items@)[i as int].1 =~= opt_view(item.1));
        let item2 = (
            expand_expr(&item.0, packs, lengths),
            expand_opt_expr(&item.1, packs, lengths),
        );
        let ghost before = entry_list_view(out@);
        let ghost added = (item2.0@, opt_view(item2.1));
        out.push(item2);
        assert(entry_list_view(out@) =~= before.push(added));
        i = i + 1;
    }
    out
}

pub open spec fn expanded_comprehension_clause(
    comprehension_clause: ComprehensionClauseView,
    packs: Seq<(Seq<char>, Seq<TypeView>)>,
    lengths: Seq<(Seq<char>, usize)>,
) -> ComprehensionClauseView
    decreases comprehension_clause, 0nat,
{
    match comprehension_clause {
        ComprehensionClauseView::For { var, owned, iter } => ComprehensionClauseView::For {
            var,
            owned,
            iter: Box::new(expanded_expr(*iter, packs, lengths)),
        },
        ComprehensionClauseView::If(a0) => ComprehensionClauseView::If(
            Box::new(expanded_expr(*a0, packs, lengths))
        ),
    }
}

/// See [`expanded_comprehension_clause`].
pub fn expand_comprehension_clause(
    comprehension_clause: &ComprehensionClause,
    packs: &Vec<(String, Vec<Type>)>,
    lengths: &Vec<(String, usize)>,
) -> (r: ComprehensionClause)
    ensures
        r@ == expanded_comprehension_clause(
            comprehension_clause@,
            pack_list_view(packs@),
            pack_length_list_view(lengths@),
        ),
    decreases comprehension_clause, 0nat,
{
    match comprehension_clause {
        ComprehensionClause::For { var, owned, iter } => ComprehensionClause::For {
            var: var.clone(),
            owned: *owned,
            iter: Box::new(expand_expr(&**iter, packs, lengths)),
        },
        ComprehensionClause::If(a0) => ComprehensionClause::If(
            Box::new(expand_expr(&**a0, packs, lengths))
        ),
    }
}

pub open spec fn expanded_comprehension_clause_list(
    items: Seq<ComprehensionClauseView>,
    packs: Seq<(Seq<char>, Seq<TypeView>)>,
    lengths: Seq<(Seq<char>, usize)>,
    i: nat,
    out: Seq<ComprehensionClauseView>,
) -> Seq<ComprehensionClauseView>
    decreases items, (items.len() - i) as nat,
{
    if i >= items.len() {
        out
    } else {
        let item = items[i as int];
        let out = out.push(expanded_comprehension_clause(item, packs, lengths));
        expanded_comprehension_clause_list(items, packs, lengths, i + 1, out)
    }
}

/// See [`expanded_comprehension_clause_list`].
pub fn expand_comprehension_clause_list(
    items: &Vec<ComprehensionClause>,
    packs: &Vec<(String, Vec<Type>)>,
    lengths: &Vec<(String, usize)>,
) -> (r: Vec<ComprehensionClause>)
    ensures
        comprehension_clause_list_view(r@) == expanded_comprehension_clause_list(
            comprehension_clause_list_view(items@),
            pack_list_view(packs@),
            pack_length_list_view(lengths@),
            0,
            Seq::<ComprehensionClauseView>::empty(),
        ),
    decreases items@, 0nat,
{
    let mut out: Vec<ComprehensionClause> = Vec::new();
    assert(comprehension_clause_list_view(out@) =~= Seq::<ComprehensionClauseView>::empty());
    let ghost goal = expanded_comprehension_clause_list(
        comprehension_clause_list_view(items@),
        pack_list_view(packs@),
        pack_length_list_view(lengths@),
        0,
        Seq::<ComprehensionClauseView>::empty(),
    );
    let mut i: usize = 0;
    while i < items.len()
        invariant
            i <= items@.len(),
            comprehension_clause_list_view(items@).len() == items@.len(),
            expanded_comprehension_clause_list(
                comprehension_clause_list_view(items@),
                pack_list_view(packs@),
                pack_length_list_view(lengths@),
                i as nat,
                comprehension_clause_list_view(out@),
            ) == goal,
            goal == expanded_comprehension_clause_list(
                comprehension_clause_list_view(items@),
                pack_list_view(packs@),
                pack_length_list_view(lengths@),
                0,
                Seq::<ComprehensionClauseView>::empty(),
            ),
        decreases items@.len() - i,
    {
        let item = &items[i];
        assert(comprehension_clause_list_view(items@)[i as int] == item@);
        let item2 = expand_comprehension_clause(item, packs, lengths);
        let ghost before = comprehension_clause_list_view(out@);
        let ghost added = item2@;
        out.push(item2);
        assert(comprehension_clause_list_view(out@) =~= before.push(added));
        i = i + 1;
    }
    out
}

pub open spec fn expanded_expr_kind(
    expr_kind: ExprKindView,
    packs: Seq<(Seq<char>, Seq<TypeView>)>,
    lengths: Seq<(Seq<char>, usize)>,
) -> ExprKindView
    decreases expr_kind, 3nat,
{
    match expr_kind {
        ExprKindView::TypeValue(a0) => ExprKindView::TypeValue(expanded_type(a0, packs)),
        ExprKindView::TString { parts, raw } => ExprKindView::TString {
            parts: expanded_t_string_part_list(parts, packs, lengths, 0, Seq::empty()),
            raw,
        },
        ExprKindView::TypeApply { name, args } => ExprKindView::TypeApply {
            name,
            args: expanded_param_arg_list(args, packs, 0, Seq::empty()),
        },
        ExprKindView::Prefix(a0, a1) => ExprKindView::Prefix(
            a0,
            Box::new(expanded_expr(*a1, packs, lengths)),
        ),
        ExprKindView::Transfer(a0) => ExprKindView::Transfer(
            Box::new(expanded_expr(*a0, packs, lengths))
        ),
        ExprKindView::Spread(a0) => ExprKindView::Spread(
            Box::new(expanded_expr(*a0, packs, lengths))
        ),
        _ => expanded_expr_kind_more(expr_kind, packs, lengths),
    }
}

/// See [`expanded_expr_kind`].
pub fn expand_expr_kind(
    expr_kind: &ExprKind,
    packs: &Vec<(String, Vec<Type>)>,
    lengths: &Vec<(String, usize)>,
) -> (r: ExprKind)
    ensures
        r@ == expanded_expr_kind(
            expr_kind@,
            pack_list_view(packs@),
            pack_length_list_view(lengths@),
        ),
    decreases expr_kind, 3nat,
{
    proof { unfold_expr_kind(*expr_kind); }
    match expr_kind {
        ExprKind::TypeValue(a0) => {
            let kind = ExprKind::TypeValue(expand_type(a0, packs));
            proof { unfold_expr_kind(kind); }
            kind
        },
        ExprKind::TString { parts, raw } => {
            let kind2 = ExprKind::TString {
                parts: expand_t_string_part_list(parts, packs, lengths),
                raw: *raw,
            };
            proof { unfold_expr_kind(kind2); }
            kind2
        },
        ExprKind::TypeApply { name, args } => {
            let kind3 = ExprKind::TypeApply {
                name: name.clone(),
                args: expand_param_arg_list(args, packs),
            };
            proof { unfold_expr_kind(kind3); }
            kind3
        },
        ExprKind::Prefix(a0, a1) => {
            let kind4 = ExprKind::Prefix(*a0, Box::new(expand_expr(&**a1, packs, lengths)));
            proof { unfold_expr_kind(kind4); }
            kind4
        },
        ExprKind::Transfer(a0) => {
            let kind5 = ExprKind::Transfer(Box::new(expand_expr(&**a0, packs, lengths)));
            proof { unfold_expr_kind(kind5); }
            kind5
        },
        ExprKind::Spread(a0) => {
            let kind6 = ExprKind::Spread(Box::new(expand_expr(&**a0, packs, lengths)));
            proof { unfold_expr_kind(kind6); }
            kind6
        },
        _ => {
            assert(!(expr_kind@ is TypeValue));
            assert(!(expr_kind@ is TString));
            assert(!(expr_kind@ is TypeApply));
            assert(!(expr_kind@ is Prefix));
            assert(!(expr_kind@ is Transfer));
            assert(!(expr_kind@ is Spread));
            expand_expr_kind_more(expr_kind, packs, lengths)
        },
    }
}

pub open spec fn expanded_expr_kind_more(
    expr_kind: ExprKindView,
    packs: Seq<(Seq<char>, Seq<TypeView>)>,
    lengths: Seq<(Seq<char>, usize)>,
) -> ExprKindView
    decreases expr_kind, 2nat,
{
    match expr_kind {
        ExprKindView::Infix(a0, a1, a2) => ExprKindView::Infix(
            a0,
            Box::new(expanded_expr(*a1, packs, lengths)),
            Box::new(expanded_expr(*a2, packs, lengths)),
        ),
        ExprKindView::Compare { first, rest } => ExprKindView::Compare {
            first: Box::new(expanded_expr(*first, packs, lengths)),
            rest: expanded_comparison_list(rest, packs, lengths, 0, Seq::empty()),
        },
        ExprKindView::Call { name, param_args, args, kwargs } => ExprKindView::Call {
            name,
            param_args: expanded_param_arg_list(param_args, packs, 0, Seq::empty()),
            args: args_spread(
                name,
                expanded_expr_list(args, packs, lengths, 0, Seq::empty()),
                lengths,
            ),
            kwargs: expanded_kw_arg_list(kwargs, packs, lengths, 0, Seq::empty()),
        },
        ExprKindView::Invoke { callee, param_args, args, kwargs } => ExprKindView::Invoke {
            callee: Box::new(expanded_expr(*callee, packs, lengths)),
            param_args: expanded_param_arg_list(param_args, packs, 0, Seq::empty()),
            args: expanded_expr_list(args, packs, lengths, 0, Seq::empty()),
            kwargs: expanded_kw_arg_list(kwargs, packs, lengths, 0, Seq::empty()),
        },
        ExprKindView::Member { object, field } => ExprKindView::Member {
            object: Box::new(expanded_expr(*object, packs, lengths)),
            field,
        },
        ExprKindView::MethodCall { object, method, args, kwargs } => ExprKindView::MethodCall {
            object: Box::new(expanded_expr(*object, packs, lengths)),
            method,
            args: expanded_expr_list(args, packs, lengths, 0, Seq::empty()),
            kwargs: expanded_kw_arg_list(kwargs, packs, lengths, 0, Seq::empty()),
        },
        _ => expanded_expr_kind_further(expr_kind, packs, lengths),
    }
}

/// See [`expanded_expr_kind_more`].
pub fn expand_expr_kind_more(
    expr_kind: &ExprKind,
    packs: &Vec<(String, Vec<Type>)>,
    lengths: &Vec<(String, usize)>,
) -> (r: ExprKind)
    ensures
        r@ == expanded_expr_kind_more(
            expr_kind@,
            pack_list_view(packs@),
            pack_length_list_view(lengths@),
        ),
    decreases expr_kind, 2nat,
{
    proof { unfold_expr_kind(*expr_kind); }
    match expr_kind {
        ExprKind::Infix(a0, a1, a2) => {
            let kind = ExprKind::Infix(
                *a0,
                Box::new(expand_expr(&**a1, packs, lengths)),
                Box::new(expand_expr(&**a2, packs, lengths)),
            );
            proof { unfold_expr_kind(kind); }
            kind
        },
        ExprKind::Compare { first, rest } => {
            let kind2 = ExprKind::Compare {
                first: Box::new(expand_expr(&**first, packs, lengths)),
                rest: expand_comparison_list(rest, packs, lengths),
            };
            proof { unfold_expr_kind(kind2); }
            kind2
        },
        ExprKind::Call { name, param_args, args, kwargs } => {
            let kind3 = ExprKind::Call {
                name: name.clone(),
                param_args: expand_param_arg_list(param_args, packs),
                args: spread_args(name, expand_expr_list(args, packs, lengths), lengths),
                kwargs: expand_kw_arg_list(kwargs, packs, lengths),
            };
            proof { unfold_expr_kind(kind3); }
            kind3
        },
        ExprKind::Invoke { callee, param_args, args, kwargs } => {
            let kind4 = ExprKind::Invoke {
                callee: Box::new(expand_expr(&**callee, packs, lengths)),
                param_args: expand_param_arg_list(param_args, packs),
                args: expand_expr_list(args, packs, lengths),
                kwargs: expand_kw_arg_list(kwargs, packs, lengths),
            };
            proof { unfold_expr_kind(kind4); }
            kind4
        },
        ExprKind::Member { object, field } => {
            let kind5 = ExprKind::Member {
                object: Box::new(expand_expr(&**object, packs, lengths)),
                field: field.clone(),
            };
            proof { unfold_expr_kind(kind5); }
            kind5
        },
        ExprKind::MethodCall { object, method, args, kwargs } => {
            let kind6 = ExprKind::MethodCall {
                object: Box::new(expand_expr(&**object, packs, lengths)),
                method: method.clone(),
                args: expand_expr_list(args, packs, lengths),
                kwargs: expand_kw_arg_list(kwargs, packs, lengths),
            };
            proof { unfold_expr_kind(kind6); }
            kind6
        },
        _ => {
            assert(!(expr_kind@ is Infix));
            assert(!(expr_kind@ is Compare));
            assert(!(expr_kind@ is Call));
            assert(!(expr_kind@ is Invoke));
            assert(!(expr_kind@ is Member));
            assert(!(expr_kind@ is MethodCall));
            expand_expr_kind_further(expr_kind, packs, lengths)
        },
    }
}

pub open spec fn expanded_expr_kind_further(
    expr_kind: ExprKindView,
    packs: Seq<(Seq<char>, Seq<TypeView>)>,
    lengths: Seq<(Seq<char>, usize)>,
) -> ExprKindView
    decreases expr_kind, 1nat,
{
    match expr_kind {
        ExprKindView::Index { object, index } => ExprKindView::Index {
            object: Box::new(expanded_expr(*object, packs, lengths)),
            index: Box::new(expanded_expr(*index, packs, lengths)),
        },
        ExprKindView::Slice { object, lower, upper, step } => ExprKindView::Slice {
            object: Box::new(expanded_expr(*object, packs, lengths)),
            lower: expanded_opt_boxed_expr(lower, packs, lengths),
            upper: expanded_opt_boxed_expr(upper, packs, lengths),
            step: expanded_opt_boxed_expr(step, packs, lengths),
        },
        ExprKindView::MultiIndex { object, args } => ExprKindView::MultiIndex {
            object: Box::new(expanded_expr(*object, packs, lengths)),
            args: expanded_subscript_arg_list(args, packs, lengths, 0, Seq::empty()),
        },
        ExprKindView::ListLit(a0) => ExprKindView::ListLit(
            expanded_expr_list(a0, packs, lengths, 0, Seq::empty())
        ),
        ExprKindView::TupleLit(a0) => ExprKindView::TupleLit(
            expanded_expr_list(a0, packs, lengths, 0, Seq::empty())
        ),
        ExprKindView::BraceLit(a0) => ExprKindView::BraceLit(
            expanded_entry_list(a0, packs, lengths, 0, Seq::empty())
        ),
        _ => expanded_expr_kind_rest(expr_kind, packs, lengths),
    }
}

/// See [`expanded_expr_kind_further`].
pub fn expand_expr_kind_further(
    expr_kind: &ExprKind,
    packs: &Vec<(String, Vec<Type>)>,
    lengths: &Vec<(String, usize)>,
) -> (r: ExprKind)
    ensures
        r@ == expanded_expr_kind_further(
            expr_kind@,
            pack_list_view(packs@),
            pack_length_list_view(lengths@),
        ),
    decreases expr_kind, 1nat,
{
    proof { unfold_expr_kind(*expr_kind); }
    match expr_kind {
        ExprKind::Index { object, index } => {
            let kind = ExprKind::Index {
                object: Box::new(expand_expr(&**object, packs, lengths)),
                index: Box::new(expand_expr(&**index, packs, lengths)),
            };
            proof { unfold_expr_kind(kind); }
            kind
        },
        ExprKind::Slice { object, lower, upper, step } => {
            let kind2 = ExprKind::Slice {
                object: Box::new(expand_expr(&**object, packs, lengths)),
                lower: expand_opt_boxed_expr(lower, packs, lengths),
                upper: expand_opt_boxed_expr(upper, packs, lengths),
                step: expand_opt_boxed_expr(step, packs, lengths),
            };
            proof { unfold_expr_kind(kind2); }
            kind2
        },
        ExprKind::MultiIndex { object, args } => {
            let kind3 = ExprKind::MultiIndex {
                object: Box::new(expand_expr(&**object, packs, lengths)),
                args: expand_subscript_arg_list(args, packs, lengths),
            };
            proof { unfold_expr_kind(kind3); }
            kind3
        },
        ExprKind::ListLit(a0) => {
            let kind4 = ExprKind::ListLit(expand_expr_list(a0, packs, lengths));
            proof { unfold_expr_kind(kind4); }
            kind4
        },
        ExprKind::TupleLit(a0) => {
            let kind5 = ExprKind::TupleLit(expand_expr_list(a0, packs, lengths));
            proof { unfold_expr_kind(kind5); }
            kind5
        },
        ExprKind::BraceLit(a0) => {
            let kind6 = ExprKind::BraceLit(expand_entry_list(a0, packs, lengths));
            proof { unfold_expr_kind(kind6); }
            kind6
        },
        _ => {
            assert(!(expr_kind@ is Index));
            assert(!(expr_kind@ is Slice));
            assert(!(expr_kind@ is MultiIndex));
            assert(!(expr_kind@ is ListLit));
            assert(!(expr_kind@ is TupleLit));
            assert(!(expr_kind@ is BraceLit));
            expand_expr_kind_rest(expr_kind, packs, lengths)
        },
    }
}

pub open spec fn expanded_expr_kind_rest(
    expr_kind: ExprKindView,
    packs: Seq<(Seq<char>, Seq<TypeView>)>,
    lengths: Seq<(Seq<char>, usize)>,
) -> ExprKindView
    decreases expr_kind, 0nat,
{
    match expr_kind {
        ExprKindView::Comprehension { kind, key, value, clauses } => ExprKindView::Comprehension {
            kind,
            key: expanded_opt_boxed_expr(key, packs, lengths),
            value: Box::new(expanded_expr(*value, packs, lengths)),
            clauses: expanded_comprehension_clause_list(clauses, packs, lengths, 0, Seq::empty()),
        },
        ExprKindView::Named { name, value } => ExprKindView::Named {
            name,
            value: Box::new(expanded_expr(*value, packs, lengths)),
        },
        ExprKindView::IfExpr { cond, then_branch, else_branch } => ExprKindView::IfExpr {
            cond: Box::new(expanded_expr(*cond, packs, lengths)),
            then_branch: Box::new(expanded_expr(*then_branch, packs, lengths)),
            else_branch: Box::new(expanded_expr(*else_branch, packs, lengths)),
        },
        _ => expr_kind,
    }
}

/// See [`expanded_expr_kind_rest`].
pub fn expand_expr_kind_rest(
    expr_kind: &ExprKind,
    packs: &Vec<(String, Vec<Type>)>,
    lengths: &Vec<(String, usize)>,
) -> (r: ExprKind)
    ensures
        r@ == expanded_expr_kind_rest(
            expr_kind@,
            pack_list_view(packs@),
            pack_length_list_view(lengths@),
        ),
    decreases expr_kind, 0nat,
{
    proof { unfold_expr_kind(*expr_kind); }
    match expr_kind {
        ExprKind::Comprehension { kind, key, value, clauses } => {
            let kind2 = ExprKind::Comprehension {
                kind: *kind,
                key: expand_opt_boxed_expr(key, packs, lengths),
                value: Box::new(expand_expr(&**value, packs, lengths)),
                clauses: expand_comprehension_clause_list(clauses, packs, lengths),
            };
            proof { unfold_expr_kind(kind2); }
            kind2
        },
        ExprKind::Named { name, value } => {
            let kind3 = ExprKind::Named {
                name: name.clone(),
                value: Box::new(expand_expr(&**value, packs, lengths)),
            };
            proof { unfold_expr_kind(kind3); }
            kind3
        },
        ExprKind::IfExpr { cond, then_branch, else_branch } => {
            let kind4 = ExprKind::IfExpr {
                cond: Box::new(expand_expr(&**cond, packs, lengths)),
                then_branch: Box::new(expand_expr(&**then_branch, packs, lengths)),
                else_branch: Box::new(expand_expr(&**else_branch, packs, lengths)),
            };
            proof { unfold_expr_kind(kind4); }
            kind4
        },
        _ => {
            assert(!(expr_kind@ is Comprehension));
            assert(!(expr_kind@ is Named));
            assert(!(expr_kind@ is IfExpr));
            clone_expr_kind(expr_kind)
        },
    }
}

/// An expression with type packs replaced by their types, and with a spread pack
/// among the arguments of a tuple replaced by its elements.
pub open spec fn expanded_expr(
    expr: ExprView,
    packs: Seq<(Seq<char>, Seq<TypeView>)>,
    lengths: Seq<(Seq<char>, usize)>,
) -> ExprView
    decreases expr, 0nat,
{
    ExprView {
        kind: expanded_expr_kind(expr.kind, packs, lengths),
        span: expr.span,
        source: expr.source,
    }
}

/// See [`expanded_expr`].
pub fn expand_expr(
    expr: &Expr,
    packs: &Vec<(String, Vec<Type>)>,
    lengths: &Vec<(String, usize)>,
) -> (r: Expr)
    ensures
        r@ == expanded_expr(expr@, pack_list_view(packs@), pack_length_list_view(lengths@)),
    decreases expr, 0nat,
{
    Expr {
        kind: expand_expr_kind(&expr.kind, packs, lengths),
        span: expr.span,
        source: (match (&expr.source) { Some(y) => Some(y.clone()), None => None }),
    }
}

pub open spec fn expanded_stmt_list(
    items: Seq<StmtView>,
    packs: Seq<(Seq<char>, Seq<TypeView>)>,
    lengths: Seq<(Seq<char>, usize)>,
    i: nat,
    out: Seq<StmtView>,
) -> Seq<StmtView>
    decreases items, (items.len() - i) as nat,
{
    if i >= items.len() {
        out
    } else {
        let item = items[i as int];
        let out = out.push(expanded_stmt(item, packs, lengths));
        expanded_stmt_list(items, packs, lengths, i + 1, out)
    }
}

/// See [`expanded_stmt_list`].
pub fn expand_stmt_list(
    items: &Vec<Stmt>,
    packs: &Vec<(String, Vec<Type>)>,
    lengths: &Vec<(String, usize)>,
) -> (r: Vec<Stmt>)
    ensures
        stmt_list_view(r@) == expanded_stmt_list(
            stmt_list_view(items@),
            pack_list_view(packs@),
            pack_length_list_view(lengths@),
            0,
            Seq::<StmtView>::empty(),
        ),
    decreases items@, 0nat,
{
    let mut out: Vec<Stmt> = Vec::new();
    assert(stmt_list_view(out@) =~= Seq::<StmtView>::empty());
    let ghost goal = expanded_stmt_list(
        stmt_list_view(items@),
        pack_list_view(packs@),
        pack_length_list_view(lengths@),
        0,
        Seq::<StmtView>::empty(),
    );
    let mut i: usize = 0;
    while i < items.len()
        invariant
            i <= items@.len(),
            stmt_list_view(items@).len() == items@.len(),
            expanded_stmt_list(
                stmt_list_view(items@),
                pack_list_view(packs@),
                pack_length_list_view(lengths@),
                i as nat,
                stmt_list_view(out@),
            ) == goal,
            goal == expanded_stmt_list(
                stmt_list_view(items@),
                pack_list_view(packs@),
                pack_length_list_view(lengths@),
                0,
                Seq::<StmtView>::empty(),
            ),
        decreases items@.len() - i,
    {
        let item = &items[i];
        assert(stmt_list_view(items@)[i as int] == item@);
        let item2 = expand_stmt(item, packs, lengths);
        let ghost before = stmt_list_view(out@);
        let ghost added = item2@;
        out.push(item2);
        assert(stmt_list_view(out@) =~= before.push(added));
        i = i + 1;
    }
    out
}

pub open spec fn expanded_branch_list(
    items: Seq<(ExprView, Seq<StmtView>)>,
    packs: Seq<(Seq<char>, Seq<TypeView>)>,
    lengths: Seq<(Seq<char>, usize)>,
    i: nat,
    out: Seq<(ExprView, Seq<StmtView>)>,
) -> Seq<(ExprView, Seq<StmtView>)>
    decreases items, (items.len() - i) as nat,
{
    if i >= items.len() {
        out
    } else {
        let item = items[i as int];
        let out = out.push(
            (
                expanded_expr(item.0, packs, lengths),
                expanded_stmt_list(item.1, packs, lengths, 0, Seq::empty()),
            )
        );
        expanded_branch_list(items, packs, lengths, i + 1, out)
    }
}

/// See [`expanded_branch_list`].
pub fn expand_branch_list(
    items: &Vec<(Expr, Vec<Stmt>)>,
    packs: &Vec<(String, Vec<Type>)>,
    lengths: &Vec<(String, usize)>,
) -> (r: Vec<(Expr, Vec<Stmt>)>)
    ensures
        branch_list_view(r@) == expanded_branch_list(
            branch_list_view(items@),
            pack_list_view(packs@),
            pack_length_list_view(lengths@),
            0,
            Seq::<(ExprView, Seq<StmtView>)>::empty(),
        ),
    decreases items@, 0nat,
{
    let mut out: Vec<(Expr, Vec<Stmt>)> = Vec::new();
    assert(branch_list_view(out@) =~= Seq::<(ExprView, Seq<StmtView>)>::empty());
    let ghost goal = expanded_branch_list(
        branch_list_view(items@),
        pack_list_view(packs@),
        pack_length_list_view(lengths@),
        0,
        Seq::<(ExprView, Seq<StmtView>)>::empty(),
    );
    let mut i: usize = 0;
    while i < items.len()
        invariant
            i <= items@.len(),
            branch_list_view(items@).len() == items@.len(),
            expanded_branch_list(
                branch_list_view(items@),
                pack_list_view(packs@),
                pack_length_list_view(lengths@),
                i as nat,
                branch_list_view(out@),
            ) == goal,
            goal == expanded_branch_list(
                branch_list_view(items@),
                pack_list_view(packs@),
                pack_length_list_view(lengths@),
                0,
                Seq::<(ExprView, Seq<StmtView>)>::empty(),
            ),
        decreases items@.len() - i,
    {
        let item = &items[i];
        assert(branch_list_view(items@)[i as int].0 =~= item.0@);
        assert(branch_list_view(items@)[i as int].1 =~= stmt_list_view(item.1@));
        let item2 = (
            expand_expr(&item.0, packs, lengths),
            expand_stmt_list(&item.1, packs, lengths),
        );
        let ghost before = branch_list_view(out@);
        let ghost added = (item2.0@, stmt_list_view(item2.1@));
        out.push(item2);
        assert(branch_list_view(out@) =~= before.push(added));
        i = i + 1;
    }
    out
}

pub open spec fn expanded_opt_stmt_list(
    value: Option<Seq<StmtView>>,
    packs: Seq<(Seq<char>, Seq<TypeView>)>,
    lengths: Seq<(Seq<char>, usize)>,
) -> Option<Seq<StmtView>>
    decreases value, 0nat,
{
    match value {
        Some(value) => Some(expanded_stmt_list(value, packs, lengths, 0, Seq::empty())),
        None => None,
    }
}

/// See [`expanded_opt_stmt_list`].
pub fn expand_opt_stmt_list(
    value: &Option<Vec<Stmt>>,
    packs: &Vec<(String, Vec<Type>)>,
    lengths: &Vec<(String, usize)>,
) -> (r: Option<Vec<Stmt>>)
    ensures
        (match r { Some(v) => Some(stmt_list_view(v@)), None => None }) == expanded_opt_stmt_list(
            (match value { Some(v) => Some(stmt_list_view(v@)), None => None }),
            pack_list_view(packs@),
            pack_length_list_view(lengths@),
        ),
    decreases value, 0nat,
{
    match value {
        Some(value) => Some(expand_stmt_list(value, packs, lengths)),
        None => None,
    }
}

pub open spec fn expanded_opt_opt_string_stmt_list(
    value: Option<(Option<Seq<char>>, Seq<StmtView>)>,
    packs: Seq<(Seq<char>, Seq<TypeView>)>,
    lengths: Seq<(Seq<char>, usize)>,
) -> Option<(Option<Seq<char>>, Seq<StmtView>)>
    decreases value, 0nat,
{
    match value {
        Some(value) => Some(
            (value.0, expanded_stmt_list(value.1, packs, lengths, 0, Seq::empty()))
        ),
        None => None,
    }
}

/// See [`expanded_opt_opt_string_stmt_list`].
pub fn expand_opt_opt_string_stmt_list(
    value: &Option<(Option<String>, Vec<Stmt>)>,
    packs: &Vec<(String, Vec<Type>)>,
    lengths: &Vec<(String, usize)>,
) -> (r: Option<(Option<String>, Vec<Stmt>)>)
    ensures
        (
            match r { Some(v) => Some((opt_view(v.0), stmt_list_view(v.1@))), None => None }
        ) == expanded_opt_opt_string_stmt_list(
            (match value { Some(v) => Some((opt_view(v.0), stmt_list_view(v.1@))), None => None }),
            pack_list_view(packs@),
            pack_length_list_view(lengths@),
        ),
    decreases value, 0nat,
{
    match value {
        Some(value) => Some(
            (
                (match (&value.0) { Some(y) => Some(y.clone()), None => None }),
                expand_stmt_list(&value.1, packs, lengths),
            )
        ),
        None => None,
    }
}

pub open spec fn expanded_with_item(
    with_item: WithItemView,
    packs: Seq<(Seq<char>, Seq<TypeView>)>,
    lengths: Seq<(Seq<char>, usize)>,
) -> WithItemView
    decreases with_item, 0nat,
{
    WithItemView { context: expanded_expr(with_item.context, packs, lengths), var: with_item.var }
}

/// See [`expanded_with_item`].
pub fn expand_with_item(
    with_item: &WithItem,
    packs: &Vec<(String, Vec<Type>)>,
    lengths: &Vec<(String, usize)>,
) -> (r: WithItem)
    ensures
        r@ == expanded_with_item(
            with_item@,
            pack_list_view(packs@),
            pack_length_list_view(lengths@),
        ),
    decreases with_item, 0nat,
{
    WithItem {
        context: expand_expr(&with_item.context, packs, lengths),
        var: (match (&with_item.var) { Some(y) => Some(y.clone()), None => None }),
    }
}

pub open spec fn expanded_with_item_list(
    items: Seq<WithItemView>,
    packs: Seq<(Seq<char>, Seq<TypeView>)>,
    lengths: Seq<(Seq<char>, usize)>,
    i: nat,
    out: Seq<WithItemView>,
) -> Seq<WithItemView>
    decreases items, (items.len() - i) as nat,
{
    if i >= items.len() {
        out
    } else {
        let item = items[i as int];
        let out = out.push(expanded_with_item(item, packs, lengths));
        expanded_with_item_list(items, packs, lengths, i + 1, out)
    }
}

/// See [`expanded_with_item_list`].
pub fn expand_with_item_list(
    items: &Vec<WithItem>,
    packs: &Vec<(String, Vec<Type>)>,
    lengths: &Vec<(String, usize)>,
) -> (r: Vec<WithItem>)
    ensures
        with_item_list_view(r@) == expanded_with_item_list(
            with_item_list_view(items@),
            pack_list_view(packs@),
            pack_length_list_view(lengths@),
            0,
            Seq::<WithItemView>::empty(),
        ),
    decreases items@, 0nat,
{
    let mut out: Vec<WithItem> = Vec::new();
    assert(with_item_list_view(out@) =~= Seq::<WithItemView>::empty());
    let ghost goal = expanded_with_item_list(
        with_item_list_view(items@),
        pack_list_view(packs@),
        pack_length_list_view(lengths@),
        0,
        Seq::<WithItemView>::empty(),
    );
    let mut i: usize = 0;
    while i < items.len()
        invariant
            i <= items@.len(),
            with_item_list_view(items@).len() == items@.len(),
            expanded_with_item_list(
                with_item_list_view(items@),
                pack_list_view(packs@),
                pack_length_list_view(lengths@),
                i as nat,
                with_item_list_view(out@),
            ) == goal,
            goal == expanded_with_item_list(
                with_item_list_view(items@),
                pack_list_view(packs@),
                pack_length_list_view(lengths@),
                0,
                Seq::<WithItemView>::empty(),
            ),
        decreases items@.len() - i,
    {
        let item = &items[i];
        assert(with_item_list_view(items@)[i as int] == item@);
        let item2 = expand_with_item(item, packs, lengths);
        let ghost before = with_item_list_view(out@);
        let ghost added = item2@;
        out.push(item2);
        assert(with_item_list_view(out@) =~= before.push(added));
        i = i + 1;
    }
    out
}

pub open spec fn expanded_fn_param(
    fn_param: FnParamView,
    packs: Seq<(Seq<char>, Seq<TypeView>)>,
    lengths: Seq<(Seq<char>, usize)>,
) -> FnParamView
    decreases fn_param, 0nat,
{
    FnParamView {
        name: fn_param.name,
        ty: expanded_type(fn_param.ty, packs),
        default: expanded_opt_expr(fn_param.default, packs, lengths),
        convention: fn_param.convention,
        kind: fn_param.kind,
    }
}

/// See [`expanded_fn_param`].
pub fn expand_fn_param(
    fn_param: &FnParam,
    packs: &Vec<(String, Vec<Type>)>,
    lengths: &Vec<(String, usize)>,
) -> (r: FnParam)
    ensures
        r@ == expanded_fn_param(
            fn_param@,
            pack_list_view(packs@),
            pack_length_list_view(lengths@),
        ),
    decreases fn_param, 0nat,
{
    FnParam {
        name: (&fn_param.name).clone(),
        ty: expand_type(&fn_param.ty, packs),
        default: expand_opt_expr(&fn_param.default, packs, lengths),
        convention: fn_param.convention,
        kind: fn_param.kind,
    }
}

pub open spec fn expanded_fn_param_list(
    items: Seq<FnParamView>,
    packs: Seq<(Seq<char>, Seq<TypeView>)>,
    lengths: Seq<(Seq<char>, usize)>,
    i: nat,
    out: Seq<FnParamView>,
) -> Seq<FnParamView>
    decreases items, (items.len() - i) as nat,
{
    if i >= items.len() {
        out
    } else {
        let item = items[i as int];
        let out = out.push(expanded_fn_param(item, packs, lengths));
        expanded_fn_param_list(items, packs, lengths, i + 1, out)
    }
}

/// See [`expanded_fn_param_list`].
pub fn expand_fn_param_list(
    items: &Vec<FnParam>,
    packs: &Vec<(String, Vec<Type>)>,
    lengths: &Vec<(String, usize)>,
) -> (r: Vec<FnParam>)
    ensures
        fn_param_list_view(r@) == expanded_fn_param_list(
            fn_param_list_view(items@),
            pack_list_view(packs@),
            pack_length_list_view(lengths@),
            0,
            Seq::<FnParamView>::empty(),
        ),
    decreases items@, 0nat,
{
    let mut out: Vec<FnParam> = Vec::new();
    assert(fn_param_list_view(out@) =~= Seq::<FnParamView>::empty());
    let ghost goal = expanded_fn_param_list(
        fn_param_list_view(items@),
        pack_list_view(packs@),
        pack_length_list_view(lengths@),
        0,
        Seq::<FnParamView>::empty(),
    );
    let mut i: usize = 0;
    while i < items.len()
        invariant
            i <= items@.len(),
            fn_param_list_view(items@).len() == items@.len(),
            expanded_fn_param_list(
                fn_param_list_view(items@),
                pack_list_view(packs@),
                pack_length_list_view(lengths@),
                i as nat,
                fn_param_list_view(out@),
            ) == goal,
            goal == expanded_fn_param_list(
                fn_param_list_view(items@),
                pack_list_view(packs@),
                pack_length_list_view(lengths@),
                0,
                Seq::<FnParamView>::empty(),
            ),
        decreases items@.len() - i,
    {
        let item = &items[i];
        assert(fn_param_list_view(items@)[i as int] == item@);
        let item2 = expand_fn_param(item, packs, lengths);
        let ghost before = fn_param_list_view(out@);
        let ghost added = item2@;
        out.push(item2);
        assert(fn_param_list_view(out@) =~= before.push(added));
        i = i + 1;
    }
    out
}

pub open spec fn expanded_param(
    param: ParamView,
    packs: Seq<(Seq<char>, Seq<TypeView>)>,
    lengths: Seq<(Seq<char>, usize)>,
) -> ParamView
    decreases param, 0nat,
{
    ParamView { name: param.name, ty: expanded_type(param.ty, packs) }
}

/// See [`expanded_param`].
pub fn expand_param(
    param: &Param,
    packs: &Vec<(String, Vec<Type>)>,
    lengths: &Vec<(String, usize)>,
) -> (r: Param)
    ensures
        r@ == expanded_param(param@, pack_list_view(packs@), pack_length_list_view(lengths@)),
    decreases param, 0nat,
{
    Param { name: (&param.name).clone(), ty: expand_type(&param.ty, packs) }
}

pub open spec fn expanded_param_list(
    items: Seq<ParamView>,
    packs: Seq<(Seq<char>, Seq<TypeView>)>,
    lengths: Seq<(Seq<char>, usize)>,
    i: nat,
    out: Seq<ParamView>,
) -> Seq<ParamView>
    decreases items, (items.len() - i) as nat,
{
    if i >= items.len() {
        out
    } else {
        let item = items[i as int];
        let out = out.push(expanded_param(item, packs, lengths));
        expanded_param_list(items, packs, lengths, i + 1, out)
    }
}

/// See [`expanded_param_list`].
pub fn expand_param_list(
    items: &Vec<Param>,
    packs: &Vec<(String, Vec<Type>)>,
    lengths: &Vec<(String, usize)>,
) -> (r: Vec<Param>)
    ensures
        param_list_view(r@) == expanded_param_list(
            param_list_view(items@),
            pack_list_view(packs@),
            pack_length_list_view(lengths@),
            0,
            Seq::<ParamView>::empty(),
        ),
    decreases items@, 0nat,
{
    let mut out: Vec<Param> = Vec::new();
    assert(param_list_view(out@) =~= Seq::<ParamView>::empty());
    let ghost goal = expanded_param_list(
        param_list_view(items@),
        pack_list_view(packs@),
        pack_length_list_view(lengths@),
        0,
        Seq::<ParamView>::empty(),
    );
    let mut i: usize = 0;
    while i < items.len()
        invariant
            i <= items@.len(),
            param_list_view(items@).len() == items@.len(),
            expanded_param_list(
                param_list_view(items@),
                pack_list_view(packs@),
                pack_length_list_view(lengths@),
                i as nat,
                param_list_view(out@),
            ) == goal,
            goal == expanded_param_list(
                param_list_view(items@),
                pack_list_view(packs@),
                pack_length_list_view(lengths@),
                0,
                Seq::<ParamView>::empty(),
            ),
        decreases items@.len() - i,
    {
        let item = &items[i];
        assert(param_list_view(items@)[i as int] == item@);
        let item2 = expand_param(item, packs, lengths);
        let ghost before = param_list_view(out@);
        let ghost added = item2@;
        out.push(item2);
        assert(param_list_view(out@) =~= before.push(added));
        i = i + 1;
    }
    out
}

pub open spec fn expanded_struct_comptime(
    struct_comptime: StructComptimeView,
    packs: Seq<(Seq<char>, Seq<TypeView>)>,
    lengths: Seq<(Seq<char>, usize)>,
) -> StructComptimeView
    decreases struct_comptime, 0nat,
{
    StructComptimeView {
        name: struct_comptime.name,
        value: expanded_expr(struct_comptime.value, packs, lengths),
    }
}

/// See [`expanded_struct_comptime`].
pub fn expand_struct_comptime(
    struct_comptime: &StructComptime,
    packs: &Vec<(String, Vec<Type>)>,
    lengths: &Vec<(String, usize)>,
) -> (r: StructComptime)
    ensures
        r@ == expanded_struct_comptime(
            struct_comptime@,
            pack_list_view(packs@),
            pack_length_list_view(lengths@),
        ),
    decreases struct_comptime, 0nat,
{
    StructComptime {
        name: (&struct_comptime.name).clone(),
        value: expand_expr(&struct_comptime.value, packs, lengths),
    }
}

pub open spec fn expanded_struct_comptime_list(
    items: Seq<StructComptimeView>,
    packs: Seq<(Seq<char>, Seq<TypeView>)>,
    lengths: Seq<(Seq<char>, usize)>,
    i: nat,
    out: Seq<StructComptimeView>,
) -> Seq<StructComptimeView>
    decreases items, (items.len() - i) as nat,
{
    if i >= items.len() {
        out
    } else {
        let item = items[i as int];
        let out = out.push(expanded_struct_comptime(item, packs, lengths));
        expanded_struct_comptime_list(items, packs, lengths, i + 1, out)
    }
}

/// See [`expanded_struct_comptime_list`].
pub fn expand_struct_comptime_list(
    items: &Vec<StructComptime>,
    packs: &Vec<(String, Vec<Type>)>,
    lengths: &Vec<(String, usize)>,
) -> (r: Vec<StructComptime>)
    ensures
        struct_comptime_list_view(r@) == expanded_struct_comptime_list(
            struct_comptime_list_view(items@),
            pack_list_view(packs@),
            pack_length_list_view(lengths@),
            0,
            Seq::<StructComptimeView>::empty(),
        ),
    decreases items@, 0nat,
{
    let mut out: Vec<StructComptime> = Vec::new();
    assert(struct_comptime_list_view(out@) =~= Seq::<StructComptimeView>::empty());
    let ghost goal = expanded_struct_comptime_list(
        struct_comptime_list_view(items@),
        pack_list_view(packs@),
        pack_length_list_view(lengths@),
        0,
        Seq::<StructComptimeView>::empty(),
    );
    let mut i: usize = 0;
    while i < items.len()
        invariant
            i <= items@.len(),
            struct_comptime_list_view(items@).len() == items@.len(),
            expanded_struct_comptime_list(
                struct_comptime_list_view(items@),
                pack_list_view(packs@),
                pack_length_list_view(lengths@),
                i as nat,
                struct_comptime_list_view(out@),
            ) == goal,
            goal == expanded_struct_comptime_list(
                struct_comptime_list_view(items@),
                pack_list_view(packs@),
                pack_length_list_view(lengths@),
                0,
                Seq::<StructComptimeView>::empty(),
            ),
        decreases items@.len() - i,
    {
        let item = &items[i];
        assert(struct_comptime_list_view(items@)[i as int] == item@);
        let item2 = expand_struct_comptime(item, packs, lengths);
        let ghost before = struct_comptime_list_view(out@);
        let ghost added = item2@;
        out.push(item2);
        assert(struct_comptime_list_view(out@) =~= before.push(added));
        i = i + 1;
    }
    out
}

pub open spec fn expanded_method(
    method: MethodView,
    packs: Seq<(Seq<char>, Seq<TypeView>)>,
    lengths: Seq<(Seq<char>, usize)>,
) -> MethodView
    decreases method, 0nat,
{
    MethodView {
        name: method.name,
        has_self: method.has_self,
        self_convention: method.self_convention,
        params: expanded_fn_param_list(method.params, packs, lengths, 0, Seq::empty()),
        positional_only: method.positional_only,
        keyword_only: method.keyword_only,
        raises_type: expanded_opt_type(method.raises_type, packs),
        ret: expanded_opt_type(method.ret, packs),
        body: expanded_stmt_list(method.body, packs, lengths, 0, Seq::empty()),
    }
}

/// See [`expanded_method`].
pub fn expand_method(
    method: &Method,
    packs: &Vec<(String, Vec<Type>)>,
    lengths: &Vec<(String, usize)>,
) -> (r: Method)
    ensures
        r@ == expanded_method(
            method@,
            pack_list_view(packs@),
            pack_length_list_view(lengths@),
        ),
    decreases method, 0nat,
{
    let method2 = Method {
        name: (&method.name).clone(),
        has_self: method.has_self,
        self_convention: method.self_convention,
        params: expand_fn_param_list(&method.params, packs, lengths),
        positional_only: method.positional_only,
        keyword_only: method.keyword_only,
        raises_type: expand_opt_type(&method.raises_type, packs),
        ret: expand_opt_type(&method.ret, packs),
        body: expand_stmt_list(&method.body, packs, lengths),
    };
    proof { unfold_method(method2); }
    method2
}

pub open spec fn expanded_method_list(
    items: Seq<MethodView>,
    packs: Seq<(Seq<char>, Seq<TypeView>)>,
    lengths: Seq<(Seq<char>, usize)>,
    i: nat,
    out: Seq<MethodView>,
) -> Seq<MethodView>
    decreases items, (items.len() - i) as nat,
{
    if i >= items.len() {
        out
    } else {
        let item = items[i as int];
        let out = out.push(expanded_method(item, packs, lengths));
        expanded_method_list(items, packs, lengths, i + 1, out)
    }
}

/// See [`expanded_method_list`].
pub fn expand_method_list(
    items: &Vec<Method>,
    packs: &Vec<(String, Vec<Type>)>,
    lengths: &Vec<(String, usize)>,
) -> (r: Vec<Method>)
    ensures
        method_list_view(r@) == expanded_method_list(
            method_list_view(items@),
            pack_list_view(packs@),
            pack_length_list_view(lengths@),
            0,
            Seq::<MethodView>::empty(),
        ),
    decreases items@, 0nat,
{
    let mut out: Vec<Method> = Vec::new();
    assert(method_list_view(out@) =~= Seq::<MethodView>::empty());
    let ghost goal = expanded_method_list(
        method_list_view(items@),
        pack_list_view(packs@),
        pack_length_list_view(lengths@),
        0,
        Seq::<MethodView>::empty(),
    );
    let mut i: usize = 0;
    while i < items.len()
        invariant
            i <= items@.len(),
            method_list_view(items@).len() == items@.len(),
            expanded_method_list(
                method_list_view(items@),
                pack_list_view(packs@),
                pack_length_list_view(lengths@),
                i as nat,
                method_list_view(out@),
            ) == goal,
            goal == expanded_method_list(
                method_list_view(items@),
                pack_list_view(packs@),
                pack_length_list_view(lengths@),
                0,
                Seq::<MethodView>::empty(),
            ),
        decreases items@.len() - i,
    {
        let item = &items[i];
        assert(method_list_view(items@)[i as int] == item@);
        let item2 = expand_method(item, packs, lengths);
        let ghost before = method_list_view(out@);
        let ghost added = item2@;
        out.push(item2);
        assert(method_list_view(out@) =~= before.push(added));
        i = i + 1;
    }
    out
}

pub open spec fn expanded_stmt_kind(
    stmt_kind: StmtKindView,
    packs: Seq<(Seq<char>, Seq<TypeView>)>,
    lengths: Seq<(Seq<char>, usize)>,
) -> StmtKindView
    decreases stmt_kind, 3nat,
{
    match stmt_kind {
        StmtKindView::VarDecl { name, ty, value } => StmtKindView::VarDecl {
            name,
            ty: expanded_opt_type(ty, packs),
            value: expanded_expr(value, packs, lengths),
        },
        StmtKindView::RefDecl { name, value } => StmtKindView::RefDecl {
            name,
            value: expanded_expr(value, packs, lengths),
        },
        StmtKindView::Assign { name, value } => StmtKindView::Assign {
            name,
            value: expanded_expr(value, packs, lengths),
        },
        StmtKindView::Comptime { name, value } => StmtKindView::Comptime {
            name,
            value: expanded_expr(value, packs, lengths),
        },
        StmtKindView::Raise(a0) => StmtKindView::Raise(expanded_expr(a0, packs, lengths)),
        StmtKindView::Return(a0) => StmtKindView::Return(expanded_opt_expr(a0, packs, lengths)),
        _ => expanded_stmt_kind_more(stmt_kind, packs, lengths),
    }
}

/// See [`expanded_stmt_kind`].
pub fn expand_stmt_kind(
    stmt_kind: &StmtKind,
    packs: &Vec<(String, Vec<Type>)>,
    lengths: &Vec<(String, usize)>,
) -> (r: StmtKind)
    ensures
        r@ == expanded_stmt_kind(
            stmt_kind@,
            pack_list_view(packs@),
            pack_length_list_view(lengths@),
        ),
    decreases stmt_kind, 3nat,
{
    proof { unfold_stmt_kind(*stmt_kind); }
    match stmt_kind {
        StmtKind::VarDecl { name, ty, value } => {
            let kind = StmtKind::VarDecl {
                name: name.clone(),
                ty: expand_opt_type(ty, packs),
                value: expand_expr(value, packs, lengths),
            };
            proof { unfold_stmt_kind(kind); }
            kind
        },
        StmtKind::RefDecl { name, value } => {
            let kind2 = StmtKind::RefDecl {
                name: name.clone(),
                value: expand_expr(value, packs, lengths),
            };
            proof { unfold_stmt_kind(kind2); }
            kind2
        },
        StmtKind::Assign { name, value } => {
            let kind3 = StmtKind::Assign {
                name: name.clone(),
                value: expand_expr(value, packs, lengths),
            };
            proof { unfold_stmt_kind(kind3); }
            kind3
        },
        StmtKind::Comptime { name, value } => {
            let kind4 = StmtKind::Comptime {
                name: name.clone(),
                value: expand_expr(value, packs, lengths),
            };
            proof { unfold_stmt_kind(kind4); }
            kind4
        },
        StmtKind::Raise(a0) => {
            let kind5 = StmtKind::Raise(expand_expr(a0, packs, lengths));
            proof { unfold_stmt_kind(kind5); }
            kind5
        },
        StmtKind::Return(a0) => {
            let kind6 = StmtKind::Return(expand_opt_expr(a0, packs, lengths));
            proof { unfold_stmt_kind(kind6); }
            kind6
        },
        _ => {
            assert(!(stmt_kind@ is VarDecl));
            assert(!(stmt_kind@ is RefDecl));
            assert(!(stmt_kind@ is Assign));
            assert(!(stmt_kind@ is Comptime));
            assert(!(stmt_kind@ is Raise));
            assert(!(stmt_kind@ is Return));
            expand_stmt_kind_more(stmt_kind, packs, lengths)
        },
    }
}

pub open spec fn expanded_stmt_kind_more(
    stmt_kind: StmtKindView,
    packs: Seq<(Seq<char>, Seq<TypeView>)>,
    lengths: Seq<(Seq<char>, usize)>,
) -> StmtKindView
    decreases stmt_kind, 2nat,
{
    match stmt_kind {
        StmtKindView::SetPlace { place, value } => StmtKindView::SetPlace {
            place: expanded_expr(place, packs, lengths),
            value: expanded_expr(value, packs, lengths),
        },
        StmtKindView::AugAssign { place, op, value } => StmtKindView::AugAssign {
            place: expanded_expr(place, packs, lengths),
            op,
            value: expanded_expr(value, packs, lengths),
        },
        StmtKindView::Unpack { targets, value } => StmtKindView::Unpack {
            targets: expanded_expr_list(targets, packs, lengths, 0, Seq::empty()),
            value: expanded_expr(value, packs, lengths),
        },
        StmtKindView::Expr(a0) => StmtKindView::Expr(expanded_expr(a0, packs, lengths)),
        StmtKindView::If { branches, orelse } => StmtKindView::If {
            branches: expanded_branch_list(branches, packs, lengths, 0, Seq::empty()),
            orelse: expanded_opt_stmt_list(orelse, packs, lengths),
        },
        StmtKindView::ComptimeIf { branches, orelse } => StmtKindView::ComptimeIf {
            branches: expanded_branch_list(branches, packs, lengths, 0, Seq::empty()),
            orelse: expanded_opt_stmt_list(orelse, packs, lengths),
        },
        _ => expanded_stmt_kind_further(stmt_kind, packs, lengths),
    }
}

/// See [`expanded_stmt_kind_more`].
pub fn expand_stmt_kind_more(
    stmt_kind: &StmtKind,
    packs: &Vec<(String, Vec<Type>)>,
    lengths: &Vec<(String, usize)>,
) -> (r: StmtKind)
    ensures
        r@ == expanded_stmt_kind_more(
            stmt_kind@,
            pack_list_view(packs@),
            pack_length_list_view(lengths@),
        ),
    decreases stmt_kind, 2nat,
{
    proof { unfold_stmt_kind(*stmt_kind); }
    match stmt_kind {
        StmtKind::SetPlace { place, value } => {
            let kind = StmtKind::SetPlace {
                place: expand_expr(place, packs, lengths),
                value: expand_expr(value, packs, lengths),
            };
            proof { unfold_stmt_kind(kind); }
            kind
        },
        StmtKind::AugAssign { place, op, value } => {
            let kind2 = StmtKind::AugAssign {
                place: expand_expr(place, packs, lengths),
                op: *op,
                value: expand_expr(value, packs, lengths),
            };
            proof { unfold_stmt_kind(kind2); }
            kind2
        },
        StmtKind::Unpack { targets, value } => {
            let kind3 = StmtKind::Unpack {
                targets: expand_expr_list(targets, packs, lengths),
                value: expand_expr(value, packs, lengths),
            };
            proof { unfold_stmt_kind(kind3); }
            kind3
        },
        StmtKind::Expr(a0) => {
            let kind4 = StmtKind::Expr(expand_expr(a0, packs, lengths));
            proof { unfold_stmt_kind(kind4); }
            kind4
        },
        StmtKind::If { branches, orelse } => {
            let kind5 = StmtKind::If {
                branches: expand_branch_list(branches, packs, lengths),
                orelse: expand_opt_stmt_list(orelse, packs, lengths),
            };
            proof { unfold_stmt_kind(kind5); }
            kind5
        },
        StmtKind::ComptimeIf { branches, orelse } => {
            let kind6 = StmtKind::ComptimeIf {
                branches: expand_branch_list(branches, packs, lengths),
                orelse: expand_opt_stmt_list(orelse, packs, lengths),
            };
            proof { unfold_stmt_kind(kind6); }
            kind6
        },
        _ => {
            assert(!(stmt_kind@ is SetPlace));
            assert(!(stmt_kind@ is AugAssign));
            assert(!(stmt_kind@ is Unpack));
            assert(!(stmt_kind@ is Expr));
            assert(!(stmt_kind@ is If));
            assert(!(stmt_kind@ is ComptimeIf));
            expand_stmt_kind_further(stmt_kind, packs, lengths)
        },
    }
}

pub open spec fn expanded_stmt_kind_further(
    stmt_kind: StmtKindView,
    packs: Seq<(Seq<char>, Seq<TypeView>)>,
    lengths: Seq<(Seq<char>, usize)>,
) -> StmtKindView
    decreases stmt_kind, 1nat,
{
    match stmt_kind {
        StmtKindView::While { cond, body, orelse } => StmtKindView::While {
            cond: expanded_expr(cond, packs, lengths),
            body: expanded_stmt_list(body, packs, lengths, 0, Seq::empty()),
            orelse: expanded_opt_stmt_list(orelse, packs, lengths),
        },
        StmtKindView::For { var, reference, owned, iter, body, orelse } => StmtKindView::For {
            var,
            reference,
            owned,
            iter: expanded_expr(iter, packs, lengths),
            body: expanded_stmt_list(body, packs, lengths, 0, Seq::empty()),
            orelse: expanded_opt_stmt_list(orelse, packs, lengths),
        },
        StmtKindView::ComptimeFor { var, iter, body } => StmtKindView::ComptimeFor {
            var,
            iter: expanded_expr(iter, packs, lengths),
            body: expanded_stmt_list(body, packs, lengths, 0, Seq::empty()),
        },
        StmtKindView::Try { body, except, orelse, finalbody } => StmtKindView::Try {
            body: expanded_stmt_list(body, packs, lengths, 0, Seq::empty()),
            except: expanded_opt_opt_string_stmt_list(except, packs, lengths),
            orelse: expanded_opt_stmt_list(orelse, packs, lengths),
            finalbody: expanded_opt_stmt_list(finalbody, packs, lengths),
        },
        StmtKindView::With { items, body } => StmtKindView::With {
            items: expanded_with_item_list(items, packs, lengths, 0, Seq::empty()),
            body: expanded_stmt_list(body, packs, lengths, 0, Seq::empty()),
        },
        StmtKindView::Def { name, decorators, type_params, params, positional_only, keyword_only, captures, raises, raises_type, ret, where_clause, body } => StmtKindView::Def {
            name,
            decorators,
            type_params,
            params: expanded_fn_param_list(params, packs, lengths, 0, Seq::empty()),
            positional_only,
            keyword_only,
            captures,
            raises,
            raises_type: expanded_opt_type(raises_type, packs),
            ret: expanded_opt_type(ret, packs),
            where_clause,
            body: expanded_stmt_list(body, packs, lengths, 0, Seq::empty()),
        },
        _ => expanded_stmt_kind_rest(stmt_kind, packs, lengths),
    }
}

/// See [`expanded_stmt_kind_further`].
pub fn expand_stmt_kind_further(
    stmt_kind: &StmtKind,
    packs: &Vec<(String, Vec<Type>)>,
    lengths: &Vec<(String, usize)>,
) -> (r: StmtKind)
    ensures
        r@ == expanded_stmt_kind_further(
            stmt_kind@,
            pack_list_view(packs@),
            pack_length_list_view(lengths@),
        ),
    decreases stmt_kind, 1nat,
{
    proof { unfold_stmt_kind(*stmt_kind); }
    match stmt_kind {
        StmtKind::While { cond, body, orelse } => {
            let kind = StmtKind::While {
                cond: expand_expr(cond, packs, lengths),
                body: expand_stmt_list(body, packs, lengths),
                orelse: expand_opt_stmt_list(orelse, packs, lengths),
            };
            proof { unfold_stmt_kind(kind); }
            kind
        },
        StmtKind::For { var, reference, owned, iter, body, orelse } => {
            let kind2 = StmtKind::For {
                var: var.clone(),
                reference: *reference,
                owned: *owned,
                iter: expand_expr(iter, packs, lengths),
                body: expand_stmt_list(body, packs, lengths),
                orelse: expand_opt_stmt_list(orelse, packs, lengths),
            };
            proof { unfold_stmt_kind(kind2); }
            kind2
        },
        StmtKind::ComptimeFor { var, iter, body } => {
            let kind3 = StmtKind::ComptimeFor {
                var: var.clone(),
                iter: expand_expr(iter, packs, lengths),
                body: expand_stmt_list(body, packs, lengths),
            };
            proof { unfold_stmt_kind(kind3); }
            kind3
        },
        StmtKind::Try { body, except, orelse, finalbody } => {
            let kind4 = StmtKind::Try {
                body: expand_stmt_list(body, packs, lengths),
                except: expand_opt_opt_string_stmt_list(except, packs, lengths),
                orelse: expand_opt_stmt_list(orelse, packs, lengths),
                finalbody: expand_opt_stmt_list(finalbody, packs, lengths),
            };
            proof { unfold_stmt_kind(kind4); }
            kind4
        },
        StmtKind::With { items, body } => {
            let kind5 = StmtKind::With {
                items: expand_with_item_list(items, packs, lengths),
                body: expand_stmt_list(body, packs, lengths),
            };
            proof { unfold_stmt_kind(kind5); }
            kind5
        },
        StmtKind::Def {
            name,
            decorators,
            type_params,
            params,
            positional_only,
            keyword_only,
            captures,
            raises,
            raises_type,
            ret,
            where_clause,
            body,
        } => {
            let kind6 = StmtKind::Def {
                name: name.clone(),
                decorators: clone_string_list(decorators),
                type_params: clone_type_param_list(type_params),
                params: expand_fn_param_list(params, packs, lengths),
                positional_only: *positional_only,
                keyword_only: *keyword_only,
                captures: (match captures { Some(y) => Some(clone_capture_list(y)), None => None }),
                raises: *raises,
                raises_type: expand_opt_type(raises_type, packs),
                ret: expand_opt_type(ret, packs),
                where_clause: (match where_clause { Some(y) => Some(clone_expr(y)), None => None }),
                body: expand_stmt_list(body, packs, lengths),
            };
            proof { unfold_stmt_kind(kind6); }
            kind6
        },
        _ => {
            assert(!(stmt_kind@ is While));
            assert(!(stmt_kind@ is For));
            assert(!(stmt_kind@ is ComptimeFor));
            assert(!(stmt_kind@ is Try));
            assert(!(stmt_kind@ is With));
            assert(!(stmt_kind@ is Def));
            expand_stmt_kind_rest(stmt_kind, packs, lengths)
        },
    }
}

pub open spec fn expanded_stmt_kind_rest(
    stmt_kind: StmtKindView,
    packs: Seq<(Seq<char>, Seq<TypeView>)>,
    lengths: Seq<(Seq<char>, usize)>,
) -> StmtKindView
    decreases stmt_kind, 0nat,
{
    match stmt_kind {
        StmtKindView::Struct { name, decorators, type_params, conforms, callable_conformance, conformance_conditions, fields, associated, methods, fieldwise_init } => StmtKindView::Struct {
            name,
            decorators,
            type_params,
            conforms,
            callable_conformance,
            conformance_conditions,
            fields: expanded_param_list(fields, packs, lengths, 0, Seq::empty()),
            associated: expanded_struct_comptime_list(associated, packs, lengths, 0, Seq::empty()),
            methods: expanded_method_list(methods, packs, lengths, 0, Seq::empty()),
            fieldwise_init,
        },
        _ => stmt_kind,
    }
}

/// See [`expanded_stmt_kind_rest`].
pub fn expand_stmt_kind_rest(
    stmt_kind: &StmtKind,
    packs: &Vec<(String, Vec<Type>)>,
    lengths: &Vec<(String, usize)>,
) -> (r: StmtKind)
    ensures
        r@ == expanded_stmt_kind_rest(
            stmt_kind@,
            pack_list_view(packs@),
            pack_length_list_view(lengths@),
        ),
    decreases stmt_kind, 0nat,
{
    proof { unfold_stmt_kind(*stmt_kind); }
    match stmt_kind {
        StmtKind::Struct {
            name,
            decorators,
            type_params,
            conforms,
            callable_conformance,
            conformance_conditions,
            fields,
            associated,
            methods,
            fieldwise_init,
        } => {
            let kind = StmtKind::Struct {
                name: name.clone(),
                decorators: clone_string_list(decorators),
                type_params: clone_type_param_list(type_params),
                conforms: clone_string_list(conforms),
                callable_conformance: (
                    match callable_conformance { Some(y) => Some(clone_type(y)), None => None }
                ),
                conformance_conditions: clone_expr_list(conformance_conditions),
                fields: expand_param_list(fields, packs, lengths),
                associated: expand_struct_comptime_list(associated, packs, lengths),
                methods: expand_method_list(methods, packs, lengths),
                fieldwise_init: *fieldwise_init,
            };
            proof { unfold_stmt_kind(kind); }
            kind
        },
        _ => {
            assert(!(stmt_kind@ is Struct));
            clone_stmt_kind(stmt_kind)
        },
    }
}

/// A statement with type packs replaced by their types, and with spread packs among
/// the arguments of tuples replaced by their elements.
pub open spec fn expanded_stmt(
    stmt: StmtView,
    packs: Seq<(Seq<char>, Seq<TypeView>)>,
    lengths: Seq<(Seq<char>, usize)>,
) -> StmtView
    decreases stmt, 0nat,
{
    StmtView {
        kind: expanded_stmt_kind(stmt.kind, packs, lengths),
        span: stmt.span,
        module: stmt.module,
    }
}

/// See [`expanded_stmt`].
pub fn expand_stmt(
    stmt: &Stmt,
    packs: &Vec<(String, Vec<Type>)>,
    lengths: &Vec<(String, usize)>,
) -> (r: Stmt)
    ensures
        r@ == expanded_stmt(stmt@, pack_list_view(packs@), pack_length_list_view(lengths@)),
    decreases stmt, 0nat,
{
    Stmt {
        kind: expand_stmt_kind(&stmt.kind, packs, lengths),
        span: stmt.span,
        module: (match (&stmt.module) { Some(y) => Some(y.clone()), None => None }),
    }
}

} // verus!
