use mojito::origin::{
    compare_origin, places_overlap, Origin, OriginParamId, OriginPlace, OriginSeg, OwnerId,
};

fn place(root: u32, path: Vec<OriginSeg>) -> Origin {
    Origin::Place(OriginPlace { root: OwnerId(root), path })
}

fn field(name: &str) -> OriginSeg {
    OriginSeg::Field(name.to_string())
}

#[test]
fn unions_are_flattened_deduplicated_and_ordered() {
    let a = || place(1, vec![]);
    let b = || place(2, vec![]);
    assert_eq!(
        Origin::union(vec![b(), Origin::union(vec![a(), b()])]),
        Origin::Union(vec![a(), place(2, vec![])])
    );
}

#[test]
fn projected_places_use_prefix_and_wildcard_overlap() {
    assert!(place(1, vec![]).overlaps(&place(1, vec![field("a")])));
    assert!(!place(1, vec![field("a")]).overlaps(&place(1, vec![field("b")])));
    assert!(place(1, vec![OriginSeg::AnyIndex]).overlaps(&place(1, vec![field("a")])));
    assert!(!place(1, vec![]).overlaps(&place(2, vec![])));
}

#[test]
fn a_union_of_one_origin_is_that_origin() {
    assert_eq!(Origin::union(vec![Origin::Static, Origin::Static]), Origin::Static);
    assert_eq!(
        Origin::union(vec![Origin::Param(OriginParamId(3))]),
        Origin::Param(OriginParamId(3))
    );
}

#[test]
fn an_empty_union_stays_a_union() {
    assert_eq!(Origin::union(vec![]), Origin::Union(vec![]));
}

#[test]
fn a_union_overlaps_what_a_member_overlaps() {
    let either = Origin::union(vec![place(1, vec![]), place(2, vec![field("a")])]);
    assert!(either.overlaps(&place(2, vec![])));
    assert!(place(2, vec![]).overlaps(&either));
    assert!(!either.overlaps(&place(2, vec![field("b")])));
}

#[test]
fn overlap_of_places_goes_both_ways() {
    let whole = OriginPlace { root: OwnerId(7), path: vec![] };
    let part = OriginPlace { root: OwnerId(7), path: vec![field("x"), OriginSeg::AnyIndex] };
    assert!(places_overlap(&whole, &part));
    assert!(places_overlap(&part, &whole));
}

#[test]
fn nested_unions_are_flattened_to_the_bottom() {
    let inner = Origin::Union(vec![Origin::Static, Origin::Param(OriginParamId(0))]);
    let deep = Origin::Union(vec![Origin::Union(vec![inner])]);
    let expected = Origin::Union(vec![Origin::Param(OriginParamId(0)), Origin::Static]);
    assert_eq!(Origin::union(vec![deep]), expected);
    let again = Origin::union(vec![expected]);
    assert_eq!(
        again,
        Origin::Union(vec![Origin::Param(OriginParamId(0)), Origin::Static])
    );
}

#[test]
fn origins_are_ordered_by_kind() {
    let origins = vec![
        Origin::Param(OriginParamId(3)),
        Origin::Place(OriginPlace { root: OwnerId(0), path: vec![] }),
        Origin::Static,
        Origin::Untracked { mutable: false },
        Origin::Untracked { mutable: true },
        Origin::Union(vec![]),
    ];
    for (i, a) in origins.iter().enumerate() {
        for (j, b) in origins.iter().enumerate() {
            let order = compare_origin(a, b);
            assert_eq!(order.signum(), (i as i32 - j as i32).signum());
            assert_eq!(order, -compare_origin(b, a));
        }
    }
}
