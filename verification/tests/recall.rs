use jojobot_mcp::declined::MemoryError;
use jojobot_mcp::fixtures::recall_args;
use jojobot_mcp::recall::{
    asked_by_name,
    filled_by_view, follow_plan, key_filters, no_view, recall_opening, recall_query, view_handle, Along,
    FollowArgs, KeyFilterArgs, NearArgs, OverdueArgs, NEAR_WINDOW, WRITES_SHOWN,
};
use jojobot_mcp::vocab::{Clock, Compare, Day, Direction, EdgeShape, EntityId, ErrorCode, Kinds, Scope};

fn kinds() -> Kinds {
    Kinds { tokens: vec!["person".into(), "bot".into(), "rhythm".into(), "view".into()] }
}

fn filter(key: Option<&str>, value: Option<&str>, compare: Option<&str>, scope: Option<&str>) -> KeyFilterArgs {
    KeyFilterArgs {
        key: key.map(String::from),
        value: value.map(String::from),
        compare: compare.map(String::from),
        scope: scope.map(String::from),
    }
}

fn no_follow() -> FollowArgs {
    FollowArgs { shape: None, relation: None, direction: None, depth: None, keeping: None, fits_type: None }
}

#[test]
fn key_filters_trim_and_default_to_equality_asked_of_the_thing() {
    let got = key_filters(&[filter(Some(" colour "), Some(" blue "), None, None)]).expect("well formed");
    assert_eq!(got.len(), 1);
    assert_eq!(got[0].key.as_deref(), Some("colour"));
    assert_eq!(got[0].value.as_deref(), Some("blue"));
    assert_eq!(got[0].compare, Compare::Equals);
    assert_eq!(got[0].scope, Scope::Thing);
    let record = key_filters(&[filter(None, Some("3"), Some("greater"), Some("record"))]).unwrap();
    assert_eq!(record[0].key, None);
    assert_eq!(record[0].compare, Compare::Greater);
    assert_eq!(record[0].scope, Scope::Record);
}

#[test]
fn the_first_malformed_filter_refuses_the_call() {
    let e = key_filters(&[
        filter(Some("a"), None, None, None),
        filter(Some("b"), None, Some("roughly"), Some("row")),
        filter(Some("c"), None, Some("nearly"), None),
    ])
    .expect_err("the second filter's comparison is no comparison");
    assert_eq!(e.code, ErrorCode::InvalidParams);
    assert!(e.message.contains("roughly"), "{}", e.message);
}

#[test]
fn a_walk_names_one_kind_of_link_or_is_declined() {
    let both = FollowArgs { shape: Some("location".into()), relation: Some("owner".into()), ..no_follow() };
    match follow_plan(&both, None) {
        Ok(Err(MemoryError::InvalidQuery(why))) => assert!(why.contains("not both")),
        other => panic!("expected a declined query, got {other:?}"),
    }
}

#[test]
fn a_walk_reads_its_shape_direction_depth_and_filters() {
    let f = FollowArgs {
        shape: Some("membership".into()),
        direction: Some("in".into()),
        depth: Some(2),
        keeping: Some(vec![filter(Some("born"), Some("2020-01-01"), Some("before"), None)]),
        ..no_follow()
    };
    let w = follow_plan(&f, None).unwrap().unwrap();
    assert!(matches!(w.along, Along::Edge(EdgeShape::Membership)));
    assert_eq!(w.direction, Some(Direction::In));
    assert_eq!(w.depth, 2);
    assert_eq!(w.keeping.len(), 1);
    let relation = FollowArgs { relation: Some(" owner ".into()), ..no_follow() };
    let w = follow_plan(&relation, None).unwrap().unwrap();
    match w.along {
        Along::Relation(r) => assert_eq!(r, "owner"),
        other => panic!("a relation walk, not {other:?}"),
    }
    assert_eq!(w.direction, None, "an unnamed direction stays unset");
    assert_eq!(w.depth, 1);
    let any = follow_plan(&no_follow(), None).unwrap().unwrap();
    assert!(matches!(any.along, Along::AnyEdge));
    assert!(follow_plan(&FollowArgs { shape: Some("nearby".into()), ..no_follow() }, None).is_err());
    assert!(follow_plan(&FollowArgs { direction: Some("up".into()), ..no_follow() }, None).is_err());
}

#[test]
fn the_overdue_day_is_read_before_a_view_fills_the_call() {
    let mut args = recall_args("rhythm:kettle");
    args.overdue = Some(OverdueArgs { as_of: Some("2026-05-01".into()) });
    let o = recall_opening(&args, None).unwrap().unwrap();
    assert_eq!(o.as_of, Some(Some(Day { year: 2026, month: 5, day: 1 })));
    assert!(o.follow.is_none());
    args.overdue = Some(OverdueArgs { as_of: None });
    assert_eq!(recall_opening(&args, None).unwrap().unwrap().as_of, Some(None), "today, which the edge reads");
    args.overdue = Some(OverdueArgs { as_of: Some("soon".into()) });
    assert!(recall_opening(&args, None).is_err());
}

#[test]
fn a_view_is_asked_for_by_its_handle_or_its_bare_slug() {
    assert_eq!(view_handle(" loops "), EntityId("view:loops".into()));
    assert_eq!(view_handle("view:colleagues"), EntityId("view:colleagues".into()));
    assert_eq!(view_handle("person:homer"), EntityId("view:person:homer".into()));
}

#[test]
fn a_view_fills_in_what_the_caller_left_off_and_the_caller_wins() {
    let held = vec![
        ("asks".to_string(), "overdue".to_string()),
        ("selects".to_string(), "rhythm".to_string()),
        ("shows".to_string(), "facts, prose".to_string()),
    ];
    let mut args = recall_args("rhythm:kettle");
    args.facts = None;
    let filled = filled_by_view(args, &held);
    assert_eq!(filled.kind.as_deref(), Some("rhythm"));
    assert_eq!(filled.facts, Some(true));
    assert_eq!(filled.prose, Some(true));
    assert_eq!(filled.charter, None);
    assert!(filled.overdue.is_some());
    assert_eq!(filled.subject.as_deref(), Some("rhythm:kettle"));

    let mut mine = recall_args("rhythm:kettle");
    mine.kind = Some("person".into());
    mine.facts = Some(false);
    let filled = filled_by_view(mine, &held);
    assert_eq!(filled.kind.as_deref(), Some("person"), "the caller's own arguments win");
    assert_eq!(filled.facts, Some(false));
}

#[test]
fn a_name_that_is_no_view_names_the_views_there_are() {
    let handle = EntityId("view:nope".into());
    let b = no_view(&handle, &vec!["view:loops".into(), "view:colleagues".into()]);
    assert!(b.how_to_proceed.contains("The views here are: view:loops, view:colleagues."));
    assert!(b.candidates.is_empty());
    let none = no_view(&handle, &Vec::new());
    assert!(none.how_to_proceed.contains("there are no views here yet"));
}

#[test]
fn a_recall_becomes_the_query_it_means() {
    let mut args = recall_args("homer");
    args.kind = Some(" person ".into());
    args.charter = Some(true);
    args.history = Some(" donuts_eaten ".into());
    args.near = Some(NearArgs { day: Some("2026-08-19".into()), within_days: None, clock: Some("taken_in".into()) });
    args.fields = Some(vec![filter(Some("colour"), None, None, None)]);
    let opening = recall_opening(&args, None).unwrap().unwrap();
    let q = recall_query(args, opening, &kinds(), None, None).expect("well formed");
    assert_eq!(q.subject, Some(EntityId("person:homer".into())));
    assert_eq!(q.kind.map(|k| k.0), Some("person".to_string()));
    assert!(q.facts);
    assert!(q.charter && q.prose && !q.asked_prose, "a charter IS the page");
    let h = q.history.expect("history asked");
    assert_eq!(h.key, "donuts_eaten");
    assert_eq!(h.most, WRITES_SHOWN);
    let near = q.near.expect("near asked");
    assert_eq!(near.within_days, NEAR_WINDOW);
    assert_eq!(near.clock, Clock::TakenIn);
    assert_eq!(near.day, Some(Day { year: 2026, month: 8, day: 19 }));
    assert_eq!(q.fields.len(), 1);
    assert_eq!(q.values_most, WRITES_SHOWN);
}

#[test]
fn a_malformed_recall_is_refused_near_first_then_kind_then_filters() {
    let mut args = recall_args("homer");
    args.near = Some(NearArgs { day: None, within_days: Some(3), clock: Some("wall".into()) });
    args.kind = Some("spaceship".into());
    let opening = recall_opening(&args, None).unwrap().unwrap();
    let e = recall_query(args, opening, &kinds(), None, None).expect_err("the clock is read first");
    assert!(e.message.contains("wall"), "{}", e.message);
    let mut args = recall_args("homer");
    args.kind = Some("spaceship".into());
    let opening = recall_opening(&args, None).unwrap().unwrap();
    let e = recall_query(args, opening, &kinds(), None, None).expect_err("no such kind");
    assert!(e.message.contains("spaceship"));
}

#[test]
fn a_view_that_reads_back_empty_or_fails_is_no_view_and_one_with_fields_fills_the_call() {
    let handle = view_handle("v");
    let known = vec!["view:loops".to_string()];
    let held = vec![
        ("selects".to_string(), "rhythm".to_string()),
        ("shows".to_string(), "facts, prose".to_string()),
        ("asks".to_string(), "overdue".to_string()),
    ];
    let mut args = recall_args("rhythm:kettle");
    args.kind = Some("person".into());
    args.facts = None;
    let filled = asked_by_name(&handle, args, Some(held), &known).expect("a view");
    assert_eq!(filled.kind.as_deref(), Some("person"), "the caller wins");
    assert_eq!(filled.facts, Some(true));
    assert_eq!(filled.prose, Some(true));
    assert_eq!(filled.charter, None);
    assert!(filled.overdue.as_ref().is_some_and(|o| o.as_of.is_none()));
    for read in [None, Some(Vec::new())] {
        let refused = asked_by_name(&handle, recall_args("x"), read, &known).expect_err("no view");
        assert_eq!(refused.attempted, EntityId("view:v".into()));
        assert!(refused.candidates.is_empty());
        assert!(refused.how_to_proceed.contains("The views here are: view:loops."));
    }
}
