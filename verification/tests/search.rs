use jojobot_mcp::fixtures::search_args;
use jojobot_mcp::search::{
    parse_search_status,
    asking_for_mail, coverage_notes, mail_coverage, matching_note, memory_coverage, next_coverage,
    search_description, search_query, search_summary, walk, Behind, Coverage, EdgeFilter,
    EdgeFilterArgs, MailExcluded, SearchQuery, SpySearch, DEFAULT_LIMIT,
};
use jojobot_mcp::types::{DeclaredType, Field, ValueType};
use jojobot_mcp::vocab::{EdgeShape, EntityId, EntityKind, ErrorCode, FactStatus, Kinds, Provenance, Standing};

fn kinds() -> Kinds {
    Kinds { tokens: vec!["person".into(), "bot".into(), "place".into()] }
}

/// Each reason's query really reaches that reason, and an unnarrowed query
/// that asks for mail holds none of them.
#[test]
fn every_query_driven_exclusion_is_reached_by_its_own_query() {
    for left_out in walk(MailExcluded::NotAsked, MailExcluded::next) {
        assert_eq!(
            MailExcluded::of(&left_out.query()),
            Some(left_out),
            "the query written for {left_out:?} reaches a different reason"
        );
    }
    assert_eq!(
        MailExcluded::of(&asking_for_mail()),
        None,
        "a query that asks for mail and narrows nothing holds none of these reasons"
    );
}

/// The note names every filter that can reach it, and a type filter has a
/// reason of its own.
#[test]
fn the_fact_scoped_note_names_every_filter_that_reaches_it() {
    let served = mail_coverage(
        &SearchQuery { status: Some(FactStatus::Superseded), ..asking_for_mail() },
        Coverage::Loaded,
    );
    let note = served.note.expect("a note");
    for filter in ["status", "provenance", "subject", "edge"] {
        assert!(
            note.contains(filter),
            "the note leaves out {filter}, which is one of the filters that reaches it: {note}"
        );
    }
    assert!(!note.contains("answers_type"), "a type filter does not reach this reason: {note}");

    let by_type = SearchQuery {
        answers_type: Some(DeclaredType::new("kiln-firing", Vec::new())),
        ..asking_for_mail()
    };
    assert_eq!(MailExcluded::of(&by_type), Some(MailExcluded::TypeFiltered), "a type filter has a reason of its own");
    let typed = mail_coverage(&by_type, Coverage::Loaded);
    let note = typed.note.expect("a note");
    assert!(
        note.contains("answers_type"),
        "…and the reason names the argument the caller actually passed: {note}"
    );
}

/// The search description never claims mail is unreachable, and names the
/// parameter that takes mail back out.
#[test]
fn the_search_description_no_longer_says_mail_is_unsearchable() {
    let text = search_description();
    for stale in [
        "Messages and mailboxes are not searchable",
        "not searchable here",
        "sees memory only",
        "never messages",
    ] {
        assert!(!text.contains(stale), "the search description still claims mail is out of reach ({stale:?})");
    }
    assert!(
        text.contains("searchable") || text.contains("include_mail"),
        "the search description has to say that mail IS reachable — silence reads as the old claim"
    );
    assert!(text.contains("include_mail"), "…and the description has to name the parameter that takes mail back out");
}

/// Every filter that stands in for a query is accepted alone by the
/// validator, and the description names it.
#[test]
fn the_search_description_names_every_filter_that_stands_in_for_a_query() {
    let a_type = || DeclaredType::new("kiln-firing", vec![Field::new("cone", ValueType::Text)]);
    let alone = [
        ("kind", SearchQuery { kind: Some(EntityKind::person()), ..SearchQuery::default() }),
        ("status", SearchQuery { status: Some(FactStatus::Superseded), ..SearchQuery::default() }),
        ("provenance", SearchQuery { provenance: Some(Provenance::Testimony), ..SearchQuery::default() }),
        ("subject", SearchQuery { subject: Some(EntityId("person:alpha".into())), ..SearchQuery::default() }),
        (
            "edge",
            SearchQuery {
                edge: Some(EdgeFilter {
                    shape: Some(EdgeShape::Location),
                    object: EntityId("place:shelbyville".into()),
                }),
                ..SearchQuery::default()
            },
        ),
        ("answers_type", SearchQuery { answers_type: Some(a_type()), ..SearchQuery::default() }),
        ("fits_type", SearchQuery { fits_type: Some(a_type()), ..SearchQuery::default() }),
    ];
    let description = search_description();
    for (name, query) in alone {
        assert!(query.text.is_none(), "{name} has to stand in for the query, so this case carries no text");
        query
            .validate()
            .unwrap_or_else(|e| panic!("{name} alone is accepted as a query's stand-in, but the validator said: {e:?}"));
        assert!(description.contains(name), "the description has to name {name}: {description}");
    }
}

#[test]
fn a_query_that_narrows_nothing_is_refused() {
    let e = SearchQuery::default().validate().expect_err("nothing narrows it");
    assert!(e.describe().contains("a search needs words or a filter"));
    let e = asking_for_mail().validate().expect_err("include_mail does not narrow");
    assert!(e.describe().contains("include_mail says what to search"));
}

#[test]
fn both_type_filters_zero_limit_and_a_subject_that_is_no_handle_are_refused() {
    let t = || DeclaredType::new("pet", Vec::new());
    let both = SearchQuery { answers_type: Some(t()), fits_type: Some(t()), ..SearchQuery::default() };
    assert!(both.validate().unwrap_err().describe().contains("never both"));
    let none = SearchQuery { text: Some("donut".into()), limit: 0, ..SearchQuery::default() };
    assert!(none.validate().unwrap_err().describe().contains("limit must be at least 1"));
    let bad = SearchQuery { subject: Some(EntityId("Homer Simpson".into())), ..SearchQuery::default() };
    assert!(bad.validate().unwrap_err().describe().contains("subject 'Homer Simpson' is no handle"));
}

#[test]
fn every_note_is_gathered_once_through_the_path_a_caller_travels() {
    let found = coverage_notes();
    assert_eq!(found.len(), 4 + 8);
    assert_eq!(found[0].0, "search's mail coverage note (NotAsked)");
    assert_eq!(found[4].0, "search's memory coverage note (Unread)");
    assert_eq!(found[11].0, "search's mail coverage note (Loaded)");
    assert_eq!(found[11].1.note, None);
    let walked = walk(Coverage::Unread, next_coverage);
    assert_eq!(
        walked,
        vec![Coverage::Unread, Coverage::Partial(Behind::Unscanned), Coverage::Partial(Behind::Stale), Coverage::Loaded]
    );
}

#[test]
fn a_partial_index_says_how_far_behind_it_is() {
    let m = memory_coverage(Coverage::Partial(Behind::Stale));
    assert!(m.searched);
    assert_eq!(m.behind, Some(Behind::Stale));
    assert!(m.note.is_some());
    let unread = memory_coverage(Coverage::Unread);
    assert!(!unread.searched);
    assert_ne!(m.note, memory_coverage(Coverage::Partial(Behind::Unscanned)).note);
    let mail = mail_coverage(&asking_for_mail(), Coverage::Partial(Behind::Unscanned));
    assert!(mail.searched);
    assert_eq!(mail.behind.map(|b| b.as_token()), Some("unscanned"));
}

#[test]
fn a_kind_filter_leaves_mail_out_even_when_mail_is_asked_for() {
    let q = SearchQuery { kind: Some(EntityKind::person()), ..asking_for_mail() };
    assert_eq!(MailExcluded::of(&q), Some(MailExcluded::KindFiltered));
    let report = mail_coverage(&q, Coverage::Loaded);
    assert!(!report.searched);
}

#[test]
fn search_arguments_become_the_query_they_mean() {
    let mut args = search_args();
    args.kind = Some(" person ".into());
    args.status = Some("archived".into());
    args.standing = Some("open".into());
    args.subject = Some("homer".into());
    args.edge = Some(EdgeFilterArgs { shape: Some("location".into()), object: " place:moes ".into() });
    let q = search_query(args, &kinds(), None, None, None).expect("well formed");
    assert_eq!(q.kind, Some(EntityKind("person".into())));
    assert_eq!(q.status, Some(FactStatus::Archived));
    assert_eq!(q.standing, Some(Standing::Open));
    assert_eq!(q.subject, Some(EntityId("person:homer".into())));
    let edge = q.edge.expect("an edge filter");
    assert_eq!(edge.shape, Some(EdgeShape::Location));
    assert_eq!(edge.object, EntityId("place:moes".into()));
    assert_eq!(q.limit, DEFAULT_LIMIT);
    assert!(!q.include_mail);
}

#[test]
fn a_malformed_search_argument_is_refused_in_order() {
    let mut args = search_args();
    args.edge = Some(EdgeFilterArgs { shape: Some("nearby".into()), object: "place:moes".into() });
    args.kind = Some("spaceship".into());
    let e = search_query(args, &kinds(), None, None, None).expect_err("the shape is read first");
    assert_eq!(e.code, ErrorCode::InvalidParams);
    assert!(e.message.contains("nearby"));
    let mut args = search_args();
    args.kind = Some("spaceship".into());
    args.limit = Some(5);
    let e = search_query(args, &kinds(), None, None, None).expect_err("no such kind");
    assert!(e.message.contains("spaceship"));
}

#[test]
fn a_handle_is_matched_whole_and_words_loosely() {
    let by_handle = SearchQuery { text: Some(" person:homer ".into()), ..SearchQuery::default() };
    assert!(matching_note(&by_handle).exact);
    let by_words = SearchQuery { text: Some("homer donut".into()), ..SearchQuery::default() };
    assert!(!matching_note(&by_words).exact);
    assert_ne!(matching_note(&by_handle).note, matching_note(&by_words).note);
    let summary = search_summary(&by_words, 3, Coverage::Loaded, Coverage::Loaded);
    assert_eq!(summary.count, 3);
    assert!(!summary.mail.searched, "mail was not asked for");
}

#[test]
fn the_spy_port_records_the_query_it_was_handed() {
    let mut spy: SpySearch<u8> = SpySearch::answering(vec![1, 2]);
    let hits = spy.search(SearchQuery { text: Some("donut".into()), ..SearchQuery::default() }).clone();
    assert_eq!(hits, vec![1, 2]);
    assert_eq!(spy.query().text.as_deref(), Some("donut"));
    assert_eq!(SpySearch::<u8>::with_no_mail_indexed().mail_coverage(), Coverage::Unread);
    assert_eq!(SpySearch::<u8>::over_memory(Coverage::Unread, Vec::new()).memory_coverage(), Coverage::Unread);
    assert_eq!(SpySearch::<u8>::covering(Coverage::Loaded, Vec::new()).mail_coverage(), Coverage::Loaded);
}

/// Every argument reaches the query as the typed value it means — including
/// the edge filter, and a status naming the superseded facts.
#[test]
fn search_translates_every_argument_into_the_query() {
    let args = jojobot_mcp::search::SearchArgs {
        answers_type: None,
        query: Some("winter".into()),
        kind: Some("person".into()),
        status: Some("superseded".into()),
        provenance: Some("testimony".into()),
        standing: Some("open".into()),
        subject: Some("person:alpha".into()),
        edge: Some(EdgeFilterArgs { shape: Some("location".into()), object: "place:shelbyville".into() }),
        include_mail: Some(false),
        limit: Some(5),
        sid: None,
        fits_type: None,
    };
    let query = search_query(args, &kinds(), None, None, None).expect("search ok");
    assert_eq!(query.terms().as_deref(), Some("winter"));
    assert!(!query.include_mail, "the caller's exclusion must reach the port");
    assert_eq!(query.kind, Some(EntityKind::person()));
    assert_eq!(query.status, Some(FactStatus::Superseded));
    assert_eq!(query.provenance, Some(Provenance::Testimony));
    assert_eq!(query.standing, Some(Standing::Open));
    assert_eq!(query.subject.as_ref().map(|s| s.0.as_str()), Some("person:alpha"));
    let edge = query.edge.expect("the edge filter must survive translation");
    assert_eq!(edge.shape, Some(EdgeShape::Location));
    assert_eq!(edge.object.0, "place:shelbyville");
    assert_eq!(query.limit, 5);
}

#[test]
fn a_search_reads_superseded_and_still_refuses_the_retired_words() {
    assert_eq!(parse_search_status(" superseded ").unwrap(), FactStatus::Superseded);
    assert_eq!(parse_search_status("active").unwrap(), FactStatus::Active);
    for word in ["retracted", "negated", "pending"] {
        let e = parse_search_status(word).expect_err("refused by name");
        assert_eq!(e.code, ErrorCode::InvalidParams);
    }
    let mut args = search_args();
    args.status = Some("retracted".into());
    assert!(search_query(args, &kinds(), None, None, None).is_err());
}

#[test]
fn each_reasons_query_asks_for_mail_and_its_one_filter_and_nothing_else() {
    for reason in walk(MailExcluded::NotAsked, MailExcluded::next) {
        let q = reason.query();
        assert_eq!(q.include_mail, reason != MailExcluded::NotAsked);
        assert!(q.text.is_none() && q.asked_by.is_none() && q.fits_type.is_none());
        assert!(q.provenance.is_none() && q.standing.is_none() && q.subject.is_none() && q.edge.is_none());
        assert_eq!(q.limit, DEFAULT_LIMIT);
    }
    assert_eq!(MailExcluded::FactScoped.query().status, Some(FactStatus::Active));
    assert_eq!(MailExcluded::KindFiltered.query().kind, Some(EntityKind::person()));
    assert_eq!(MailExcluded::TypeFiltered.query().answers_type.map(|t| t.name), Some("kiln-firing".to_string()));
}
