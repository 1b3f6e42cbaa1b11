use jojobot_mcp::parse::{
    bot_id, named_bot, parse_boot, parse_clock, parse_compare, parse_date, parse_day, parse_direction,
    parse_edge, parse_kind, parse_one_provenance, parse_provenance, parse_scope, parse_shape,
    parse_standing, parse_status, parse_zone, entity_id, date_read, day_read, zone_read, FALLBACK_ZONE,
};
use jojobot_mcp::vocab::{
    Boot, Clock, Compare, Day, Direction, EdgeShape, EntityId, ErrorCode, FactStatus, Kinds, Provenance,
    Scope, Standing,
};

fn kinds() -> Kinds {
    Kinds { tokens: vec!["person".into(), "bot".into(), "place".into(), "org".into(), "event".into()] }
}

/// The two edges of reading an identity off a parameter: blank is absent,
/// and a handle of another kind is a client error.
#[test]
fn a_named_bot_is_absent_when_blank_and_refused_when_it_is_another_kind() {
    assert_eq!(named_bot(None).expect("ok"), None);
    assert_eq!(named_bot(Some("   ")).expect("blank is absent"), None);
    assert_eq!(
        named_bot(Some(" gamma ")).expect("ok"),
        Some(EntityId("bot:gamma".into())),
        "a bare name is a bot at this door"
    );
    assert_eq!(
        named_bot(Some("bot:gamma")).expect("ok"),
        Some(EntityId("bot:gamma".into())),
        "…and so is the qualified handle"
    );
    let wrong = named_bot(Some("person:milhouse")).expect_err("another kind is refused");
    assert_eq!(wrong.code, ErrorCode::InvalidParams);
}

/// A zone name resolves, and a name that is no zone says so.
#[test]
fn a_zone_name_resolves_and_a_name_that_is_no_zone_says_so() {
    let stamp: jiff::Timestamp = "2026-08-19T02:30:00Z".parse().expect("a fixed instant");
    for (name, expected) in [("America/New_York", "2026-08-18"), ("Europe/Madrid", "2026-08-19")] {
        let zone = parse_zone(Some(name)).unwrap_or_else(|e| panic!("{name} is a zone: {}", e.message));
        assert_eq!(stamp.to_zoned(zone).date().to_string(), expected, "{name} puts that instant on {expected}");
    }
    assert_eq!(parse_zone(None).expect("no name is the fallback").iana_name(), Some(FALLBACK_ZONE));
    let refused = parse_zone(Some("Nowhere/Atall")).expect_err("that is no zone");
    assert!(refused.to_text().contains("Nowhere/Atall"), "the refusal quotes what was sent: {}", refused.message);
}

#[test]
fn a_bot_name_with_a_kind_of_its_own_is_refused_naming_it() {
    let e = bot_id("person:milhouse").expect_err("not a bot");
    assert_eq!(e.code, ErrorCode::InvalidParams);
    assert!(e.message.contains("person"));
    assert_eq!(bot_id(" beta ").expect("a bare name"), EntityId("bot:beta".into()));
}

#[test]
fn every_shape_token_parses_and_a_stranger_is_refused() {
    assert_eq!(parse_shape("location").unwrap(), EdgeShape::Location);
    assert_eq!(parse_shape("membership").unwrap(), EdgeShape::Membership);
    assert_eq!(parse_shape("attendance").unwrap(), EdgeShape::Attendance);
    assert_eq!(parse_shape("about").unwrap(), EdgeShape::About);
    assert_eq!(parse_shape("connection").unwrap(), EdgeShape::Connection);
    let e = parse_shape("memberOf").expect_err("a response name is not input");
    assert!(e.message.contains("memberOf"));
}

#[test]
fn blank_is_absent_on_every_optional_token() {
    assert_eq!(parse_direction(Some("  ")).unwrap(), parse_direction(None).unwrap());
    assert_eq!(parse_direction(None).unwrap(), Direction::Out);
    assert_eq!(parse_scope(Some("")).unwrap(), Scope::Thing);
    assert_eq!(parse_compare(Some(" ")).unwrap(), Compare::Equals);
    assert_eq!(parse_boot(Some("\t")).unwrap(), Boot::OnDemand);
    assert_eq!(parse_clock(Some("  ")).unwrap(), Clock::TrueOf);
    assert_eq!(parse_provenance(Some(" ")).unwrap(), Provenance::Inference);
    assert_eq!(parse_date(Some("")).unwrap(), None);
    assert_eq!(parse_day(Some("   ")).unwrap(), None);
}

#[test]
fn tokens_are_trimmed_and_strangers_refused() {
    assert_eq!(parse_direction(Some(" in ")).unwrap(), Direction::In);
    assert!(parse_direction(Some("sideways")).unwrap_err().message.contains("sideways"));
    assert_eq!(parse_scope(Some("record")).unwrap(), Scope::Record);
    assert!(parse_scope(Some("row")).is_err());
    assert_eq!(parse_compare(Some("greater")).unwrap(), Compare::Greater);
    assert!(parse_compare(Some("bigger")).is_err());
    assert_eq!(parse_clock(Some("taken_in")).unwrap(), Clock::TakenIn);
    assert!(parse_clock(Some("wall")).is_err());
    assert_eq!(parse_boot(Some("always")).unwrap(), Boot::Always);
    assert!(parse_boot(Some("sometimes")).is_err());
}

#[test]
fn a_status_that_is_retired_or_negated_is_refused_with_its_reason() {
    assert_eq!(parse_status(" active ").unwrap(), FactStatus::Active);
    assert_eq!(parse_status("archived").unwrap(), FactStatus::Archived);
    assert!(parse_status("retracted").is_err());
    assert!(parse_status("negated").is_err());
    let e = parse_status("pending").unwrap_err();
    assert_eq!(e.code, ErrorCode::InvalidParams);
    assert!(e.message.contains("pending"));
}

#[test]
fn provenance_and_standing_read_their_own_tokens_back() {
    for p in [Provenance::Testimony, Provenance::Observation, Provenance::Inference] {
        assert_eq!(parse_one_provenance(p.as_token()).unwrap(), p);
    }
    for s in [Standing::Settled, Standing::Open] {
        assert_eq!(parse_standing(s.as_token()).unwrap(), s);
    }
    for st in [FactStatus::Active, FactStatus::Archived] {
        assert_eq!(parse_status(st.as_token()).unwrap(), st);
    }
    assert!(parse_one_provenance("rumour").is_err());
    assert!(parse_standing("maybe").is_err());
}

#[test]
fn a_date_is_read_and_a_day_that_is_no_day_is_refused() {
    assert_eq!(parse_date(Some(" 2026-04-18 ")).unwrap(), Some(Day { year: 2026, month: 4, day: 18 }));
    let e = parse_date(Some("2026-02-30")).unwrap_err();
    assert!(e.message.contains("2026-02-30"));
    assert_eq!(parse_day(Some("2024-02-29")).unwrap(), Some(Day { year: 2024, month: 2, day: 29 }));
    let e = parse_day(Some("yesterday")).unwrap_err();
    assert!(e.message.contains("\"yesterday\""), "the refusal quotes what was sent: {}", e.message);
}

#[test]
fn half_an_edge_is_a_blocked_answer_and_a_whole_one_is_an_edge() {
    let half = parse_edge(Some("location"), None).unwrap().expect_err("half an edge");
    assert!(half.how_to_proceed.contains("`shape` needs an `object`"));
    let other = parse_edge(None, Some("place:kwik-e-mart")).unwrap().expect_err("half an edge");
    assert!(other.how_to_proceed.contains("`object` needs a `shape`"));
    let whole = parse_edge(Some("location"), Some("place:kwik-e-mart")).unwrap().unwrap().expect("an edge");
    assert_eq!(whole.shape, EdgeShape::Location);
    assert_eq!(whole.object, EntityId("place:kwik-e-mart".into()));
    assert!(parse_edge(None, None).unwrap().unwrap().is_none());
    let wrong_kind = parse_edge(Some("location"), Some("person:homer")).expect_err("a location points at a place");
    assert!(wrong_kind.message.starts_with("this is no edge jojobot can draw: "));
}

#[test]
fn a_kind_is_read_against_the_kinds_held() {
    assert_eq!(parse_kind(&kinds(), " place ").unwrap().0, "place");
    let e = parse_kind(&kinds(), "spaceship").unwrap_err();
    assert!(e.message.contains("spaceship"));
    assert!(e.message.contains("person, bot, place, org, event"));
    let none = Kinds { tokens: Vec::new() };
    assert!(parse_kind(&none, "person").unwrap_err().message.contains("no kinds are loaded"));
}

#[test]
fn an_entity_handle_is_built_from_its_kind_and_slug() {
    assert_eq!(entity_id(&kinds(), "place", "moes").unwrap(), EntityId("place:moes".into()));
    assert_eq!(entity_id(&kinds(), "place", "place:moes").unwrap(), EntityId("place:moes".into()));
    assert!(entity_id(&kinds(), "place", "person:moe").is_err());
}

#[test]
fn a_text_that_reads_as_no_day_is_refused_in_its_own_words() {
    let d = Day { year: 2026, month: 1, day: 2 };
    assert_eq!(date_read(&['x'], Ok(d)).unwrap(), Some(d));
    let e = date_read(&"2026-1-2".chars().collect::<Vec<_>>(), Err("invalid month".into())).unwrap_err();
    assert_eq!(e.message, "date must be YYYY-MM-DD, got '2026-1-2': invalid month");
    assert_eq!(day_read(Ok(d), "\"x\"").unwrap(), Some(d));
    let e = day_read(Err("nope".into()), "\"soon\"").unwrap_err();
    assert_eq!(
        e.message,
        "`today` is \"soon\", which is no day — send a calendar day as YYYY-MM-DD, or leave it off and the sweep answers on the clock"
    );
}

#[test]
fn a_zone_the_database_found_is_handed_on_and_one_it_did_not_is_refused() {
    let madrid = jiff::tz::TimeZone::get("Europe/Madrid").expect("a zone");
    let handed = zone_read(&['x'], Ok(madrid.clone())).expect("handed on");
    assert_eq!(handed.iana_name(), Some("Europe/Madrid"));
    let name: Vec<char> = "Nowhere/Atall".chars().collect();
    let e = zone_read(&name, Err("no such zone".into())).expect_err("refused");
    assert_eq!(e.code, ErrorCode::InvalidParams);
    assert!(e.message.starts_with("'Nowhere/Atall' is no timezone this build can resolve: no such zone."));
    assert!(e.message.ends_with("UTC."));
}
