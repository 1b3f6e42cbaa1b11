use jojobot_mcp::claims::FactAddress;
use jojobot_mcp::declined::{memory_declined, memory_error, MemoryError};
use jojobot_mcp::entities::mailbox_for;
use jojobot_mcp::fixtures::{add_args, capture_args, recall_args, search_args, update_args, TEST_SID};
use jojobot_mcp::parse::{bot_id, parse_edge, parse_one_provenance, parse_shape, parse_standing};
use jojobot_mcp::search::parse_search_status;
use jojobot_mcp::vocab::{EdgeShape, EntityId, ErrorCode, FactStatus, Provenance, Standing};

#[test]
fn an_address_reads_back_as_the_address_that_wrote_it() {
    let a = FactAddress::parse("place:moes#17").expect("an address");
    assert_eq!(a.home, EntityId("place:moes".into()));
    assert_eq!(a.local, "17");
    let again = FactAddress::parse(&a.to_text()).unwrap();
    assert_eq!(again.to_text(), "place:moes#17");
    assert!(FactAddress::parse("place:moes#").is_err());
    assert!(FactAddress::parse("moes#17").is_err());
}

#[test]
fn a_handle_read_twice_is_the_same_handle() {
    let once = EntityId::person("homer");
    assert_eq!(once, EntityId("person:homer".into()));
    assert_eq!(EntityId::person(&once.0), once);
}

#[test]
fn every_token_reads_back_as_its_value() {
    for shape in [EdgeShape::Location, EdgeShape::Membership, EdgeShape::Attendance, EdgeShape::About, EdgeShape::Connection] {
        assert_eq!(parse_shape(shape.as_token()).unwrap(), shape);
    }
    for p in [Provenance::Testimony, Provenance::Observation, Provenance::Inference] {
        assert_eq!(parse_one_provenance(p.as_token()).unwrap(), p);
    }
    assert_eq!(parse_standing(Standing::Open.as_token()).unwrap(), Standing::Open);
    for st in [FactStatus::Active, FactStatus::Archived, FactStatus::Superseded] {
        assert_eq!(parse_search_status(st.as_token()).unwrap(), st, "a search names every status");
    }
}

#[test]
fn a_refusal_is_an_answer_and_a_failure_is_an_error() {
    let answered = memory_declined("capture", MemoryError::UnconfirmedPromotion).expect("an answer");
    assert!(!answered.how_to_proceed.is_empty());
    let failed = memory_declined(
        "capture",
        MemoryError::SuppliedRecordCollidesWithStoredRow { handle: "view:loops".into() },
    )
    .expect_err("a failure");
    assert_eq!(failed.code, ErrorCode::InternalError);
    assert_eq!(memory_error(MemoryError::RepeatsShipped).code, ErrorCode::InvalidParams);
}

#[test]
fn a_bot_name_always_names_a_bot_and_its_box_is_its_slug() {
    let id = bot_id(" bot:gamma ").unwrap();
    assert_eq!(id.kind().map(|k| k.0), Some("bot".to_string()));
    assert_eq!(mailbox_for(&id).as_deref(), Some("gamma"));
}

#[test]
fn blank_edge_halves_are_no_edge_at_all() {
    assert!(parse_edge(Some("  "), Some("")).unwrap().unwrap().is_none());
}

#[test]
fn the_prepared_arguments_carry_only_what_identifies_the_call() {
    let c = capture_args("homer", "a claim");
    assert_eq!(c.subject, "homer");
    assert_eq!(c.sid.as_deref(), Some(TEST_SID));
    assert!(c.fields.is_none() && c.check_in.is_none());
    let r = recall_args("person:homer");
    assert_eq!(r.subject.as_deref(), Some("person:homer"));
    assert_eq!(r.facts, Some(true));
    assert!(r.sid.is_none());
    let u = update_args("person:homer#1");
    assert_eq!(u.address, "person:homer#1");
    assert_eq!(u.sid.as_deref(), Some(TEST_SID));
    let a = add_args("person", "homer", "Homer");
    assert_eq!((a.kind.as_str(), a.handle.as_str(), a.name.as_str()), ("person", "homer", "Homer"));
    let s = search_args();
    assert!(s.query.is_none() && s.limit.is_none() && s.include_mail.is_none());
}
