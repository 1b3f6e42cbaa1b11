use jojobot_mcp::declined::{memory_declined, memory_error, store_failed, MemoryError};
use jojobot_mcp::vocab::{EntityId, EntityMatch, ErrorCode, MatchReason};

/// A store failure's own account must not reach the caller.
#[test]
fn a_store_failure_does_not_carry_the_adapters_own_words() {
    let leaky = "the page for gamma has no table, and the row vanished from the document";
    let err = memory_error(MemoryError::Store(leaky.into()));
    assert!(
        !err.message.contains(leaky),
        "the adapter's own words crossed: {}",
        err.message
    );
    assert!(
        err.message.contains("Try once more"),
        "a caller needs its next move: {}",
        err.message
    );
}

#[test]
fn two_store_failures_read_the_same_whatever_the_store_said() {
    let a = memory_error(MemoryError::Store("disk full".into()));
    let b = memory_error(MemoryError::Store("a row went missing".into()));
    assert_eq!(a.message, b.message);
    assert_eq!(a.code, ErrorCode::InternalError);
    assert_eq!(a.message, store_failed("this call"));
}

#[test]
fn a_store_failure_is_an_error_and_not_an_answer() {
    let r = memory_declined("capture", MemoryError::Store("the table is gone".into()));
    let e = r.expect_err("a failure stays an error");
    assert_eq!(e.code, ErrorCode::InternalError);
    assert!(!e.message.contains("the table is gone"));
}

#[test]
fn an_unknown_entity_is_a_blocked_answer_with_a_way_forward() {
    let r = memory_declined(
        "capture",
        MemoryError::UnknownEntity { attempted: "person:nobody".into(), nearest: Vec::new() },
    );
    let b = r.expect("a miss is an answer");
    assert_eq!(b.attempted, EntityId("person:nobody".into()));
    assert!(b.candidates.is_empty());
    assert!(!b.how_to_proceed.is_empty());
    assert!(b.how_to_proceed.contains("person:nobody"));
}

#[test]
fn an_invalid_query_is_a_blocked_answer_naming_the_verb() {
    let r = memory_declined("recall", MemoryError::InvalidQuery("follow one thing".into()));
    let b = r.expect("a caller mistake is an answer");
    assert!(b.how_to_proceed.contains("follow one thing"));
    assert!(b.how_to_proceed.contains("recall"));
}

#[test]
fn an_invalid_edge_maps_to_invalid_params() {
    let e = memory_error(MemoryError::InvalidEdge("object 'x' is no handle".into()));
    assert_eq!(e.code, ErrorCode::InvalidParams);
    assert_eq!(e.message, "this is no edge jojobot can draw: object 'x' is no handle");
}

#[test]
fn an_unknown_fact_names_the_live_addresses() {
    let r = memory_declined(
        "update_fact",
        MemoryError::UnknownFact {
            attempted: "person:homer#9".into(),
            nearest: vec!["person:homer#1".into(), "person:homer#2".into()],
        },
    );
    let b = r.expect("a miss is an answer");
    assert!(b.how_to_proceed.contains("person:homer#1, person:homer#2"));
}

#[test]
fn a_described_error_says_what_it_is() {
    let e = MemoryError::AlreadyMerged { attempted: "person:bart".into(), into: "person:el-barto".into() };
    assert_eq!(e.describe(), "'person:bart' was already merged into 'person:el-barto'");
}

#[test]
fn every_refusal_of_the_store_is_answered_and_every_failure_is_an_error() {
    let near = EntityMatch {
        handle: EntityId("person:homer".into()),
        name: "Homer".into(),
        reason: MatchReason::SimilarHandle,
        source: "user-named".into(),
    };
    let answered = vec![
        MemoryError::UnknownEntity { attempted: "person:homr".into(), nearest: vec![near] },
        MemoryError::UnknownFact { attempted: "person:homer#9".into(), nearest: Vec::new() },
        MemoryError::AlreadyRetracted { attempted: "person:homer#1".into() },
        MemoryError::UnsourcedObservation,
        MemoryError::NotRetractable { attempted: "person:homer#1".into(), why: "it is a retraction".into() },
        MemoryError::KindsNeverLoaded { attempted: "person".into() },
        MemoryError::InvalidFact("empty content".into()),
        MemoryError::InvalidSubject("no subject".into()),
        MemoryError::InvalidAddress("no hash".into()),
        MemoryError::InvalidEntity("empty name".into()),
        MemoryError::InvalidEdge("no object".into()),
        MemoryError::InvalidQuery("narrows nothing".into()),
        MemoryError::InvalidType("no keys".into()),
        MemoryError::NotYours { attempted: "bot:delta#2".into() },
        MemoryError::RepeatsShipped,
        MemoryError::ShippedType { name: "loop".into() },
        MemoryError::BreaksFit { name: "pet".into(), keys: vec!["species".into(), "name".into()] },
        MemoryError::BreaksType { name: "pet".into(), key: "born".into(), wanted: "a date".into() },
        MemoryError::UnconfirmedPromotion,
        MemoryError::UnconfirmedSettling,
        MemoryError::NothingToRename { attempted: "person:homer".into() },
        MemoryError::HandleMoved { attempted: "person:homer".into(), now: "person:homer-j".into() },
        MemoryError::SuppliedHandle { attempted: "view:loops".into() },
        MemoryError::NothingToMerge { attempted: "person:bart".into() },
        MemoryError::AlreadyMerged { attempted: "person:bart".into(), into: "person:el-barto".into() },
    ];
    for e in answered {
        let said = e.describe();
        let b = memory_declined("update_fact", e).unwrap_or_else(|m| panic!("{said} came back as an error: {}", m.message));
        assert!(!b.how_to_proceed.is_empty(), "{said} left no way forward");
    }
    let failures = vec![
        MemoryError::Store("down".into()),
        MemoryError::SuppliedRecordCollidesWithStoredRow { handle: "view:loops".into() },
    ];
    for e in failures {
        let m = memory_declined("update_fact", e).expect_err("a failure is an error");
        assert_eq!(m.code, ErrorCode::InternalError);
    }
}
