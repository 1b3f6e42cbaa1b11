use jojobot_mcp::capture::{
    accounts_standing,
    check_in_gate, check_in_refusal, opened_the_loop, what_a_capture_left_standing, Declared, Difference,
    Outcome, WHY_A_CHECK_IN_DERIVES,
};
use jojobot_mcp::claims::{day_text, Fact, FactAddress};
use jojobot_mcp::fixtures::capture_args;
use jojobot_mcp::new_fact::{capture_opening, new_fact};
use jojobot_mcp::vocab::{Day, EdgeShape, EntityId, ErrorCode, FactStatus, Provenance, Standing};

fn fact(subject: &str, fields: Vec<(String, String)>) -> Fact {
    Fact {
        id: "1".into(),
        home: EntityId(subject.into()),
        subject: EntityId(subject.into()),
        content: "a claim".into(),
        provenance: Provenance::Inference,
        standing: Standing::Open,
        status: FactStatus::Active,
        recorded_at: Day { year: 2026, month: 4, day: 18 },
        fields,
        derived_from: None,
    }
}

#[test]
fn a_capture_settles_its_subject_provenance_day_and_edge() {
    let mut args = capture_args("homer", "at moe's");
    args.provenance = Some(" testimony ".into());
    args.recorded_at = Some("2026-04-18".into());
    args.shape = Some("location".into());
    args.object = Some("place:moes".into());
    args.derived_from = Some("person:homer#3".into());
    let o = capture_opening(&args).unwrap().unwrap();
    assert_eq!(o.subject, EntityId("person:homer".into()));
    assert_eq!(o.provenance, Provenance::Testimony);
    assert_eq!(o.recorded_at, Some(Day { year: 2026, month: 4, day: 18 }));
    let edge = o.edge.clone().expect("an edge");
    assert_eq!(edge.shape, EdgeShape::Location);
    assert_eq!(o.derived_from.as_ref().map(|a| a.to_text()), Some("person:homer#3".to_string()));
}

#[test]
fn half_an_edge_on_a_capture_is_answered_and_a_bad_source_refused() {
    let mut args = capture_args("homer", "somewhere");
    args.object = Some("place:moes".into());
    let blocked = capture_opening(&args).unwrap().expect_err("half an edge is a misuse");
    assert!(blocked.how_to_proceed.contains("`object` needs a `shape`"));
    let mut args = capture_args("homer", "from somewhere");
    args.derived_from = Some("homer".into());
    let e = capture_opening(&args).expect_err("no address");
    assert_eq!(e.code, ErrorCode::InvalidParams);
    assert!(e.message.starts_with("this is no fact address: 'homer'"), "{}", e.message);
    let mut args = capture_args("homer", "x");
    args.provenance = Some("rumour".into());
    assert!(capture_opening(&args).is_err());
}

#[test]
fn a_check_in_record_is_an_inference_carrying_the_computed_keys() {
    let mut args = capture_args("rhythm:kettle", "descaled");
    args.provenance = Some("testimony".into());
    args.check_in = Some("ran".into());
    args.fields = Some(vec![("note".into(), "lemon".into())]);
    args.refs = Some(vec![" homer ".into(), "place:moes".into()]);
    let opening = capture_opening(&args).unwrap().unwrap();
    assert_eq!(opening.provenance, Provenance::Testimony);
    let computed = vec![("counts_from".to_string(), "2026-04-18".to_string())];
    let f = new_fact(args, opening, computed).expect("well formed");
    assert_eq!(f.provenance, Provenance::Inference, "jojobot's own arithmetic is jojobot's");
    assert_eq!(f.fields, vec![("note".to_string(), "lemon".to_string()), ("counts_from".to_string(), "2026-04-18".to_string())]);
    assert_eq!(f.refs, vec![EntityId("person:homer".into()), EntityId("place:moes".into())]);
    assert_eq!(f.happened_at, None);
    assert_eq!(f.standing, None);
}

#[test]
fn a_capture_refuses_its_standing_before_its_days() {
    let mut args = capture_args("homer", "x");
    args.standing = Some("maybe".into());
    args.happened_at = Some("never".into());
    let opening = capture_opening(&args).unwrap().unwrap();
    let e = new_fact(args, opening, Vec::new()).expect_err("the standing is read first");
    assert!(e.message.contains("maybe"));
    let mut args = capture_args("homer", "x");
    args.stale_after = Some("2026-13-01".into());
    let opening = capture_opening(&args).unwrap().unwrap();
    assert!(new_fact(args, opening, Vec::new()).is_err());
}

#[test]
fn a_check_in_is_refused_off_a_rhythm_and_when_it_doubles_a_computed_key() {
    let sent = vec![("counts_from".to_string(), "2026-01-01".to_string())];
    let off = check_in_gate(&EntityId("person:homer".into()), "ran", &Vec::new()).unwrap().unwrap_err();
    assert!(off.how_to_proceed.contains("'person:homer' is not one"));
    let doubled = check_in_gate(&EntityId("rhythm:kettle".into()), "ran", &sent).unwrap().unwrap_err();
    assert!(doubled.how_to_proceed.contains("sends 'counts_from' in fields"));
    assert!(check_in_gate(&EntityId("rhythm:kettle".into()), "ran", &Vec::new()).unwrap().is_ok());
    let e = check_in_gate(&EntityId("rhythm:kettle".into()), "done", &Vec::new()).unwrap_err();
    assert_eq!(e.message, "check_in takes one of: ran, skipped, snoozed");
    assert!(matches!(
        check_in_gate(&EntityId("rhythm:kettle".into()), "snoozed", &Vec::new()),
        Ok(Ok(Outcome::Snoozed))
    ));
}

#[test]
fn a_refused_check_in_sends_the_caller_to_the_missing_key() {
    let subject = EntityId("rhythm:kettle".into());
    let short = check_in_refusal(&subject, "it has no cadence_days", false);
    assert_eq!(
        short.how_to_proceed,
        "Nothing was written: it has no cadence_days. Capture the missing key on 'rhythm:kettle', then send this check-in again."
    );
    let own = check_in_refusal(&subject, "snoozed twice", true);
    assert_eq!(own.how_to_proceed, "Nothing was written: snoozed twice.");
}

#[test]
fn a_check_in_opens_the_loop_only_where_there_was_no_basis() {
    let computed = vec![("counts_from".to_string(), "2026-04-18".to_string())];
    assert!(opened_the_loop(&Vec::new(), &computed));
    assert!(opened_the_loop(&vec![("counts_from".to_string(), "  ".to_string())], &computed));
    assert!(!opened_the_loop(&vec![("counts_from".to_string(), "2026-01-01".to_string())], &computed));
    assert!(!opened_the_loop(&Vec::new(), &Vec::new()));
}

#[test]
fn only_what_the_caller_sent_is_compared_with_the_record() {
    let mut args = capture_args("homer", "x");
    args.provenance = Some("testimony".into());
    let declared = Declared::of(&args);
    let stored = fact("person:homer", Vec::new());
    let found = declared.not_stored(&stored, Some(WHY_A_CHECK_IN_DERIVES));
    assert_eq!(found.len(), 2, "the subject was read as a handle, and the provenance was converted");
    assert_eq!(found[0].field, "subject");
    assert_eq!(found[0].sent, "homer");
    assert_eq!(found[0].stored, "person:homer");
    assert_eq!(found[1].field, "provenance");
    assert_eq!(found[1].because.as_deref(), Some(WHY_A_CHECK_IN_DERIVES));
    let same = Difference::between("handle", Some("person:homer"), "person:homer");
    assert!(same.is_none());
}

#[test]
fn a_capture_says_what_it_left_standing() {
    let stored = fact("person:homer", vec![("colour".into(), "blue".into())]);
    let s = what_a_capture_left_standing(&stored, Some(3), false, false, None);
    assert_eq!(
        s,
        "Recorded as an additional claim. 3 accounts now stand on person:homer. No record was edited and none was removed. This record carries colour, so what those keys answer for person:homer has moved to it; the records that set them are untouched and still say what they said."
    );
    let source = FactAddress::parse("person:homer#1").unwrap();
    let s = what_a_capture_left_standing(&fact("person:homer", Vec::new()), None, false, false, Some(&source));
    assert!(s.ends_with(" The claim this was derived from, person:homer#1, is archived — read it to judge whether the citation still holds."));
}

#[test]
fn a_day_is_written_with_four_digits_and_two() {
    assert_eq!(day_text(Day { year: 2026, month: 4, day: 8 }), "2026-04-08");
    assert_eq!(day_text(Day { year: 33, month: 12, day: 25 }), "0033-12-25");
}

#[test]
fn the_accounts_standing_on_a_subject_are_its_active_records() {
    let statuses = [FactStatus::Active, FactStatus::Archived, FactStatus::Active, FactStatus::Superseded];
    assert_eq!(accounts_standing(Some(&statuses)), Some(2));
    assert_eq!(accounts_standing(Some(&[])), Some(0));
    assert_eq!(accounts_standing(None), None);
}
