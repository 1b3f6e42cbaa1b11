use jojobot_mcp::entities::{
    box_incomplete_note, mailbox_for, mailbox_rename_collision, new_entity, rename_incomplete_note, rename_refusal,
    Mailbox,
};
use jojobot_mcp::fixtures::add_args;
use jojobot_mcp::claims::FactAddress;
use jojobot_mcp::retract::{retract_plan, what_a_retraction_left_standing, RetractArgs};
use jojobot_mcp::entities::{merge_plan, rename_plan, MergeArgs, RenameEntityArgs};
use jojobot_mcp::vocab::Day;
use jojobot_mcp::vocab::{Boot, EntityId, EntityMatch, Kinds, MatchReason};

fn kinds() -> Kinds {
    Kinds { tokens: vec!["person".into(), "bot".into(), "place".into()] }
}

#[test]
fn a_new_entity_is_a_root_built_from_its_kind_and_slug() {
    let mut args = add_args("bot", "gamma", "Gamma");
    args.boot = Some("always".into());
    let e = new_entity(&kinds(), args).expect("well formed");
    assert_eq!(e.id, EntityId("bot:gamma".into()));
    assert_eq!(e.boot, Boot::Always);
    assert!(e.parent.is_none());
    assert!(e.aliases.is_empty());
    assert_eq!(e.source, "user-named");
    assert!(new_entity(&kinds(), add_args("spaceship", "x", "X")).is_err());
    assert!(new_entity(&kinds(), add_args("person", "bot:gamma", "Gamma")).is_err());
}

#[test]
fn a_bot_opens_a_box_named_by_its_slug_and_nothing_else_does() {
    assert_eq!(mailbox_for(&EntityId("bot:gamma".into())).as_deref(), Some("gamma"));
    assert_eq!(mailbox_for(&EntityId("person:homer".into())), None);
    assert_eq!(EntityId("bot:gamma".into()).slug(), "gamma");
}

#[test]
fn an_incomplete_identity_and_an_incomplete_rename_say_so() {
    let n = box_incomplete_note("gamma", Some("the board is down"));
    assert!(n.starts_with("THIS IDENTITY IS INCOMPLETE"));
    assert!(n.ends_with(" The mailbox world said: the board is down"));
    assert!(box_incomplete_note("gamma", None).ends_with("repairing it takes a person."));
    let r = rename_incomplete_note(&EntityId("bot:delta".into()), "no such box");
    assert!(r.contains("moved to 'bot:delta'"));
    assert!(r.ends_with("The mailbox world said: no such box"));
}

#[test]
fn a_rename_onto_a_box_another_owns_is_refused_before_anything_moves() {
    let boxes = vec![
        Mailbox { name: "gamma".into(), owner: EntityId("bot:gamma".into()) },
        Mailbox { name: "delta".into(), owner: EntityId("bot:delta".into()) },
    ];
    let from = EntityId("bot:gamma".into());
    let refused = mailbox_rename_collision(&boxes, &from, &EntityId("bot:delta".into())).expect("a collision");
    assert_eq!(refused.attempted, EntityId("bot:delta".into()));
    assert!(refused.how_to_proceed.contains("The mailbox 'delta' already belongs to bot:delta"));
    assert!(mailbox_rename_collision(&boxes, &from, &EntityId("bot:epsilon".into())).is_none());
    let person = EntityId("person:homer".into());
    assert!(mailbox_rename_collision(&boxes, &person, &EntityId("person:delta".into())).is_none(), "no box, nothing to repoint");
}

#[test]
fn a_rename_refusal_reads_as_its_cause() {
    let me = EntityId("place:moes".into());
    let itself = EntityMatch {
        handle: me.clone(),
        name: "Moe's".into(),
        reason: MatchReason::SelfParent,
        source: "user-named".into(),
    };
    let b = rename_refusal(&me, vec![itself], &EntityId("place:moes-old".into()), &me, "tok".into());
    assert!(b.how_to_proceed.contains("names itself as its parent"));
    let parent = EntityId("place:springfield".into());
    let b = rename_refusal(&parent, Vec::new(), &EntityId("place:moes".into()), &me, "tok".into());
    assert!(b.how_to_proceed.contains("is the parent this call named"));
}

#[test]
fn a_retraction_names_what_was_built_on_it_by_count() {
    let at = FactAddress::parse("person:homer#4").unwrap();
    let none: Vec<u8> = Vec::new();
    let s = what_a_retraction_left_standing(&at, &none);
    assert!(s.starts_with("person:homer#4 is marked as taken back."));
    assert!(!s.contains("claims were worked out"));
    let s = what_a_retraction_left_standing(&at, &[1u8, 2]);
    assert!(s.ends_with(" 2 claims were worked out from it and are unchanged; deciding what they are worth now is yours."));
}

#[test]
fn a_rename_and_a_merge_read_their_handles_and_day() {
    let r = rename_plan(&RenameEntityArgs {
        handle: "homer".into(),
        to: " person:homer-j ".into(),
        parent: Some("place:springfield".into()),
        recorded_at: Some("2026-03-01".into()),
        override_token: None,
        sid: None,
    })
    .unwrap();
    assert_eq!(r.from, EntityId("person:homer".into()));
    assert_eq!(r.to, EntityId("person:homer-j".into()));
    assert_eq!(r.parent, Some(EntityId("place:springfield".into())));
    assert_eq!(r.recorded_at, Some(Day { year: 2026, month: 3, day: 1 }));
    let m = merge_plan(&MergeArgs {
        duplicate: " person:bart ".into(),
        survivor: "person:el-barto".into(),
        reason: None,
        recorded_at: Some("".into()),
        sid: None,
    })
    .unwrap();
    assert_eq!(m.duplicate, EntityId("person:bart".into()));
    assert_eq!(m.recorded_at, None, "blank is the caller's day");
    assert!(merge_plan(&MergeArgs {
        duplicate: "a".into(),
        survivor: "b".into(),
        reason: None,
        recorded_at: Some("someday".into()),
        sid: None
    })
    .is_err());
}

#[test]
fn a_retraction_names_its_record_and_refuses_an_address_that_is_none() {
    let (at, day) = retract_plan(&RetractArgs {
        address: "person:homer#2".into(),
        reason: None,
        recorded_at: None,
        sid: None,
    })
    .unwrap();
    assert_eq!(at.to_text(), "person:homer#2");
    assert_eq!(day, None);
    let e = retract_plan(&RetractArgs { address: "homer".into(), reason: None, recorded_at: None, sid: None }).unwrap_err();
    assert!(e.message.starts_with("this is no fact address: "));
}
