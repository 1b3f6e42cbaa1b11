use jojobot_mcp::answers::{
    hit_keys, hit_kind, link_keys, object_keys, HitShape, LinkShape, ObjectShape, ViaShape,
    backing_left_out, charter_shown, held_note, older_writes_note, records_left_out, retracted_link_note,
    unwalked_note, values_shown, values_window, widen_for, CharterShown, Liveness, Widen,
};
use jojobot_mcp::due::{overlay, projected_fields, write_touches};

#[test]
fn a_values_list_says_how_many_exist_and_how_many_it_left_out() {
    let w = values_window(25, 20);
    assert_eq!((w.shown, w.left_out), (20, 5));
    assert_eq!(w.note, Some("the most used are here and the rest are not: raise values_most to reach them"));
    let all = values_window(3, 20);
    assert_eq!((all.shown, all.left_out, all.note), (3, 0, None));
    let none = values_window(0, 20);
    assert!(none.note.unwrap().starts_with("nothing here holds that key yet"));
}

#[test]
fn a_values_answer_trims_its_key_and_keeps_the_most_used_in_order() {
    let in_use = vec![
        ("espresso".to_string(), 9),
        ("filter".to_string(), 4),
        ("tea".to_string(), 1),
    ];
    let v = values_shown("  drink \n", &in_use, 2);
    assert_eq!(v.key, "drink");
    assert_eq!(v.distinct, 3);
    assert_eq!(v.left_out, 1);
    assert_eq!(v.in_use, vec![("espresso".to_string(), 9), ("filter".to_string(), 4)]);
    assert_eq!(v.note, Some("the most used are here and the rest are not: raise values_most to reach them"));
    let all = values_shown("drink", &in_use, 20);
    assert_eq!((all.in_use.len(), all.left_out, all.note), (3, 0, None));
    let none = values_shown("drink", &[], 20);
    assert!(none.in_use.is_empty());
    assert!(none.note.unwrap().starts_with("nothing here holds that key yet"));
}

#[test]
fn a_cut_history_and_left_out_records_say_so_with_their_count() {
    assert_eq!(
        older_writes_note(7).as_deref(),
        Some("7 older writes are not here — ask again with a bigger history_most to reach them")
    );
    assert_eq!(older_writes_note(0), None);
    assert_eq!(
        records_left_out(false, 12).as_deref(),
        Some("12 records are behind these fields and are not here — ask again with facts: true to read them, each with the address that edits it")
    );
    assert_eq!(records_left_out(true, 12), None);
    assert_eq!(records_left_out(false, 0), None);
}

#[test]
fn an_unfollowed_edge_a_retracted_link_and_bare_values_are_marked() {
    assert!(unwalked_note(true).unwrap().contains("did not follow"));
    assert_eq!(unwalked_note(false), None);
    assert!(retracted_link_note(true).unwrap().contains("taken back"));
    assert_eq!(retracted_link_note(false), None);
    assert!(backing_left_out(false, true).unwrap().contains("backing: true"));
    assert_eq!(backing_left_out(true, true), None);
    assert_eq!(backing_left_out(false, false), None);
}

#[test]
fn a_charter_ships_the_page_trimmed_and_takes_the_page_back_out() {
    assert_eq!(charter_shown(false, true, false, Some("x")), CharterShown::Untouched);
    assert_eq!(charter_shown(true, false, true, Some("x")), CharterShown::Untouched);
    assert_eq!(
        charter_shown(true, true, false, Some("  I answer for the kiln.  ")),
        CharterShown::Shipped { charter: Some("I answer for the kiln.".into()), keep_prose: false }
    );
    assert_eq!(charter_shown(true, true, true, Some("   ")), CharterShown::Shipped { charter: None, keep_prose: true });
}

#[test]
fn the_two_silences_of_a_held_block_are_told_apart() {
    assert!(held_note(&Vec::new(), widen_for(true), 0).unwrap().contains("this call walks links of its own"));
    assert_eq!(widen_for(false), Widen::WhenEmpty);
    assert!(held_note(&Vec::new(), Widen::WhenEmpty, 0).unwrap().starts_with("nothing points at this"));
    assert!(held_note(&vec![Liveness::Related, Liveness::Related], Widen::WhenEmpty, 0).unwrap().contains("some other declared key"));
    assert!(held_note(&vec![Liveness::Live, Liveness::Related], Widen::WhenEmpty, 2).unwrap().contains("budget"));
    assert_eq!(held_note(&vec![Liveness::Lapsed], Widen::WhenEmpty, 0), None);
    assert_eq!(Liveness::Related.as_token(), "related");
}

#[test]
fn a_write_that_touches_no_carrier_key_moves_nothing() {
    let keys = vec!["cadence_days".to_string(), "counts_from".to_string()];
    assert!(!write_touches(&keys, &vec![("colour".into(), "blue".into())], &Vec::new()));
    assert!(write_touches(&keys, &vec![("counts_from".into(), "2026-01-01".into())], &Vec::new()));
    assert!(write_touches(&keys, &Vec::new(), &vec!["cadence_days".into()]));
}

#[test]
fn a_projection_takes_clears_off_and_writes_the_new_values_in() {
    let held = vec![
        ("cadence_days".to_string(), "7".to_string()),
        ("counts_from".to_string(), "2026-01-01".to_string()),
        ("colour".to_string(), "blue".to_string()),
    ];
    let p = projected_fields(&held, &vec!["colour".into()], &vec![("counts_from".into(), "2026-02-01".into())]);
    let get = |k: &str| p.iter().rev().find(|(key, _)| key == k).map(|(_, v)| v.clone());
    assert_eq!(get("cadence_days").as_deref(), Some("7"));
    assert_eq!(get("counts_from").as_deref(), Some("2026-02-01"), "the write wins");
    assert_eq!(get("colour"), None, "a cleared key is gone");
}

#[test]
fn a_record_written_over_another_keeps_each_key_once() {
    let base = vec![("a".to_string(), "1".to_string()), ("b".to_string(), "2".to_string())];
    let over = vec![("b".to_string(), "3".to_string()), ("c".to_string(), "4".to_string())];
    let out = overlay(&base, &over);
    assert_eq!(
        out,
        vec![("a".to_string(), "1".to_string()), ("b".to_string(), "3".to_string()), ("c".to_string(), "4".to_string())]
    );
}

#[test]
fn a_recalled_objects_layout_is_silent_about_nothing_it_left_out() {
    let plain = ObjectShape { facts_held: 3, has_prose: false, has_answers: false, has_history: false, via: None, unwalked: false };
    assert_eq!(object_keys(&plain, false), vec!["fields", "records", "connected"]);
    assert_eq!(object_keys(&plain, true), vec!["fields", "facts", "connected"]);
    let none_held = ObjectShape { facts_held: 0, ..plain };
    assert_eq!(object_keys(&none_held, false), vec!["fields", "connected"]);
    let walked = ObjectShape {
        facts_held: 0,
        has_prose: true,
        has_answers: true,
        has_history: true,
        via: Some(ViaShape { link: LinkShape::Relation, retracted: true }),
        unwalked: true,
    };
    assert_eq!(
        object_keys(&walked, false),
        vec!["fields", "prose", "answers", "history", "via", "connected", "unwalked"]
    );
    assert_eq!(link_keys(&ViaShape { link: LinkShape::Edge, retracted: false }), vec!["type", "direction"]);
    assert_eq!(link_keys(&ViaShape { link: LinkShape::Relation, retracted: true }), vec!["relation", "direction", "retracted"]);
}

#[test]
fn every_hit_says_what_it_is_and_a_message_hit_carries_no_body() {
    let message = hit_keys(&HitShape::Message);
    assert_eq!(message, vec!["hit", "id", "mailbox", "state", "sender", "subject", "sent_at", "notes", "snippet"]);
    assert!(!message.contains(&"body"));
    assert_eq!(hit_keys(&HitShape::Entity { answers: false }), vec!["hit", "edges"]);
    assert_eq!(hit_keys(&HitShape::Entity { answers: true }), vec!["hit", "edges", "answers_type"]);
    assert_eq!(hit_keys(&HitShape::Fact { source: true }), vec!["hit", "about", "home", "source_standing"]);
    assert_eq!(hit_keys(&HitShape::Session), vec!["hit", "session", "bot", "working_on", "snippet"]);
    assert_eq!(hit_keys(&HitShape::Prose), vec!["hit", "title", "entity", "edges", "snippet"]);
    assert_eq!(hit_kind(HitShape::Fact { source: false }), "fact");
    assert_eq!(hit_kind(HitShape::Message), "message");
}
