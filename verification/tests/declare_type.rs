use jojobot_mcp::declare_type::{declared_fields, trimmed_sets, FieldArgs};
use jojobot_mcp::types::{DeclaredType, Fold, ValueType};
use jojobot_mcp::vocab::{ErrorCode, Kinds};

fn kinds() -> Kinds {
    Kinds { tokens: vec!["person".into(), "place".into()] }
}

fn field(key: &str, holds: Option<&str>, folds: Option<&str>) -> FieldArgs {
    FieldArgs { key: key.into(), holds: holds.map(String::from), folds: folds.map(String::from), required: false, one_of: None }
}

#[test]
fn a_counter_holds_a_number_and_any_other_key_text() {
    let (fields, sent) = declared_fields(&vec![field("donuts", None, Some("sum")), field("colour", Some("  "), None)], &kinds())
        .expect("well formed");
    assert_eq!(fields[0].holds, ValueType::Number);
    assert_eq!(fields[0].folds, Fold::Sum);
    assert_eq!(fields[1].holds, ValueType::Text);
    assert_eq!(fields[1].folds, Fold::Newest);
    assert!(sent.is_empty());
}

#[test]
fn a_list_and_a_narrowed_reference_are_read_off_the_token() {
    let (fields, _) = declared_fields(
        &vec![field("guests", Some("list:reference:person"), None), field("span", Some("date_range"), None)],
        &kinds(),
    )
    .unwrap();
    assert_eq!(fields[0].holds, ValueType::Reference);
    assert!(fields[0].list);
    assert_eq!(fields[0].points_at.as_deref(), Some("person"));
    assert_eq!(fields[1].holds, ValueType::DateRange);
    assert!(!fields[1].list);
}

#[test]
fn a_reference_to_a_kind_not_held_gets_the_kinds_own_answer() {
    let e = declared_fields(&vec![field("pet", Some("list:reference:spaceship"), None)], &kinds()).unwrap_err();
    assert_eq!(e.code, ErrorCode::InvalidParams);
    assert!(e.message.starts_with("'list:reference:spaceship': "), "{}", e.message);
    assert!(e.message.contains("person, place"));
    let e = declared_fields(&vec![field("pet", Some("animal"), None)], &kinds()).unwrap_err();
    assert!(e.message.starts_with("'animal' is no value type"));
    let e = declared_fields(&vec![field("pet", None, Some("average"))], &kinds()).unwrap_err();
    assert_eq!(e.message, "'average' is no fold: use newest or sum");
}

/// A trimmed set value is reported, named by the key it belongs to; a set
/// that needed no trimming carries no receipt.
#[test]
fn a_trimmed_set_is_reported_per_key_and_a_clean_one_is_not() {
    let mut paid = field("paid_by", None, None);
    paid.one_of = Some(vec![" cash ".into(), "card".into()]);
    let mut state = field("state", None, None);
    state.one_of = Some(vec!["open".into(), "done".into()]);
    let (fields, sent) = declared_fields(&vec![paid, state], &kinds()).unwrap();
    assert_eq!(fields[0].one_of.as_ref().unwrap(), &vec!["cash".to_string(), "card".to_string()]);
    assert_eq!(sent[0], ("paid_by".to_string(), " cash , card".to_string()));
    let declared = DeclaredType::new("payment", fields);
    let receipt = trimmed_sets(&declared, &sent);
    assert_eq!(receipt.len(), 1);
    assert_eq!(receipt[0].field, "one_of on 'paid_by'");
    assert_eq!(receipt[0].sent, " cash , card");
    assert_eq!(receipt[0].stored, "cash, card");
    assert_eq!(receipt[0].because, None);
}
