use guild_bot::utility::custom_id::CustomId;
use guild_bot::utility::Category;
use guild_bot::utility::Error;
use guild_bot::utility::Value;

#[test]
fn decode_derives_the_base() {
    let id = CustomId::try_from("apply_accept;123").unwrap();
    assert_eq!(id.base, "apply");
    assert_eq!(id.name, "apply_accept");
    assert_eq!(id.args, vec!["123".to_string()]);
}

#[test]
fn decode_without_arguments() {
    let id = CustomId::try_from("apply_modal").unwrap();
    assert_eq!(id.base, "apply");
    assert_eq!(id.name, "apply_modal");
    assert!(id.args.is_empty());
}

#[test]
fn decode_keeps_the_order_of_arguments_and_empty_ones() {
    let id = CustomId::try_from("poll_next;7;;9;").unwrap();
    assert_eq!(id.base, "poll");
    assert_eq!(id.args, vec!["7", "", "9", ""]);
}

#[test]
fn decode_of_a_name_without_underscore_takes_it_whole_as_base() {
    let id = CustomId::try_from("ping;1").unwrap();
    assert_eq!(id.base, "ping");
    assert_eq!(id.name, "ping");
}

#[test]
fn decode_refuses_an_empty_base() {
    for text in ["", ";", ";123", "_", "_accept;1", "_;"] {
        match CustomId::try_from(text) {
            Err(Error::InvalidId(Value::CustomId, got)) => assert_eq!(got, text),
            other => panic!("{text:?} gave {other:?}"),
        }
    }
}

#[test]
fn invalid_identifier_is_a_field_error_with_its_text() {
    let error = CustomId::try_from(";1").unwrap_err();
    assert_eq!(error.category(), Category::Field);
    assert_eq!(error.to_string(), "Invalid identifier: CustomId<;1>");
}

#[test]
fn encode_joins_name_and_arguments() {
    assert_eq!(CustomId::new("apply_modal").to_string(), "apply_modal");
    assert_eq!(CustomId::new("apply_accept").arg("123").to_string(), "apply_accept;123");
    assert_eq!(
        CustomId::new("poll_next").arg_number(5).arg_number(6).arg("1").to_string(),
        "poll_next;5;6;1"
    );
    assert_eq!(CustomId::new("a_b").arg("").to_string(), "a_b;");
}

#[test]
fn round_trip_of_valid_identifiers() {
    let names = ["apply_accept", "poll", "role_toggle", "a_b_c", "x_"];
    let lists: [&[&str]; 5] = [&[], &["1"], &["", ""], &["17", "_", "a b"], &["0", "18446744073709551615"]];
    for name in names {
        for list in lists {
            let mut id = CustomId::new(name);
            for arg in list {
                id = id.arg(arg);
            }
            let back = CustomId::try_from(id.to_string().as_str()).unwrap();
            assert_eq!(back.name, name);
            assert_eq!(back.base, name.split('_').next().unwrap());
            assert_eq!(back.args, list.to_vec());
        }
    }
}

#[test]
fn new_derives_the_base_like_decode() {
    assert_eq!(CustomId::new("poll_results").base, "poll");
    assert_eq!(CustomId::new("poll").base, "poll");
    assert_eq!(CustomId::new("_x").base, "");
    assert_eq!(CustomId::new("").base, "");
}

#[test]
fn numeric_arguments_are_read_or_reported() {
    let id = CustomId::try_from("poll_choice;42;+7;x;99999999999999999999").unwrap();
    assert_eq!(id.arg_u64(0, Value::User).unwrap(), 42);
    assert_eq!(id.arg_usize(1, Value::Data).unwrap(), 7);
    assert!(matches!(id.arg_u64(2, Value::User), Err(Error::InvalidId(Value::User, t)) if t == "x"));
    assert!(matches!(
        id.arg_u64(3, Value::Message),
        Err(Error::InvalidId(Value::Message, t)) if t == "99999999999999999999"
    ));
    assert!(matches!(id.arg_u64(4, Value::User), Err(Error::MissingId(Value::User))));
    assert!(matches!(id.arg_usize(4, Value::Data), Err(Error::MissingId(Value::Data))));
}
