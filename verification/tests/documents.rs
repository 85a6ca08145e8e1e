use serde_json::Value;
use tm_notify::{parse_game_state, ActionRequirement, GameState, NotifyError};

fn text(s: &str) -> Option<String> {
    Some(String::from(s))
}

#[test]
fn empty_object_has_no_field() {
    let game = parse_game_state(b"{}").unwrap();
    assert_eq!(game, GameState { finished: None, active_faction: None, required_actions: None });
}

#[test]
fn null_fields_are_missing_fields() {
    let game = parse_game_state(
        br#"{"finished":null,"active_faction":null,"action_required":null}"#,
    )
    .unwrap();
    assert_eq!(game, GameState { finished: None, active_faction: None, required_actions: None });

    let game = parse_game_state(
        br#"{"action_required":[{"from_faction":null,"type":null,"faction":null,"player":null}]}"#,
    )
    .unwrap();
    assert_eq!(
        game.required_actions,
        Some(vec![ActionRequirement { from_faction: None, kind: None, faction: None, player: None }])
    );
}

#[test]
fn all_fields_are_read() {
    let game = parse_game_state(
        br#"{
            "finished": 0,
            "active_faction": "witches",
            "action_required": [
                {"from_faction":"cultists","type":"leech","faction":"witches","player":"Johanvr"},
                {},
                {"type":"full"}
            ]
        }"#,
    )
    .unwrap();
    assert_eq!(
        game,
        GameState {
            finished: Some(0),
            active_faction: text("witches"),
            required_actions: Some(vec![
                ActionRequirement {
                    from_faction: text("cultists"),
                    kind: text("leech"),
                    faction: text("witches"),
                    player: text("Johanvr"),
                },
                ActionRequirement { from_faction: None, kind: None, faction: None, player: None },
                ActionRequirement { from_faction: None, kind: text("full"), faction: None, player: None },
            ]),
        }
    );
}

#[test]
fn unknown_members_are_passed_over() {
    let game = parse_game_state(
        br#"{
            "ledger": [{"a": 1.5}, null, "x"],
            "round": 3,
            "active_faction": "nomads",
            "players": {"player1": {"name": "Johanvr"}},
            "action_required": [{"type":"cult","faction":"nomads","amount":2,"actual":true}]
        }"#,
    )
    .unwrap();
    assert_eq!(
        game,
        GameState {
            finished: None,
            active_faction: text("nomads"),
            required_actions: Some(vec![ActionRequirement {
                from_faction: None,
                kind: text("cult"),
                faction: text("nomads"),
                player: None,
            }]),
        }
    );
}

#[test]
fn empty_array_is_an_empty_list() {
    let game = parse_game_state(br#"{"action_required":[]}"#).unwrap();
    assert_eq!(game.required_actions, Some(vec![]));
}

#[test]
fn escapes_are_resolved() {
    let game = parse_game_state(r#"{"active_faction":"ice\u00e9 é \"maidens\"\n"}"#.as_bytes()).unwrap();
    assert_eq!(game.active_faction, text("ice\u{00e9} \u{00e9} \"maidens\"\n"));
}

#[test]
fn finished_holds_every_number_of_32_bits() {
    assert_eq!(parse_game_state(br#"{"finished":1}"#).unwrap().finished, Some(1));
    assert_eq!(parse_game_state(br#"{"finished":-7}"#).unwrap().finished, Some(-7));
    assert_eq!(parse_game_state(br#"{"finished":2147483647}"#).unwrap().finished, Some(i32::MAX));
    assert_eq!(parse_game_state(br#"{"finished":-2147483648}"#).unwrap().finished, Some(i32::MIN));
}

#[test]
fn finished_of_another_type_is_refused() {
    let refused: [&[u8]; 9] = [
        br#"{"finished":"1"}"#,
        br#"{"finished":true}"#,
        br#"{"finished":1.0}"#,
        br#"{"finished":1.5}"#,
        br#"{"finished":[1]}"#,
        br#"{"finished":{}}"#,
        br#"{"finished":2147483648}"#,
        br#"{"finished":-2147483649}"#,
        br#"{"finished":18446744073709551615}"#,
    ];
    for bytes in refused {
        assert_eq!(parse_game_state(bytes), Err(NotifyError::MalformedResponse));
    }
}

#[test]
fn text_field_of_another_type_is_refused() {
    let refused: [&[u8]; 8] = [
        br#"{"active_faction":1}"#,
        br#"{"active_faction":false}"#,
        br#"{"active_faction":["witches"]}"#,
        br#"{"active_faction":{"name":"witches"}}"#,
        br#"{"action_required":[{"type":1}]}"#,
        br#"{"action_required":[{"faction":["witches"]}]}"#,
        br#"{"action_required":[{"player":{}}]}"#,
        br#"{"action_required":[{"from_faction":true}]}"#,
    ];
    for bytes in refused {
        assert_eq!(parse_game_state(bytes), Err(NotifyError::MalformedResponse));
    }
}

#[test]
fn requirements_of_another_type_are_refused() {
    let refused: [&[u8]; 7] = [
        br#"{"action_required":"full"}"#,
        br#"{"action_required":1}"#,
        br#"{"action_required":{"type":"full"}}"#,
        br#"{"action_required":[null]}"#,
        br#"{"action_required":["full"]}"#,
        br#"{"action_required":[[]]}"#,
        br#"{"action_required":[{"type":"full"},{"type":"leech"},3]}"#,
    ];
    for bytes in refused {
        assert_eq!(parse_game_state(bytes), Err(NotifyError::MalformedResponse));
    }
}

#[test]
fn document_that_is_no_object_is_refused() {
    let refused: [&[u8]; 7] = [b"null", b"1", b"\"state\"", b"true", b"[]", b"[null,\"witches\",null]", b"[{}]"];
    for bytes in refused {
        assert_eq!(parse_game_state(bytes), Err(NotifyError::MalformedResponse));
    }
}

#[test]
fn bytes_that_are_no_json_are_refused() {
    let refused: [&[u8]; 7] = [
        b"",
        b" ",
        b"{",
        b"{} {}",
        b"{\"finished\":1,}",
        b"<html></html>",
        b"{\"active_faction\":\"\xff\"}",
    ];
    for bytes in refused {
        assert_eq!(parse_game_state(bytes), Err(NotifyError::MalformedResponse));
    }
}

#[test]
fn white_space_around_the_document_is_accepted() {
    let game = parse_game_state(b" \n\t{ \"finished\" : 1 }\r\n").unwrap();
    assert_eq!(game.finished, Some(1));
}

#[test]
fn documents_are_read_as_bytes_are() {
    let source = r#"{"finished":1,"active_faction":"cultists","action_required":[{"type":"gameover"}]}"#;
    let value: Value = serde_json::from_str(source).unwrap();
    assert_eq!(GameState::from_document(&value), parse_game_state(source.as_bytes()));
}

#[test]
fn documents_built_by_hand_are_read() {
    let value = Value::from(vec![Value::Null]);
    assert_eq!(GameState::from_document(&value), Err(NotifyError::MalformedResponse));
    assert_eq!(ActionRequirement::from_document(&value), Err(NotifyError::MalformedResponse));

    let mut members = serde_json::Map::new();
    members.insert(String::from("type"), Value::from("full"));
    members.insert(String::from("faction"), Value::from("witches"));
    members.insert(String::from("amount"), Value::from(2));
    let one = Value::Object(members);
    assert_eq!(
        ActionRequirement::from_document(&one),
        Ok(ActionRequirement { from_faction: None, kind: text("full"), faction: text("witches"), player: None })
    );

    let mut members = serde_json::Map::new();
    members.insert(String::from("active_faction"), Value::from("witches"));
    members.insert(String::from("action_required"), Value::from(vec![one]));
    members.insert(String::from("finished"), Value::from(0));
    let game = GameState::from_document(&Value::Object(members)).unwrap();
    assert_eq!(game.finished, Some(0));
    assert_eq!(game.active_faction, text("witches"));
    assert_eq!(game.required_actions.map(|actions| actions.len()), Some(1));
}

#[test]
fn later_member_of_a_name_replaces_the_earlier() {
    let game = parse_game_state(br#"{"active_faction":"witches","active_faction":"nomads"}"#).unwrap();
    assert_eq!(game.active_faction, text("nomads"));
}
