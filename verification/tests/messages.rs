use serde_json::Value;
use tm_notify::{
    notification_message, ActionRequirement, GameState, NotifyError,
};

fn state(text: &str) -> GameState {
    let example: Value = serde_json::from_str(text).unwrap();
    GameState::from_document(&example).unwrap()
}

fn requirement(kind: Option<&str>, faction: Option<&str>, player: Option<&str>) -> ActionRequirement {
    ActionRequirement {
        from_faction: None,
        kind: kind.map(String::from),
        faction: faction.map(String::from),
        player: player.map(String::from),
    }
}

fn open_game(active_faction: Option<&str>, actions: Vec<ActionRequirement>) -> GameState {
    GameState {
        finished: None,
        active_faction: active_faction.map(String::from),
        required_actions: Some(actions),
    }
}

#[test]
fn notify_faction_selection() {
    let game = state(
        r#"{
            "active_faction": null,
            "action_required":[
                {"player_index":"player2","player":"Johanvr","type":"faction"}
            ]
        }"#,
    );
    let message = notification_message(&game).unwrap();
    assert_eq!("Johanvr should pick a faction", message.as_ref().unwrap());
}

#[test]
fn notify_full_turn() {
    let game = state(
        r#"{
            "active_faction": "witches",
            "action_required":[
                {"from_faction":"cultists","actual":2,"leech_id":82,"amount":2,"type":"leech","faction":"witches"},
                {"type":"full","faction":"witches"}
            ]
        }"#,
    );
    let message = notification_message(&game).unwrap();
    assert_eq!("witches should take their turn", message.as_ref().unwrap());
}

#[test]
fn notify_finished() {
    let game = state(
        r#"{
            "finished": 1,
            "active_faction": "cultists",
            "action_required": [
                {
                    "type": "gameover"
                }
            ]
        }"#,
    );
    let message = notification_message(&game).unwrap();
    assert_eq!("gameover", message.as_ref().unwrap());
}

#[test]
fn finished_game_is_over_whatever_else_it_holds() {
    let bare = GameState { finished: Some(1), active_faction: None, required_actions: None };
    assert_eq!(notification_message(&bare), Ok(Some(String::from("gameover"))));

    let contradictory = GameState {
        finished: Some(1),
        active_faction: None,
        required_actions: Some(vec![requirement(Some("full"), Some("witches"), None)]),
    };
    assert_eq!(notification_message(&contradictory), Ok(Some(String::from("gameover"))));
}

#[test]
fn only_one_marks_a_finished_game() {
    for finished in [0, 2, -1] {
        let game = GameState {
            finished: Some(finished),
            active_faction: None,
            required_actions: Some(vec![requirement(Some("dwelling"), Some("mermaids"), None)]),
        };
        assert_eq!(
            notification_message(&game),
            Ok(Some(String::from("mermaids should place a dwelling")))
        );
    }
}

#[test]
fn missing_requirements_give_no_message() {
    let game = GameState {
        finished: None,
        active_faction: Some(String::from("witches")),
        required_actions: None,
    };
    assert_eq!(notification_message(&game), Ok(None));
}

#[test]
fn empty_requirements_give_no_message() {
    let game = open_game(Some("witches"), vec![]);
    assert_eq!(notification_message(&game), Ok(None));
    assert_eq!(tm_notify::notify_lingering(&[]), "");
}

#[test]
fn full_turn_suppresses_lingering_actions() {
    let game = open_game(
        Some("witches"),
        vec![
            requirement(Some("leech"), Some("witches"), None),
            requirement(Some("full"), Some("witches"), None),
        ],
    );
    assert_eq!(
        notification_message(&game),
        Ok(Some(String::from("witches should take their turn")))
    );
}

#[test]
fn full_turn_names_the_active_faction() {
    let game = open_game(
        Some("cultists"),
        vec![requirement(Some("full"), Some("witches"), None)],
    );
    assert_eq!(
        tm_notify::notify_full_turn(&game),
        Ok(String::from("cultists should take their turn"))
    );
}

#[test]
fn full_turn_without_active_faction_is_contradictory() {
    let game = open_game(None, vec![requirement(Some("full"), Some("witches"), None)]);
    assert_eq!(notification_message(&game), Err(NotifyError::ConsistencyError));
    assert_eq!(tm_notify::notify_full_turn(&game), Err(NotifyError::ConsistencyError));
}

#[test]
fn player_picks_a_faction() {
    let game = open_game(None, vec![requirement(Some("faction"), None, Some("Johanvr"))]);
    assert_eq!(
        notification_message(&game),
        Ok(Some(String::from("Johanvr should pick a faction")))
    );
}

#[test]
fn faction_places_a_dwelling() {
    let game = open_game(None, vec![requirement(Some("dwelling"), Some("mermaids"), None)]);
    assert_eq!(
        notification_message(&game),
        Ok(Some(String::from("mermaids should place a dwelling")))
    );
}

#[test]
fn each_kind_has_its_phrase() {
    let actions = [
        requirement(Some("dwelling"), Some("a"), None),
        requirement(Some("cult"), Some("b"), None),
        requirement(Some("bonus"), Some("c"), None),
        requirement(Some("leech"), Some("d"), None),
        requirement(Some("transform"), Some("e"), None),
        requirement(Some("faction"), None, Some("f")),
        requirement(Some("leech"), None, Some("g")),
    ];
    assert_eq!(
        tm_notify::notify_lingering(&actions),
        "a should place a dwelling\n\
         b may advance on a cult track\n\
         c should pick a bonus tile\n\
         d may leech\n\
         e may transform\n\
         f should pick a faction\n\
         g may leech"
    );
}

#[test]
fn faction_and_player_of_one_requirement_each_get_a_line() {
    let actions = [requirement(Some("faction"), Some("witches"), Some("Johanvr"))];
    assert_eq!(
        tm_notify::notify_lingering(&actions),
        "witches may faction\nJohanvr should pick a faction"
    );
}

#[test]
fn requirements_without_a_line_are_skipped() {
    let actions = [
        requirement(None, Some("witches"), None),
        requirement(Some("cult"), Some("nomads"), None),
        requirement(Some("cult"), None, None),
        requirement(None, None, Some("Johanvr")),
        requirement(None, None, None),
        requirement(Some("bonus"), Some("giants"), None),
    ];
    assert_eq!(
        tm_notify::notify_lingering(&actions),
        "nomads may advance on a cult track\ngiants should pick a bonus tile"
    );
}

#[test]
fn requirements_without_any_line_give_no_message() {
    let game = open_game(
        Some("witches"),
        vec![requirement(Some("gameover"), None, None), requirement(None, Some("witches"), None)],
    );
    assert_eq!(tm_notify::notify_lingering(game.required_actions.as_ref().unwrap()), "");
    assert_eq!(notification_message(&game), Ok(None));
}

#[test]
fn kinds_are_compared_as_a_whole_and_by_case() {
    let game = open_game(
        None,
        vec![
            requirement(Some("Full"), Some("witches"), None),
            requirement(Some("fully"), Some("nomads"), None),
            requirement(Some(""), Some("giants"), None),
        ],
    );
    assert_eq!(
        notification_message(&game),
        Ok(Some(String::from("witches may Full\nnomads may fully\ngiants may ")))
    );
}

#[test]
fn names_beyond_ascii_are_kept() {
    let game = open_game(
        Some("Schwarmlinge-\u{00e4}"),
        vec![requirement(Some("full"), None, None)],
    );
    assert_eq!(
        notification_message(&game),
        Ok(Some(String::from("Schwarmlinge-\u{00e4} should take their turn")))
    );
    let actions = [requirement(Some("b\u{00f6}nus"), Some("\u{00fc}ber"), None)];
    assert_eq!(tm_notify::notify_lingering(&actions), "\u{00fc}ber may b\u{00f6}nus");
}

#[test]
fn from_faction_changes_no_message() {
    let mut with = requirement(Some("leech"), Some("witches"), None);
    with.from_faction = Some(String::from("cultists"));
    let without = requirement(Some("leech"), Some("witches"), None);
    assert_eq!(
        tm_notify::notify_lingering(&[with]),
        tm_notify::notify_lingering(&[without])
    );
}
