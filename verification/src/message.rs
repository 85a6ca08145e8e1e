//! The message that a game state calls for.
//!
//! At most one message is derived from a state. A finished game outranks a
//! pending full turn, and a pending full turn outranks the smaller actions
//! that are still open.

use crate::error::NotifyError;
use crate::state::{requirement_views, ActionRequirement, ActionRequirementView, GameState, GameStateView};
use crate::text::{join_lines, joined, lemma_joined_len, same_text, texts};
use vstd::prelude::*;
use vstd::string::StringExecFns;

verus! {

/// Whether one of the requirements asks for a full turn.
pub open spec fn is_full_turn(actions: Seq<ActionRequirementView>) -> bool {
    exists|i: int| 0 <= i < actions.len() && (#[trigger] actions[i]).kind == Some("full"@)
}

/// The line for a faction that has to take an action of the given kind.
pub open spec fn faction_line(faction: Seq<char>, kind: Seq<char>) -> Seq<char> {
    if kind == "dwelling"@ {
        faction + " should place a dwelling"@
    } else if kind == "cult"@ {
        faction + " may advance on a cult track"@
    } else if kind == "bonus"@ {
        faction + " should pick a bonus tile"@
    } else {
        faction + " may "@ + kind
    }
}

/// The line for a player who has to take an action of the given kind.
pub open spec fn player_line(player: Seq<char>, kind: Seq<char>) -> Seq<char> {
    if kind == "faction"@ {
        player + " should pick a faction"@
    } else {
        player + " may "@ + kind
    }
}

/// The lines of one requirement: one where it names a faction and a kind,
/// then one where it names a player and a kind.
pub open spec fn requirement_lines(action: ActionRequirementView) -> Seq<Seq<char>> {
    let for_faction = match (action.faction, action.kind) {
        (Some(faction), Some(kind)) => seq![faction_line(faction, kind)],
        _ => Seq::empty(),
    };
    let for_player = match (action.player, action.kind) {
        (Some(player), Some(kind)) => seq![player_line(player, kind)],
        _ => Seq::empty(),
    };
    for_faction + for_player
}

/// The lines of all requirements, in the order of the requirements.
pub open spec fn lingering_lines(actions: Seq<ActionRequirementView>) -> Seq<Seq<char>>
    decreases actions.len(),
{
    if actions.len() == 0 {
        Seq::empty()
    } else {
        lingering_lines(actions.drop_last()) + requirement_lines(actions.last())
    }
}

/// The lines of all requirements, one below the other.
pub open spec fn lingering_message(actions: Seq<ActionRequirementView>) -> Seq<char> {
    joined(lingering_lines(actions), "\n"@)
}

/// The message for a pending full turn. It names the active faction, so a
/// state without one is contradictory.
pub open spec fn full_turn_message(state: GameStateView) -> Result<Seq<char>, NotifyError> {
    match state.active_faction {
        Some(faction) => Ok(faction + " should take their turn"@),
        None => Err(NotifyError::ConsistencyError),
    }
}

/// The message that a state calls for, if any.
pub open spec fn message(state: GameStateView) -> Result<Option<Seq<char>>, NotifyError> {
    if state.finished == Some(1int) {
        Ok(Some("gameover"@))
    } else {
        match state.required_actions {
            None => Ok(None),
            Some(actions) => if is_full_turn(actions) {
                match full_turn_message(state) {
                    Ok(text) => Ok(Some(text)),
                    Err(e) => Err(e),
                }
            } else if lingering_message(actions).len() == 0 {
                Ok(None)
            } else {
                Ok(Some(lingering_message(actions)))
            },
        }
    }
}

/// The characters of a message that may be missing.
pub open spec fn message_view(r: Result<Option<String>, NotifyError>) -> Result<
    Option<Seq<char>>,
    NotifyError,
> {
    match r {
        Ok(Some(text)) => Ok(Some(text@)),
        Ok(None) => Ok(None),
        Err(e) => Err(e),
    }
}

/// Says that the active faction should take its turn.
///
/// Fails with [`NotifyError::ConsistencyError`] exactly where the state names
/// no active faction.
pub fn notify_full_turn(game: &GameState) -> (r: Result<String, NotifyError>)
    ensures
        match r {
            Ok(text) => full_turn_message(game@) == Ok::<Seq<char>, NotifyError>(text@),
            Err(e) => full_turn_message(game@) == Err::<Seq<char>, NotifyError>(e),
        },
{
    match &game.active_faction {
        Some(active_faction) => {
            let mut text = active_faction.clone();
            text.append(" should take their turn");
            Ok(text)
        },
        None => Err(NotifyError::ConsistencyError),
    }
}

/// The line for a faction and the kind of action that it has to take.
fn line_for_faction(faction: &String, kind: &String) -> (r: String)
    ensures
        r@ == faction_line(faction@, kind@),
{
    let mut line = faction.clone();
    if same_text(kind.as_str(), "dwelling") {
        line.append(" should place a dwelling");
    } else if same_text(kind.as_str(), "cult") {
        line.append(" may advance on a cult track");
    } else if same_text(kind.as_str(), "bonus") {
        line.append(" should pick a bonus tile");
    } else {
        line.append(" may ");
        line.append(kind.as_str());
    }
    line
}

/// The line for a player and the kind of action that they have to take.
fn line_for_player(player: &String, kind: &String) -> (r: String)
    ensures
        r@ == player_line(player@, kind@),
{
    let mut line = player.clone();
    if same_text(kind.as_str(), "faction") {
        line.append(" should pick a faction");
    } else {
        line.append(" may ");
        line.append(kind.as_str());
    }
    line
}

/// Lists the open actions, one line for each, joined by a line feed.
///
/// A requirement without a kind, or with neither a faction nor a player,
/// gives no line; the result is empty where no requirement gives one.
pub fn notify_lingering(actions_required: &[ActionRequirement]) -> (r: String)
    ensures
        r@ == lingering_message(requirement_views(actions_required@)),
{
    let mut notify: Vec<String> = Vec::new();
    let mut i: usize = 0;
    while i < actions_required.len()
        invariant
            i <= actions_required@.len(),
            texts(notify@) == lingering_lines(requirement_views(actions_required@.take(i as int))),
        decreases actions_required@.len() - i,
    {
        let it = &actions_required[i];
        let ghost before = texts(notify@);
        proof {
            let next = requirement_views(actions_required@.take(i + 1));
            assert(next.drop_last() =~= requirement_views(actions_required@.take(i as int)));
            assert(next.last() == it@);
        }
        if let (Some(faction), Some(kind)) = (&it.faction, &it.kind) {
            notify.push(line_for_faction(faction, kind));
        }
        if let (Some(player), Some(kind)) = (&it.player, &it.kind) {
            notify.push(line_for_player(player, kind));
        }
        assert(texts(notify@) =~= before + requirement_lines(it@));
        i += 1;
    }
    assert(actions_required@.take(actions_required@.len() as int) =~= actions_required@);
    join_lines(&notify, "\n")
}

/// Whether one of the requirements asks for a full turn.
fn asks_full_turn(actions_required: &[ActionRequirement]) -> (r: bool)
    ensures
        r == is_full_turn(requirement_views(actions_required@)),
{
    let mut i: usize = 0;
    while i < actions_required.len()
        invariant
            i <= actions_required@.len(),
            forall|j: int|
                0 <= j < i ==> (#[trigger] requirement_views(actions_required@)[j]).kind != Some(
                    "full"@,
                ),
        decreases actions_required@.len() - i,
    {
        if let Some(kind) = &actions_required[i].kind {
            if same_text(kind.as_str(), "full") {
                assert(requirement_views(actions_required@)[i as int].kind == Some("full"@));
                return true;
            }
        }
        i += 1;
    }
    false
}

/// The message to send for a game state, if it calls for one.
///
/// A finished game gives `gameover`, whatever else the state holds. Otherwise
/// a state without requirements gives no message; a state with a requirement
/// of kind `full` gives the message of [`notify_full_turn`], or its error; and
/// any other state gives the lines of [`notify_lingering`], or no message
/// where there is no line.
pub fn notification_message(game: &GameState) -> (r: Result<Option<String>, NotifyError>)
    ensures
        message_view(r) == message(game@),
        game@.finished == Some(1int) ==> message_view(r) == Ok::<Option<Seq<char>>, NotifyError>(
            Some("gameover"@),
        ),
        game@.finished != Some(1int) && game@.required_actions is None ==> r == Ok::<
            Option<String>,
            NotifyError,
        >(None),
{
    if let Some(1) = game.finished {
        return Ok(Some(String::from_str("gameover")));
    }
    match &game.required_actions {
        Some(actions_required) => {
            if asks_full_turn(actions_required.as_slice()) {
                match notify_full_turn(game) {
                    Ok(text) => Ok(Some(text)),
                    Err(e) => Err(e),
                }
            } else {
                let text = notify_lingering(actions_required.as_slice());
                if text.as_str().is_empty() {
                    Ok(None)
                } else {
                    Ok(Some(text))
                }
            }
        },
        None => Ok(None),
    }
}

/// Every line of one requirement holds at least one character.
pub proof fn lemma_requirement_lines_are_not_empty(action: ActionRequirementView)
    ensures
        forall|i: int|
            0 <= i < requirement_lines(action).len() ==> (#[trigger] requirement_lines(
                action,
            )[i]).len() > 0,
{
    reveal_strlit(" should place a dwelling");
    reveal_strlit(" may advance on a cult track");
    reveal_strlit(" should pick a bonus tile");
    reveal_strlit(" should pick a faction");
    reveal_strlit(" may ");
}

/// Every line of a list of requirements holds at least one character.
pub proof fn lemma_lines_are_not_empty(actions: Seq<ActionRequirementView>)
    ensures
        forall|i: int|
            0 <= i < lingering_lines(actions).len() ==> (#[trigger] lingering_lines(
                actions,
            )[i]).len() > 0,
    decreases actions.len(),
{
    if actions.len() > 0 {
        let head = lingering_lines(actions.drop_last());
        let tail = requirement_lines(actions.last());
        lemma_lines_are_not_empty(actions.drop_last());
        lemma_requirement_lines_are_not_empty(actions.last());
        assert forall|i: int| 0 <= i < (head + tail).len() implies (#[trigger] (head + tail)[i]).len()
            > 0 by {
            if i < head.len() {
                assert((head + tail)[i] == head[i]);
            } else {
                assert((head + tail)[i] == tail[i - head.len()]);
            }
        }
    }
}

/// The joined lines are empty exactly where no requirement gives a line.
pub proof fn lemma_no_line_no_message(actions: Seq<ActionRequirementView>)
    ensures
        lingering_message(actions).len() == 0 <==> lingering_lines(actions).len() == 0,
{
    lemma_lines_are_not_empty(actions);
    lemma_joined_len(lingering_lines(actions), "\n"@);
}

/// A finished game gives `gameover`, whatever the other fields hold.
pub proof fn lemma_finished_game_is_over(state: GameStateView)
    requires
        state.finished == Some(1int),
    ensures
        message(state) == Ok::<Option<Seq<char>>, NotifyError>(Some("gameover"@)),
{
}

/// A game that is not finished and lists no requirements gives no message.
pub proof fn lemma_no_requirements_no_message(state: GameStateView)
    requires
        state.finished != Some(1int),
        state.required_actions is None,
    ensures
        message(state) == Ok::<Option<Seq<char>>, NotifyError>(None),
{
}

/// An empty list of requirements gives what a missing list gives.
pub proof fn lemma_empty_requirements_no_message(state: GameStateView)
    requires
        state.required_actions == Some(Seq::<ActionRequirementView>::empty()),
    ensures
        message(state) == message(GameStateView { required_actions: None, ..state }),
{
}

/// A message is never the empty text.
pub proof fn lemma_message_is_not_empty(state: GameStateView)
    ensures
        match message(state) {
            Ok(Some(text)) => text.len() > 0,
            _ => true,
        },
{
    reveal_strlit("gameover");
    reveal_strlit(" should take their turn");
}

} // verus!
