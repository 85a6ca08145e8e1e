//! Reading a game state from the status document.
//!
//! The server's schema is only partly known and has grown over time. So every
//! field may be missing or `null`, and members that the library does not know
//! are passed over. A document is refused only where it is no object, or a
//! known field holds a value of another type.

use crate::error::NotifyError;
use crate::json::{
    as_integer, as_items, as_text, decode, document, documents, is_null, is_object, json_text,
    member, member_of, Json,
};
use crate::state::{
    changed, has_changed, requirement_views, text_view, ActionRequirement, ActionRequirementView,
    GameState, GameStateView,
};
use vstd::prelude::*;

verus! {

/// A text field: the text, or nothing where the member is missing or `null`.
pub open spec fn text_field(field: Option<Json>) -> Result<Option<Seq<char>>, NotifyError> {
    match field {
        None => Ok(None),
        Some(Json::Null) => Ok(None),
        Some(Json::Text(text)) => Ok(Some(text)),
        Some(_) => Err(NotifyError::MalformedResponse),
    }
}

/// An integer field of 32 signed bits: the number, or nothing where the
/// member is missing or `null`.
pub open spec fn integer_field(field: Option<Json>) -> Result<Option<int>, NotifyError> {
    match field {
        None => Ok(None),
        Some(Json::Null) => Ok(None),
        Some(Json::Integer(n)) if i32::MIN <= n <= i32::MAX => Ok(Some(n)),
        Some(_) => Err(NotifyError::MalformedResponse),
    }
}

/// One requirement: an object whose members `from_faction`, `type`, `faction`
/// and `player` are text fields.
pub open spec fn requirement_of(doc: Json) -> Result<ActionRequirementView, NotifyError> {
    match (
        doc,
        text_field(member_of(doc, "from_faction"@)),
        text_field(member_of(doc, "type"@)),
        text_field(member_of(doc, "faction"@)),
        text_field(member_of(doc, "player"@)),
    ) {
        (Json::Object(_), Ok(from_faction), Ok(kind), Ok(faction), Ok(player)) => Ok(
            ActionRequirementView { from_faction, kind, faction, player },
        ),
        _ => Err(NotifyError::MalformedResponse),
    }
}

/// The requirements of an array, in its order; refused as a whole where one
/// element is refused.
pub open spec fn requirements_of(items: Seq<Json>) -> Result<
    Seq<ActionRequirementView>,
    NotifyError,
> {
    if forall|i: int| 0 <= i < items.len() ==> (#[trigger] requirement_of(items[i])) is Ok {
        Ok(Seq::new(items.len(), |i: int| requirement_of(items[i])->Ok_0))
    } else {
        Err(NotifyError::MalformedResponse)
    }
}

/// The field of requirements: an array of them, or nothing where the member
/// is missing or `null`.
pub open spec fn requirements_field(field: Option<Json>) -> Result<
    Option<Seq<ActionRequirementView>>,
    NotifyError,
> {
    match field {
        None => Ok(None),
        Some(Json::Null) => Ok(None),
        Some(Json::Array(items)) => match requirements_of(items) {
            Ok(actions) => Ok(Some(actions)),
            Err(e) => Err(e),
        },
        Some(_) => Err(NotifyError::MalformedResponse),
    }
}

/// The game state that a document describes: an object with the integer
/// field `finished`, the text field `active_faction` and the field of
/// requirements `action_required`.
pub open spec fn state_of(doc: Json) -> Result<GameStateView, NotifyError> {
    match (
        doc,
        integer_field(member_of(doc, "finished"@)),
        text_field(member_of(doc, "active_faction"@)),
        requirements_field(member_of(doc, "action_required"@)),
    ) {
        (Json::Object(_), Ok(finished), Ok(active_faction), Ok(required_actions)) => Ok(
            GameStateView { finished, active_faction, required_actions },
        ),
        _ => Err(NotifyError::MalformedResponse),
    }
}

/// The game state that a JSON text describes.
pub open spec fn parsed_state(bytes: Seq<u8>) -> Result<GameStateView, NotifyError> {
    match json_text(bytes) {
        Some(doc) => state_of(doc),
        None => Err(NotifyError::MalformedResponse),
    }
}

/// Whether a state has changed against the stored snapshot: always where
/// there is none, and else where the state that the snapshot describes is
/// another. A snapshot that describes no state is an error.
pub open spec fn snapshot_changed(snapshot: Option<Seq<u8>>, current: GameStateView) -> Result<
    bool,
    NotifyError,
> {
    match snapshot {
        None => Ok(true),
        Some(bytes) => match parsed_state(bytes) {
            Ok(previous) => Ok(changed(Some(previous), current)),
            Err(e) => Err(e),
        },
    }
}

/// The value of a state that was read, or the error.
pub open spec fn read_view(r: Result<GameState, NotifyError>) -> Result<GameStateView, NotifyError> {
    match r {
        Ok(state) => Ok(state@),
        Err(e) => Err(e),
    }
}

/// Reads the text field `key` of an object.
fn read_text(doc: &serde_json::Value, key: &str) -> (r: Result<Option<String>, NotifyError>)
    ensures
        match r {
            Ok(text) => text_field(member_of(document(*doc), key@)) == Ok::<
                Option<Seq<char>>,
                NotifyError,
            >(text_view(text)),
            Err(e) => text_field(member_of(document(*doc), key@)) == Err::<
                Option<Seq<char>>,
                NotifyError,
            >(e),
        },
{
    match member(doc, key) {
        None => Ok(None),
        Some(value) => {
            if is_null(value) {
                Ok(None)
            } else {
                match as_text(value) {
                    Some(text) => Ok(Some(text.to_owned())),
                    None => Err(NotifyError::MalformedResponse),
                }
            }
        },
    }
}

/// Reads the integer field `key` of an object.
fn read_integer(doc: &serde_json::Value, key: &str) -> (r: Result<Option<i32>, NotifyError>)
    ensures
        match r {
            Ok(Some(n)) => integer_field(member_of(document(*doc), key@)) == Ok::<
                Option<int>,
                NotifyError,
            >(Some(n as int)),
            Ok(None) => integer_field(member_of(document(*doc), key@)) == Ok::<
                Option<int>,
                NotifyError,
            >(None),
            Err(e) => integer_field(member_of(document(*doc), key@)) == Err::<
                Option<int>,
                NotifyError,
            >(e),
        },
{
    match member(doc, key) {
        None => Ok(None),
        Some(value) => {
            if is_null(value) {
                Ok(None)
            } else {
                match as_integer(value) {
                    Some(n) => {
                        if -2147483648 <= n && n <= 2147483647 {
                            Ok(Some(n as i32))
                        } else {
                            Err(NotifyError::MalformedResponse)
                        }
                    },
                    None => Err(NotifyError::MalformedResponse),
                }
            }
        },
    }
}

impl ActionRequirement {
    /// Reads one requirement from a document.
    ///
    /// Fails with [`NotifyError::MalformedResponse`] exactly where the
    /// document is no object, or one of the four fields is present, not
    /// `null` and no text.
    pub fn from_document(doc: &serde_json::Value) -> (r: Result<ActionRequirement, NotifyError>)
        ensures
            match r {
                Ok(action) => requirement_of(document(*doc)) == Ok::<
                    ActionRequirementView,
                    NotifyError,
                >(action@),
                Err(e) => requirement_of(document(*doc)) == Err::<
                    ActionRequirementView,
                    NotifyError,
                >(e),
            },
    {
        if !is_object(doc) {
            return Err(NotifyError::MalformedResponse);
        }
        let from_faction = match read_text(doc, "from_faction") {
            Ok(text) => text,
            Err(e) => { return Err(e); },
        };
        let kind = match read_text(doc, "type") {
            Ok(text) => text,
            Err(e) => { return Err(e); },
        };
        let faction = match read_text(doc, "faction") {
            Ok(text) => text,
            Err(e) => { return Err(e); },
        };
        let player = match read_text(doc, "player") {
            Ok(text) => text,
            Err(e) => { return Err(e); },
        };
        Ok(ActionRequirement { from_faction, kind, faction, player })
    }
}

/// Reads the requirements of an array, in its order.
fn read_requirements(items: &Vec<serde_json::Value>) -> (r: Result<
    Vec<ActionRequirement>,
    NotifyError,
>)
    ensures
        match r {
            Ok(actions) => requirements_of(documents(items@)) == Ok::<
                Seq<ActionRequirementView>,
                NotifyError,
            >(requirement_views(actions@)),
            Err(e) => requirements_of(documents(items@)) == Err::<
                Seq<ActionRequirementView>,
                NotifyError,
            >(e),
        },
{
    let ghost docs = documents(items@);
    let mut actions: Vec<ActionRequirement> = Vec::new();
    let mut i: usize = 0;
    while i < items.len()
        invariant
            i <= items@.len(),
            docs == documents(items@),
            actions@.len() == i,
            forall|j: int|
                0 <= j < i ==> (#[trigger] requirement_of(docs[j])) == Ok::<
                    ActionRequirementView,
                    NotifyError,
                >(actions@[j]@),
        decreases items@.len() - i,
    {
        match ActionRequirement::from_document(&items[i]) {
            Ok(action) => {
                actions.push(action);
            },
            Err(e) => {
                assert(requirement_of(docs[i as int]) is Err);
                return Err(e);
            },
        }
        i += 1;
    }
    assert(requirement_views(actions@) =~= Seq::new(
        docs.len(),
        |i: int| requirement_of(docs[i])->Ok_0,
    ));
    Ok(actions)
}

/// Reads the field of requirements of an object.
fn read_required_actions(doc: &serde_json::Value) -> (r: Result<
    Option<Vec<ActionRequirement>>,
    NotifyError,
>)
    ensures
        match r {
            Ok(Some(actions)) => requirements_field(member_of(document(*doc), "action_required"@))
                == Ok::<Option<Seq<ActionRequirementView>>, NotifyError>(
                Some(requirement_views(actions@)),
            ),
            Ok(None) => requirements_field(member_of(document(*doc), "action_required"@)) == Ok::<
                Option<Seq<ActionRequirementView>>,
                NotifyError,
            >(None),
            Err(e) => requirements_field(member_of(document(*doc), "action_required"@)) == Err::<
                Option<Seq<ActionRequirementView>>,
                NotifyError,
            >(e),
        },
{
    match member(doc, "action_required") {
        None => Ok(None),
        Some(value) => {
            if is_null(value) {
                Ok(None)
            } else {
                match as_items(value) {
                    Some(items) => match read_requirements(items) {
                        Ok(actions) => Ok(Some(actions)),
                        Err(e) => Err(e),
                    },
                    None => Err(NotifyError::MalformedResponse),
                }
            }
        },
    }
}

impl GameState {
    /// Reads a game state from a document.
    ///
    /// Fails with [`NotifyError::MalformedResponse`] exactly where the
    /// document is no object, or one of the three fields is present, not
    /// `null` and of another type than the state gives it; members that the
    /// state does not know are passed over.
    pub fn from_document(doc: &serde_json::Value) -> (r: Result<GameState, NotifyError>)
        ensures
            read_view(r) == state_of(document(*doc)),
    {
        if !is_object(doc) {
            return Err(NotifyError::MalformedResponse);
        }
        let finished = match read_integer(doc, "finished") {
            Ok(n) => n,
            Err(e) => { return Err(e); },
        };
        let active_faction = match read_text(doc, "active_faction") {
            Ok(text) => text,
            Err(e) => { return Err(e); },
        };
        let required_actions = match read_required_actions(doc) {
            Ok(actions) => actions,
            Err(e) => { return Err(e); },
        };
        Ok(GameState { finished, active_faction, required_actions })
    }
}

/// Reads a game state from the bytes of a status document.
///
/// Fails with [`NotifyError::MalformedResponse`] exactly where the bytes are
/// no JSON text, or the document is not one that
/// [`GameState::from_document`] accepts.
pub fn parse_game_state(bytes: &[u8]) -> (r: Result<GameState, NotifyError>)
    ensures
        read_view(r) == parsed_state(bytes@),
{
    match decode(bytes) {
        Ok(value) => GameState::from_document(&value),
        Err(_) => Err(NotifyError::MalformedResponse),
    }
}

/// Whether the game has changed against the stored snapshot.
///
/// `snapshot` holds the bytes that were stored at the previous poll, or
/// nothing at the first poll of a game, which counts as a change. The
/// snapshot is read as a game state and compared with `game` field by field:
/// the order of members and the white space of a document say nothing of its
/// state.
pub fn is_game_changed(snapshot: Option<&[u8]>, game: &GameState) -> (r: Result<bool, NotifyError>)
    ensures
        r == snapshot_changed(
            match snapshot {
                Some(bytes) => Some(bytes@),
                None => None,
            },
            game@,
        ),
{
    match snapshot {
        None => Ok(true),
        Some(bytes) => match parse_game_state(bytes) {
            Ok(cached_game) => Ok(has_changed(Some(&cached_game), game)),
            Err(e) => Err(e),
        },
    }
}

/// A member that the state does not read changes nothing.
pub proof fn lemma_unknown_member_is_passed_over(
    members: Map<Seq<char>, Json>,
    key: Seq<char>,
    value: Json,
)
    requires
        key != "finished"@,
        key != "active_faction"@,
        key != "action_required"@,
    ensures
        state_of(Json::Object(members.insert(key, value))) == state_of(Json::Object(members)),
{
}

/// A state that is stored as the bytes it was read from, and read again from
/// those bytes, has not changed.
pub proof fn lemma_snapshot_of_state_is_unchanged(bytes: Seq<u8>, state: GameStateView)
    requires
        parsed_state(bytes) == Ok::<GameStateView, NotifyError>(state),
    ensures
        snapshot_changed(Some(bytes), state) == Ok::<bool, NotifyError>(false),
{
}

} // verus!
