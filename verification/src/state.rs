//! The game state that a poll observes, and when two states differ.

use vstd::prelude::*;

verus! {

/// One action that the game is waiting for.
///
/// Every field may be missing: which fields the server sends depends on the
/// kind of action, and has changed over time.
#[derive(Debug)]
pub struct ActionRequirement {
    /// The faction that caused the requirement. No message depends on it.
    pub from_faction: Option<String>,
    /// The category of the action, such as `full`, `dwelling` or `leech`.
    pub kind: Option<String>,
    /// The faction that has to act.
    pub faction: Option<String>,
    /// The player who has to act, while no faction stands for them yet.
    pub player: Option<String>,
}

/// The part of the status document that the library reads.
#[derive(Debug)]
pub struct GameState {
    /// `1` once the game is over.
    pub finished: Option<i32>,
    /// The faction whose full turn is pending.
    pub active_faction: Option<String>,
    /// The open actions, in the order in which the server lists them.
    pub required_actions: Option<Vec<ActionRequirement>>,
}

/// An [`ActionRequirement`] as a mathematical value.
pub ghost struct ActionRequirementView {
    pub from_faction: Option<Seq<char>>,
    pub kind: Option<Seq<char>>,
    pub faction: Option<Seq<char>>,
    pub player: Option<Seq<char>>,
}

/// A [`GameState`] as a mathematical value.
pub ghost struct GameStateView {
    pub finished: Option<int>,
    pub active_faction: Option<Seq<char>>,
    pub required_actions: Option<Seq<ActionRequirementView>>,
}

/// The characters of a text that may be missing.
pub open spec fn text_view(text: Option<String>) -> Option<Seq<char>> {
    match text {
        Some(t) => Some(t@),
        None => None,
    }
}

/// The values of a sequence of requirements, one for one.
pub open spec fn requirement_views(actions: Seq<ActionRequirement>) -> Seq<ActionRequirementView> {
    actions.map_values(|action: ActionRequirement| action@)
}

/// The value of a state that may be missing.
pub open spec fn state_view(state: Option<&GameState>) -> Option<GameStateView> {
    match state {
        Some(s) => Some(s@),
        None => None,
    }
}

impl View for ActionRequirement {
    type V = ActionRequirementView;

    open spec fn view(&self) -> ActionRequirementView {
        ActionRequirementView {
            from_faction: text_view(self.from_faction),
            kind: text_view(self.kind),
            faction: text_view(self.faction),
            player: text_view(self.player),
        }
    }
}

impl View for GameState {
    type V = GameStateView;

    open spec fn view(&self) -> GameStateView {
        GameStateView {
            finished: match self.finished {
                Some(n) => Some(n as int),
                None => None,
            },
            active_faction: text_view(self.active_faction),
            required_actions: match self.required_actions {
                Some(actions) => Some(requirement_views(actions@)),
                None => None,
            },
        }
    }
}

/// Whether a poll that observes `current` after `previous` has seen a change:
/// always on the first observation, and afterwards wherever the two states are
/// not equal field by field, the order of the requirements included.
pub open spec fn changed(previous: Option<GameStateView>, current: GameStateView) -> bool {
    match previous {
        Some(p) => p != current,
        None => true,
    }
}

/// Whether two texts that may be missing are equal.
pub fn same_optional_text(a: &Option<String>, b: &Option<String>) -> (r: bool)
    ensures
        r == (text_view(*a) == text_view(*b)),
{
    match (a, b) {
        (Some(x), Some(y)) => *x == *y,
        (None, None) => true,
        _ => false,
    }
}

impl ActionRequirement {
    /// Whether two requirements are equal field by field.
    pub fn same(&self, other: &ActionRequirement) -> (r: bool)
        ensures
            r == (self@ == other@),
    {
        same_optional_text(&self.from_faction, &other.from_faction) && same_optional_text(
            &self.kind,
            &other.kind,
        ) && same_optional_text(&self.faction, &other.faction) && same_optional_text(
            &self.player,
            &other.player,
        )
    }
}

/// Whether two lists hold equal requirements in the same order.
pub fn same_requirements(a: &Vec<ActionRequirement>, b: &Vec<ActionRequirement>) -> (r: bool)
    ensures
        r == (requirement_views(a@) == requirement_views(b@)),
{
    if a.len() != b.len() {
        return false;
    }
    let mut i: usize = 0;
    while i < a.len()
        invariant
            i <= a@.len(),
            a@.len() == b@.len(),
            forall|j: int| 0 <= j < i ==> a@[j]@ == b@[j]@,
        decreases a@.len() - i,
    {
        if !a[i].same(&b[i]) {
            assert(requirement_views(a@)[i as int] != requirement_views(b@)[i as int]);
            return false;
        }
        i += 1;
    }
    assert(requirement_views(a@) =~= requirement_views(b@));
    true
}

impl GameState {
    /// Whether two states are equal field by field.
    pub fn same(&self, other: &GameState) -> (r: bool)
        ensures
            r == (self@ == other@),
    {
        let finished = match (self.finished, other.finished) {
            (Some(x), Some(y)) => x == y,
            (None, None) => true,
            _ => false,
        };
        let actions = match (&self.required_actions, &other.required_actions) {
            (Some(x), Some(y)) => same_requirements(x, y),
            (None, None) => true,
            _ => false,
        };
        finished && same_optional_text(&self.active_faction, &other.active_faction) && actions
    }
}

impl PartialEq for ActionRequirement {
    fn eq(&self, other: &ActionRequirement) -> (r: bool) {
        self.same(other)
    }
}

impl vstd::std_specs::cmp::PartialEqSpecImpl for ActionRequirement {
    open spec fn obeys_eq_spec() -> bool {
        true
    }

    open spec fn eq_spec(&self, other: &ActionRequirement) -> bool {
        self@ == other@
    }
}

impl Eq for ActionRequirement {

}

impl PartialEq for GameState {
    fn eq(&self, other: &GameState) -> (r: bool) {
        self.same(other)
    }
}

impl vstd::std_specs::cmp::PartialEqSpecImpl for GameState {
    open spec fn obeys_eq_spec() -> bool {
        true
    }

    open spec fn eq_spec(&self, other: &GameState) -> bool {
        self@ == other@
    }
}

impl Eq for GameState {

}

/// Whether the state has changed since the previous observation.
///
/// Without a previous observation the state counts as changed. The comparison
/// is made on the values, never on the bytes that they were read from.
pub fn has_changed(previous: Option<&GameState>, current: &GameState) -> (r: bool)
    ensures
        r == changed(state_view(previous), current@),
        previous is None ==> r,
        previous matches Some(p) && p@ == current@ ==> !r,
{
    match previous {
        Some(p) => !p.same(current),
        None => true,
    }
}

/// A first observation always counts as a change.
pub proof fn lemma_first_observation_is_a_change(current: GameStateView)
    ensures
        changed(None, current),
{
}

/// A state has not changed against itself.
pub proof fn lemma_unchanged_against_itself(state: GameStateView)
    ensures
        !changed(Some(state), state),
{
}

/// Whether two states differ does not depend on which of them came first.
pub proof fn lemma_change_is_symmetric(a: GameStateView, b: GameStateView)
    ensures
        changed(Some(a), b) == changed(Some(b), a),
{
}

} // verus!
