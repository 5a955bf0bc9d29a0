//! The initial text router's actions and decisions.
//!
//! Every simple application action is exposed to the Needle engine as a
//! parameterless tool with a name and a description; the engine maps a
//! request to a call of one of these tools, or refuses with no call, which
//! escalates the request to the reasoning model.

use vstd::prelude::*;
use crate::approval::{elapsed_since_epoch, system_now};
use crate::calendar::{days_from_civil, iso_date, iso_date_of_days, valid_date};
use crate::json::{
    empty_parameters_model, items_model, json_text, lemma_items_model_all, lemma_members_model_all,
    members_model, JsonModel, JsonValue,
};
use crate::needle::FunctionCall;
use crate::route::{Route, RoutedAction};
use crate::text::{push_str, str_eq, string_of};

verus! {

/// A simple application action the router can emit.
#[derive(Debug, Clone, Copy)]
pub struct ActionSpec {
    /// The registry id, e.g. `open_flashcards`; the frontend maps it onto
    /// the actual UI behaviour.
    pub id: &'static str,
    /// A short human description, used as the engine's tool description.
    pub description: &'static str,
}

/// The ids and descriptions of the built-in actions, in order.
pub open spec fn builtin_actions() -> Seq<(Seq<char>, Seq<char>)> {
    seq![
        ("open_flashcards"@, "Navigate to the user's flashcards"@),
        ("show_notes"@, "Show the user's notes"@),
        ("open_pdfs"@, "Navigate to the user's PDF documents"@),
        ("go_to_settings"@, "Open application settings"@),
        ("start_revision"@, "Begin a revision session"@),
        ("open_last_document"@, "Open the last document the user worked on"@),
    ]
}

/// The ids and descriptions of a list of actions.
pub open spec fn actions_view(s: Seq<ActionSpec>) -> Seq<(Seq<char>, Seq<char>)> {
    s.map_values(|a: ActionSpec| (a.id@, a.description@))
}

/// The position of the first action with this id, or the number of
/// actions.
pub open spec fn action_index(s: Seq<(Seq<char>, Seq<char>)>, id: Seq<char>) -> int
    decreases s.len(),
{
    if s.len() == 0 {
        0
    } else if s[0].0 == id {
        0
    } else {
        1 + action_index(s.drop_first(), id)
    }
}

/// No two actions share an id.
pub open spec fn ids_unique(s: Seq<(Seq<char>, Seq<char>)>) -> bool {
    forall|i: int, j: int| 0 <= i < j < s.len() ==> (#[trigger] s[i]).0 != (#[trigger] s[j]).0
}

/// The engine-form tool object of an action: `name`, then `description`,
/// then the parameter schema of a tool without arguments.
pub open spec fn action_tool(a: (Seq<char>, Seq<char>)) -> JsonModel {
    JsonModel::Object(
        seq![
            ("name"@, JsonModel::Str(a.0)),
            ("description"@, JsonModel::Str(a.1)),
            ("parameters"@, empty_parameters_model()),
        ],
    )
}

/// When the first `i` ids differ from `id` and id `i` matches (or `i` is
/// the number of actions), the action index is `i`.
proof fn lemma_action_index_is(s: Seq<(Seq<char>, Seq<char>)>, id: Seq<char>, i: int)
    requires
        0 <= i <= s.len(),
        forall|j: int| 0 <= j < i ==> (#[trigger] s[j]).0 != id,
        i < s.len() ==> s[i].0 == id,
    ensures
        action_index(s, id) == i,
    decreases i,
{
    if i > 0 {
        assert(s[0].0 != id);
        assert forall|j: int| 0 <= j < i - 1 implies (#[trigger] s.drop_first()[j]).0 != id by {
            assert(s.drop_first()[j] == s[j + 1]);
        }
        if i < s.len() {
            assert(s.drop_first()[i - 1] == s[i]);
        }
        lemma_action_index_is(s.drop_first(), id, i - 1);
    }
}

/// The registry of actions the router can emit.
#[derive(Debug, Clone)]
pub struct ActionRegistry {
    actions: Vec<ActionSpec>,
}

impl ActionRegistry {
    /// The ids and descriptions of the registered actions, in order.
    pub closed spec fn view_actions(&self) -> Seq<(Seq<char>, Seq<char>)> {
        actions_view(self.actions@)
    }

    /// The built-in registry: the simple application actions (opening,
    /// showing, and navigating — never answering questions).
    pub fn builtin() -> (r: ActionRegistry)
        ensures
            r.view_actions() == builtin_actions(),
    {
        let mut actions: Vec<ActionSpec> = Vec::new();
        actions.push(ActionSpec { id: "open_flashcards", description: "Navigate to the user's flashcards" });
        actions.push(ActionSpec { id: "show_notes", description: "Show the user's notes" });
        actions.push(ActionSpec { id: "open_pdfs", description: "Navigate to the user's PDF documents" });
        actions.push(ActionSpec { id: "go_to_settings", description: "Open application settings" });
        actions.push(ActionSpec { id: "start_revision", description: "Begin a revision session" });
        actions.push(
            ActionSpec { id: "open_last_document", description: "Open the last document the user worked on" },
        );
        let r = ActionRegistry { actions };
        assert(r.view_actions() =~= builtin_actions());
        r
    }

    /// A registry with the given actions.
    pub fn new(actions: Vec<ActionSpec>) -> (r: ActionRegistry)
        ensures
            r.view_actions() == actions_view(actions@),
    {
        ActionRegistry { actions }
    }

    /// The registered actions, in order.
    pub fn actions(&self) -> (r: &[ActionSpec])
        ensures
            actions_view(r@) == self.view_actions(),
    {
        self.actions.as_slice()
    }

    /// The first action with this id, if any.
    pub fn get(&self, id: &str) -> (r: Option<&ActionSpec>)
        ensures
            r is Some <==> action_index(self.view_actions(), id@) < self.view_actions().len(),
            r matches Some(a) ==> (a.id@, a.description@) == self.view_actions()[action_index(
                self.view_actions(),
                id@,
            )],
    {
        let ghost v = self.view_actions();
        let mut i: usize = 0;
        while i < self.actions.len()
            invariant
                i <= self.actions@.len(),
                v == actions_view(self.actions@),
                forall|j: int| 0 <= j < i ==> (#[trigger] v[j]).0 != id@,
            decreases self.actions.len() - i,
        {
            if str_eq(self.actions[i].id, id) {
                proof {
                    lemma_action_index_is(v, id@, i as int);
                }
                return Some(&self.actions[i]);
            }
            i += 1;
        }
        proof {
            lemma_action_index_is(v, id@, i as int);
        }
        None
    }

    /// Whether every action id is unique.
    pub fn ids_are_unique(&self) -> (b: bool)
        ensures
            b == ids_unique(self.view_actions()),
    {
        let ghost v = self.view_actions();
        let n = self.actions.len();
        let mut j: usize = 0;
        while j < n
            invariant
                n == v.len(),
                j <= n,
                v == actions_view(self.actions@),
                forall|a: int, b: int| 0 <= a < b < j ==> (#[trigger] v[a]).0 != (#[trigger] v[b]).0,
            decreases n - j,
        {
            let mut i: usize = 0;
            while i < j
                invariant
                    n == v.len(),
                    i <= j < n,
                    v == actions_view(self.actions@),
                    forall|a: int| 0 <= a < i ==> (#[trigger] v[a]).0 != v[j as int].0,
                    forall|a: int, b: int| 0 <= a < b < j ==> (#[trigger] v[a]).0 != (#[trigger] v[b]).0,
                decreases j - i,
            {
                if str_eq(self.actions[i].id, self.actions[j].id) {
                    proof {
                        assert(v[i as int].0 == self.actions@[i as int].id@);
                        assert(v[j as int].0 == self.actions@[j as int].id@);
                        assert(v[i as int].0 == v[j as int].0);
                    }
                    return false;
                }
                i += 1;
            }
            j += 1;
        }
        true
    }

    /// The engine's tool schema JSON array: one parameterless tool per
    /// action, in order, each writing `name` before `description` (the
    /// engine's schema parser is sensitive to key order).
    pub fn tools_json(&self) -> (s: String)
        ensures
            s@ == json_text(JsonModel::Array(self.view_actions().map_values(
                |a: (Seq<char>, Seq<char>)| action_tool(a),
            ))),
    {
        let ghost v = self.view_actions();
        let mut items: Vec<JsonValue> = Vec::new();
        let mut i: usize = 0;
        while i < self.actions.len()
            invariant
                i <= self.actions@.len(),
                v == actions_view(self.actions@),
                items@.len() == i,
                forall|j: int| 0 <= j < i ==> (#[trigger] items@[j])@ == action_tool(v[j]),
            decreases self.actions.len() - i,
        {
            let a = self.actions[i];
            let mut members: Vec<(String, JsonValue)> = Vec::new();
            members.push((string_of("name"), JsonValue::string(a.id)));
            members.push((string_of("description"), JsonValue::string(a.description)));
            members.push((string_of("parameters"), JsonValue::empty_parameters()));
            proof {
                lemma_members_model_all(members@);
                assert(members_model(members@) =~= action_tool(v[i as int])->Object_0);
            }
            items.push(JsonValue::Object(members));
            i += 1;
        }
        proof {
            lemma_items_model_all(items@);
            assert(items_model(items@) =~= v.map_values(|a: (Seq<char>, Seq<char>)| action_tool(a)));
        }
        JsonValue::Array(items).to_json_text()
    }
}

impl Default for ActionRegistry {
    fn default() -> (r: Self)
        ensures
            r.view_actions() == builtin_actions(),
    {
        ActionRegistry::builtin()
    }
}

/// The escalation reason when no registered action matches.
pub open spec fn no_action_text() -> Seq<char> {
    "no registered action matches the request"@
}

/// The escalation reason of a registered action below the confidence
/// threshold, given the text comparing the confidence with the threshold.
pub open spec fn low_confidence_text(comparison: Seq<char>, action: Seq<char>) -> Seq<char> {
    "low confidence ("@ + comparison + "): uncertain about "@ + action
}

/// Decides a route from the engine's first call: a registered action the
/// engine is confident about becomes that action (with the call's
/// arguments); a registered action below the threshold escalates, saying
/// so (with `comparison`, the confidence compared to the threshold); a
/// refusal (no call) or a call of an unregistered tool escalates to the
/// reasoning model.
pub fn route_decision(
    registry: &ActionRegistry,
    first_call: Option<&FunctionCall>,
    confident: bool,
    comparison: &str,
) -> (r: Route)
    ensures
        first_call is Some && action_index(registry.view_actions(), first_call->0.name@)
            < registry.view_actions().len() && confident ==> (r matches Route::Action(a) && a.id@
            == first_call->0.name@ && a.arguments@ == first_call->0.arguments@),
        first_call is Some && action_index(registry.view_actions(), first_call->0.name@)
            < registry.view_actions().len() && !confident ==> (r matches Route::Escalate { reason } && reason@
            == low_confidence_text(comparison@, first_call->0.name@)),
        first_call is Some && action_index(registry.view_actions(), first_call->0.name@)
            >= registry.view_actions().len() ==> (r matches Route::Escalate { reason } && reason@ == no_action_text()),
        first_call is None ==> (r matches Route::Escalate { reason } && reason@ == no_action_text()),
{
    match first_call {
        Some(call) => {
            if registry.get(call.name.as_str()).is_some() {
                if confident {
                    Route::Action(RoutedAction { id: call.name.clone(), arguments: call.arguments.duplicate() })
                } else {
                    let mut reason = string_of("low confidence (");
                    push_str(&mut reason, comparison);
                    push_str(&mut reason, "): uncertain about ");
                    push_str(&mut reason, call.name.as_str());
                    Route::Escalate { reason }
                }
            } else {
                Route::Escalate { reason: string_of("no registered action matches the request") }
            }
        },
        None => Route::Escalate { reason: string_of("no registered action matches the request") },
    }
}

/// The router's system turn: its role, today's date, and the locale (the
/// engine treats system turns as facts).
pub open spec fn router_system_text(date: Seq<char>) -> Seq<char> {
    "You are the Noema application router.\ndate: "@ + date + "\nlocale: en"@
}

/// The router's system turn for the given date.
pub fn router_system_prompt(date: &str) -> (s: String)
    ensures
        s@ == router_system_text(date@),
{
    let mut s = string_of("You are the Noema application router.\ndate: ");
    push_str(&mut s, date);
    push_str(&mut s, "\nlocale: en");
    s
}

/// `Duration::as_secs`: the whole seconds of a duration. The duration is
/// opaque here, so nothing is claimed of the value.
#[verifier::external_body]
fn duration_secs(d: std::time::Duration) -> u64 {
    d.as_secs()
}

/// The whole days in a span of seconds.
pub open spec fn whole_days(seconds: u64) -> int {
    seconds as int / 86_400
}

/// Today's date in `YYYY-MM-DD` form, from the system clock (a clock set
/// before 1970 reads as 1970-01-01): the date that lies as many whole days
/// after 1970-01-01 as a clock reading of whole seconds since the epoch
/// holds. Whatever the clock says, the text is a valid date.
pub fn today() -> (s: String)
    ensures
        exists|y: nat, m: nat, d: nat| valid_date(y as int, m as int, d as int) && s@ == iso_date(y, m, d),
        exists|seconds: u64, y: nat, m: nat, d: nat|
            #![trigger whole_days(seconds), iso_date(y, m, d)]
            valid_date(y as int, m as int, d as int) && days_from_civil(y as int, m as int, d as int) == whole_days(
                seconds,
            ) && s@ == iso_date(y, m, d),
{
    let seconds = match elapsed_since_epoch(system_now()) {
        Some(d) => duration_secs(d),
        None => 0,
    };
    let s = iso_date_of_days(seconds / 86_400);
    proof {
        let (y, m, d) = choose|y: nat, m: nat, d: nat|
            valid_date(y as int, m as int, d as int) && days_from_civil(y as int, m as int, d as int) == seconds
                / 86_400 && s@ == iso_date(y, m, d);
        assert(valid_date(y as int, m as int, d as int) && days_from_civil(y as int, m as int, d as int)
            == whole_days(seconds) && s@ == iso_date(y, m, d));
    }
    s
}

} // verus!
