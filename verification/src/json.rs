//! The library's JSON value model and its compact text form.
//!
//! Tool schemas, tool-call arguments, and routed actions carry JSON. The
//! library holds it as a [`JsonValue`] tree; numbers keep the exact text of
//! their literal. [`JsonValue::to_json_text`] writes the compact form (no
//! whitespace, object members in their stored order, strings escaped as
//! JSON requires), which is the form the Needle engine receives.

use vstd::prelude::*;
use crate::text::{push_str, str_eq};

verus! {

/// A JSON value. Object members keep their order.
#[derive(Debug)]
pub enum JsonValue {
    /// `null`.
    Null,
    /// `true` or `false`.
    Bool(bool),
    /// A number, held as the exact text of its literal (e.g. `30`, `0.5`).
    Number(String),
    /// A string.
    Str(String),
    /// An array.
    Array(Vec<JsonValue>),
    /// An object: members in order.
    Object(Vec<(String, JsonValue)>),
}

/// The hex digit for a value below 16 (lower case, as JSON writers use).
pub open spec fn hex_digit(d: nat) -> char {
    if d < 10 { ((d + 48) as u8) as char } else { ((d + 87) as u8) as char }
}

/// How one character of a string is written inside a JSON string literal.
pub open spec fn escape_char(c: char) -> Seq<char> {
    if c == '"' {
        seq!['\\', '"']
    } else if c == '\\' {
        seq!['\\', '\\']
    } else if c == '\n' {
        seq!['\\', 'n']
    } else if c == '\r' {
        seq!['\\', 'r']
    } else if c == '\t' {
        seq!['\\', 't']
    } else if (c as int) == 8 {
        seq!['\\', 'b']
    } else if (c as int) == 12 {
        seq!['\\', 'f']
    } else if (c as int) < 32 {
        seq!['\\', 'u', '0', '0', hex_digit(((c as int) / 16) as nat), hex_digit(((c as int) % 16) as nat)]
    } else {
        seq![c]
    }
}

/// The escaped body of a JSON string literal (without the quotes).
pub open spec fn escape_text(s: Seq<char>) -> Seq<char>
    decreases s.len(),
{
    if s.len() == 0 {
        Seq::empty()
    } else {
        escape_text(s.drop_last()) + escape_char(s.last())
    }
}

/// A JSON string literal: the escaped text between double quotes.
pub open spec fn quoted(s: Seq<char>) -> Seq<char> {
    seq!['"'] + escape_text(s) + seq!['"']
}

/// The mathematical model of a JSON value.
pub enum JsonModel {
    Null,
    Bool(bool),
    Number(Seq<char>),
    Str(Seq<char>),
    Array(Seq<JsonModel>),
    Object(Seq<(Seq<char>, JsonModel)>),
}

/// The model of a value.
pub open spec fn value_model(v: JsonValue) -> JsonModel
    decreases v, 2nat,
{
    match v {
        JsonValue::Null => JsonModel::Null,
        JsonValue::Bool(b) => JsonModel::Bool(b),
        JsonValue::Number(n) => JsonModel::Number(n@),
        JsonValue::Str(s) => JsonModel::Str(s@),
        JsonValue::Array(items) => JsonModel::Array(items_model(items@)),
        JsonValue::Object(members) => JsonModel::Object(members_model(members@)),
    }
}

/// The models of array items.
pub open spec fn items_model(items: Seq<JsonValue>) -> Seq<JsonModel>
    decreases items, 1nat,
{
    if items.len() == 0 {
        Seq::empty()
    } else {
        items_model(items.subrange(0, items.len() - 1)).push(value_model(items[items.len() - 1]))
    }
}

/// The models of object members.
pub open spec fn members_model(members: Seq<(String, JsonValue)>) -> Seq<(Seq<char>, JsonModel)>
    decreases members, 1nat,
{
    if members.len() == 0 {
        Seq::empty()
    } else {
        let last = members[members.len() - 1];
        members_model(members.subrange(0, members.len() - 1)).push((last.0@, value_model(last.1)))
    }
}

impl View for JsonValue {
    type V = JsonModel;

    open spec fn view(&self) -> JsonModel {
        value_model(*self)
    }
}

/// The compact JSON text of a value.
pub open spec fn json_text(v: JsonModel) -> Seq<char>
    decreases v, 2nat,
{
    match v {
        JsonModel::Null => seq!['n', 'u', 'l', 'l'],
        JsonModel::Bool(b) => if b { seq!['t', 'r', 'u', 'e'] } else { seq!['f', 'a', 'l', 's', 'e'] },
        JsonModel::Number(n) => n,
        JsonModel::Str(s) => quoted(s),
        JsonModel::Array(items) => seq!['['] + items_text(items) + seq![']'],
        JsonModel::Object(members) => seq!['{'] + members_text(members) + seq!['}'],
    }
}

/// The comma-separated texts of array items.
pub open spec fn items_text(items: Seq<JsonModel>) -> Seq<char>
    decreases items, 1nat,
{
    if items.len() == 0 {
        Seq::empty()
    } else if items.len() == 1 {
        json_text(items[0])
    } else {
        items_text(items.subrange(0, items.len() - 1)) + seq![','] + json_text(items[items.len() - 1])
    }
}

/// The comma-separated `"key":value` texts of object members.
pub open spec fn members_text(members: Seq<(Seq<char>, JsonModel)>) -> Seq<char>
    decreases members, 1nat,
{
    if members.len() == 0 {
        Seq::empty()
    } else if members.len() == 1 {
        quoted(members[0].0) + seq![':'] + json_text(members[0].1)
    } else {
        let last = members[members.len() - 1];
        members_text(members.subrange(0, members.len() - 1)) + seq![','] + (quoted(last.0) + seq![':']
            + json_text(last.1))
    }
}

/// Appends `escape_char(c)` for one character.
fn write_escaped_char(out: &mut String, c: char)
    ensures
        final(out)@ == old(out)@ + escape_char(c),
{
    let ghost start = out@;
    if c == '"' {
        out.push('\\');
        out.push('"');
    } else if c == '\\' {
        out.push('\\');
        out.push('\\');
    } else if c == '\n' {
        out.push('\\');
        out.push('n');
    } else if c == '\r' {
        out.push('\\');
        out.push('r');
    } else if c == '\t' {
        out.push('\\');
        out.push('t');
    } else if (c as u32) == 8 {
        out.push('\\');
        out.push('b');
    } else if (c as u32) == 12 {
        out.push('\\');
        out.push('f');
    } else if (c as u32) < 32 {
        let code = c as u32;
        let hi = (code / 16) as u8;
        let lo = (code % 16) as u8;
        out.push('\\');
        out.push('u');
        out.push('0');
        out.push('0');
        out.push(hex_char(hi));
        out.push(hex_char(lo));
    } else {
        out.push(c);
    }
    assert(out@ =~= start + escape_char(c));
}

/// The lower-case hex digit of a value below 16.
pub fn hex_char(d: u8) -> (c: char)
    requires
        d < 16,
    ensures
        c == hex_digit(d as nat),
{
    if d < 10 {
        (d + 48) as char
    } else {
        (d + 87) as char
    }
}

/// Appends the quoted, escaped form of `s`.
fn write_quoted(out: &mut String, s: &str)
    ensures
        final(out)@ == old(out)@ + quoted(s@),
{
    let ghost start = out@;
    let cs = crate::text::chars_of(s);
    out.push('"');
    let mut i: usize = 0;
    while i < cs.len()
        invariant
            i <= cs@.len(),
            cs@ == s@,
            out@ == start + seq!['"'] + escape_text(s@.subrange(0, i as int)),
        decreases cs.len() - i,
    {
        let ghost before = out@;
        write_escaped_char(out, cs[i]);
        assert(s@.subrange(0, i + 1).drop_last() =~= s@.subrange(0, i as int));
        i += 1;
        assert(out@ =~= start + seq!['"'] + escape_text(s@.subrange(0, i as int)));
    }
    assert(s@.subrange(0, cs@.len() as int) =~= s@);
    out.push('"');
    assert(out@ =~= start + quoted(s@));
}

/// The model of a sequence of items has one entry per item.
pub proof fn lemma_items_model_len(items: Seq<JsonValue>)
    ensures
        items_model(items).len() == items.len(),
    decreases items.len(),
{
    if items.len() > 0 {
        lemma_items_model_len(items.subrange(0, items.len() - 1));
    }
}

/// The model of a sequence of members has one entry per member.
pub proof fn lemma_members_model_len(members: Seq<(String, JsonValue)>)
    ensures
        members_model(members).len() == members.len(),
    decreases members.len(),
{
    if members.len() > 0 {
        lemma_members_model_len(members.subrange(0, members.len() - 1));
    }
}

/// Entry `i` of the items' model is the model of item `i`.
pub proof fn lemma_items_model_index(items: Seq<JsonValue>, i: int)
    requires
        0 <= i < items.len(),
    ensures
        items_model(items)[i] == value_model(items[i]),
    decreases items.len(),
{
    lemma_items_model_len(items.subrange(0, items.len() - 1));
    if i < items.len() - 1 {
        lemma_items_model_index(items.subrange(0, items.len() - 1), i);
    }
}

/// Entry `i` of the members' model is the model of member `i`.
pub proof fn lemma_members_model_index(members: Seq<(String, JsonValue)>, i: int)
    requires
        0 <= i < members.len(),
    ensures
        members_model(members)[i] == (members[i].0@, value_model(members[i].1)),
    decreases members.len(),
{
    lemma_members_model_len(members.subrange(0, members.len() - 1));
    if i < members.len() - 1 {
        lemma_members_model_index(members.subrange(0, members.len() - 1), i);
    }
}

/// Extending the items by one extends their model by its model.
pub proof fn lemma_items_model_step(items: Seq<JsonValue>, i: int)
    requires
        0 <= i < items.len(),
    ensures
        items_model(items.subrange(0, i + 1)) == items_model(items.subrange(0, i)).push(
            value_model(items[i]),
        ),
{
    let next = items.subrange(0, i + 1);
    assert(next.subrange(0, next.len() - 1) =~= items.subrange(0, i));
    assert(next[next.len() - 1] == items[i]);
}

/// Extending the members by one extends their model by its model.
pub proof fn lemma_members_model_step(members: Seq<(String, JsonValue)>, i: int)
    requires
        0 <= i < members.len(),
    ensures
        members_model(members.subrange(0, i + 1)) == members_model(members.subrange(0, i)).push(
            (members[i].0@, value_model(members[i].1)),
        ),
{
    let next = members.subrange(0, i + 1);
    assert(next.subrange(0, next.len() - 1) =~= members.subrange(0, i));
    assert(next[next.len() - 1] == members[i]);
}

impl JsonValue {
    /// A copy of this value.
    #[verifier::loop_isolation(false)]
    pub fn duplicate(&self) -> (r: JsonValue)
        ensures
            r@ == self@,
        decreases self,
    {
        match self {
            JsonValue::Null => JsonValue::Null,
            JsonValue::Bool(b) => JsonValue::Bool(*b),
            JsonValue::Number(n) => JsonValue::Number(n.clone()),
            JsonValue::Str(s) => JsonValue::Str(s.clone()),
            JsonValue::Array(items) => {
                let mut out: Vec<JsonValue> = Vec::new();
                let mut i: usize = 0;
                while i < items.len()
                    invariant
                        i <= items@.len(),
                        out@.len() == i,
                        items_model(out@) == items_model(items@.subrange(0, i as int)),
                    decreases items.len() - i,
                {
                    proof {
                        assert(*self matches JsonValue::Array(_));
                        assert(self->Array_0 == *items);
                        assert(decreases_to!(*self => self->Array_0));
                        assert(decreases_to!(*items => items[i as int]));
                        lemma_items_model_step(items@, i as int);
                    }
                    let d = items[i].duplicate();
                    let ghost prev = out@;
                    out.push(d);
                    proof {
                        lemma_items_model_step(out@, i as int);
                        assert(out@.subrange(0, i as int) =~= prev);
                        assert(out@.subrange(0, i + 1) =~= out@);
                    }
                    i += 1;
                }
                assert(items@.subrange(0, items@.len() as int) =~= items@);
                JsonValue::Array(out)
            },
            JsonValue::Object(members) => {
                let mut out: Vec<(String, JsonValue)> = Vec::new();
                let mut i: usize = 0;
                while i < members.len()
                    invariant
                        i <= members@.len(),
                        out@.len() == i,
                        members_model(out@) == members_model(members@.subrange(0, i as int)),
                    decreases members.len() - i,
                {
                    proof {
                        assert(*self matches JsonValue::Object(_));
                        assert(self->Object_0 == *members);
                        assert(decreases_to!(*self => self->Object_0));
                        assert(decreases_to!(*members => members[i as int]));
                        lemma_members_model_step(members@, i as int);
                    }
                    let d = members[i].1.duplicate();
                    let k = members[i].0.clone();
                    let ghost prev = out@;
                    out.push((k, d));
                    proof {
                        lemma_members_model_step(out@, i as int);
                        assert(out@.subrange(0, i as int) =~= prev);
                        assert(out@.subrange(0, i + 1) =~= out@);
                    }
                    i += 1;
                }
                assert(members@.subrange(0, members@.len() as int) =~= members@);
                JsonValue::Object(out)
            },
        }
    }

    /// A JSON string value.
    pub fn string(s: &str) -> (v: JsonValue)
        ensures
            v@ == JsonModel::Str(s@),
    {
        JsonValue::Str(crate::text::string_of(s))
    }

    /// An empty object.
    pub fn empty_object() -> (v: JsonValue)
        ensures
            v@ == JsonModel::Object(Seq::empty()),
    {
        let v = JsonValue::Object(Vec::new());
        assert(members_model(Seq::<(String, JsonValue)>::empty()) =~= Seq::empty());
        v
    }

    /// The object `{"type":"object","properties":{}}`: the parameter
    /// schema of a tool that takes no arguments.
    pub fn empty_parameters() -> (v: JsonValue)
        ensures
            v@ == empty_parameters_model(),
    {
        let mut members: Vec<(String, JsonValue)> = Vec::new();
        members.push((crate::text::string_of("type"), JsonValue::string("object")));
        members.push((crate::text::string_of("properties"), JsonValue::empty_object()));
        let v = JsonValue::Object(members);
        proof {
            let m = members@;
            lemma_members_model_step(m, 0);
            lemma_members_model_step(m, 1);
            assert(m.subrange(0, 0) =~= Seq::<(String, JsonValue)>::empty());
            assert(m.subrange(0, 2) =~= m);
            assert(members_model(m) =~= empty_parameters_model()->Object_0);
        }
        v
    }

    /// Whether this value is an object.
    pub fn is_object(&self) -> (b: bool)
        ensures
            b == is_object_model(self@),
    {
        match self {
            JsonValue::Object(_) => true,
            _ => false,
        }
    }

    /// Whether this value is an object with a member under `key`.
    pub fn has_key(&self, key: &str) -> (b: bool)
        ensures
            b == model_has_key(self@, key@),
    {
        self.get(key).is_some()
    }

    /// The string items of an array value, in order (`[]` for other values).
    #[verifier::loop_isolation(false)]
    pub fn string_items(&self) -> (r: Vec<String>)
        ensures
            r@.map_values(|s: String| s@) == (match self@ {
                JsonModel::Array(items) => string_items(items),
                _ => Seq::empty(),
            }),
    {
        let mut out: Vec<String> = Vec::new();
        match self {
            JsonValue::Array(items) => {
                let mut i: usize = 0;
                while i < items.len()
                    invariant
                        i <= items@.len(),
                        out@.map_values(|s: String| s@) == string_items(items_model(items@.subrange(0, i as int))),
                    decreases items.len() - i,
                {
                    proof {
                        lemma_items_model_step(items@, i as int);
                        let prev = items_model(items@.subrange(0, i as int));
                        assert(prev.push(value_model(items@[i as int])).drop_last() =~= prev);
                    }
                    let ghost before = out@;
                    match &items[i] {
                        JsonValue::Str(s) => {
                            out.push(s.clone());
                            assert(out@.map_values(|s: String| s@) =~= before.map_values(|s: String| s@).push(s@));
                        },
                        _ => {},
                    }
                    i += 1;
                }
                assert(items@.subrange(0, items@.len() as int) =~= items@);
            },
            _ => {
                assert(out@.map_values(|s: String| s@) =~= Seq::empty());
            },
        }
        out
    }

    /// The member keys of an object value, in order (`[]` for other values).
    #[verifier::loop_isolation(false)]
    pub fn keys(&self) -> (r: Vec<String>)
        ensures
            r@.map_values(|s: String| s@) == (match self@ {
                JsonModel::Object(members) => members.map_values(|m: (Seq<char>, JsonModel)| m.0),
                _ => Seq::empty(),
            }),
    {
        let mut out: Vec<String> = Vec::new();
        match self {
            JsonValue::Object(members) => {
                proof { lemma_members_model_all(members@); }
                let mut i: usize = 0;
                while i < members.len()
                    invariant
                        i <= members@.len(),
                        out@.len() == i,
                        forall|j: int| 0 <= j < i ==> #[trigger] out@[j]@ == members@[j].0@,
                    decreases members.len() - i,
                {
                    out.push(members[i].0.clone());
                    i += 1;
                }
                assert(out@.map_values(|s: String| s@) =~= members_model(members@).map_values(
                    |m: (Seq<char>, JsonModel)| m.0,
                ));
            },
            _ => {
                assert(out@.map_values(|s: String| s@) =~= Seq::empty());
            },
        }
        out
    }

    /// Writes the compact JSON text of this value to `out`.
    #[verifier::loop_isolation(false)]
    #[verifier::spinoff_prover]
    #[verifier::rlimit(60)]
    pub fn write_to(&self, out: &mut String)
        ensures
            final(out)@ == old(out)@ + json_text(self@),
        decreases self,
    {
        let ghost start = out@;
        match self {
            JsonValue::Null => {
                push_str(out, "null");
                proof { reveal_strlit("null"); }
            },
            JsonValue::Bool(b) => {
                if *b {
                    push_str(out, "true");
                    proof { reveal_strlit("true"); }
                } else {
                    push_str(out, "false");
                    proof { reveal_strlit("false"); }
                }
            },
            JsonValue::Number(n) => {
                push_str(out, n.as_str());
            },
            JsonValue::Str(s) => {
                write_quoted(out, s.as_str());
            },
            JsonValue::Array(items) => {
                out.push('[');
                let ghost mid = out@;
                let mut i: usize = 0;
                while i < items.len()
                    invariant
                        i <= items@.len(),
                        out@ == mid + items_text(items_model(items@.subrange(0, i as int))),
                    decreases items.len() - i,
                {
                    proof {
                        assert(*self matches JsonValue::Array(_));
                        assert(self->Array_0 == *items);
                        assert(decreases_to!(*self => self->Array_0));
                        assert(decreases_to!(*items => items[i as int]));
                        lemma_items_model_len(items@.subrange(0, i as int));
                        lemma_items_model_step(items@, i as int);
                    }
                    if i > 0 {
                        out.push(',');
                    }
                    items[i].write_to(out);
                    proof {
                        let prev = items_model(items@.subrange(0, i as int));
                        let ms = items_model(items@.subrange(0, i + 1));
                        assert(ms.subrange(0, ms.len() - 1) =~= prev);
                        if i == 0 {
                            assert(ms =~= seq![value_model(items@[0])]);
                        }
                    }
                    i += 1;
                    assert(out@ =~= mid + items_text(items_model(items@.subrange(0, i as int))));
                }
                assert(items@.subrange(0, items@.len() as int) =~= items@);
                out.push(']');
            },
            JsonValue::Object(members) => {
                out.push('{');
                let ghost mid = out@;
                let mut i: usize = 0;
                while i < members.len()
                    invariant
                        i <= members@.len(),
                        out@ == mid + members_text(members_model(members@.subrange(0, i as int))),
                    decreases members.len() - i,
                {
                    proof {
                        assert(*self matches JsonValue::Object(_));
                        assert(self->Object_0 == *members);
                        assert(decreases_to!(*self => self->Object_0));
                        assert(decreases_to!(*members => members[i as int]));
                        lemma_members_model_len(members@.subrange(0, i as int));
                        lemma_members_model_step(members@, i as int);
                    }
                    if i > 0 {
                        out.push(',');
                    }
                    write_quoted(out, members[i].0.as_str());
                    out.push(':');
                    members[i].1.write_to(out);
                    proof {
                        let prev = members_model(members@.subrange(0, i as int));
                        let ms = members_model(members@.subrange(0, i + 1));
                        assert(ms.subrange(0, ms.len() - 1) =~= prev);
                        if i == 0 {
                            assert(ms =~= seq![(members@[0].0@, value_model(members@[0].1))]);
                        }
                    }
                    i += 1;
                    assert(out@ =~= mid + members_text(members_model(members@.subrange(0, i as int))));
                }
                assert(members@.subrange(0, members@.len() as int) =~= members@);
                out.push('}');
            },
        }
        assert(out@ =~= start + json_text(self@));
    }

    /// The compact JSON text of this value.
    pub fn to_json_text(&self) -> (s: String)
        ensures
            s@ == json_text(self@),
    {
        let mut s = String::new();
        self.write_to(&mut s);
        assert(s@ =~= json_text(self@));
        s
    }

    /// The value stored under `key`, when this is an object holding that
    /// key (the first member with it).
    #[verifier::loop_isolation(false)]
    pub fn get(&self, key: &str) -> (r: Option<&JsonValue>)
        ensures
            match r {
                Some(v) => model_get(self@, key@) == Some(v@),
                None => model_get(self@, key@).is_none(),
            },
    {
        match self {
            JsonValue::Object(members) => {
                proof { lemma_members_model_len(members@); }
                let ghost ms = members_model(members@);
                let mut i: usize = 0;
                while i < members.len()
                    invariant
                        i <= members@.len(),
                        ms == members_model(members@),
                        ms.len() == members@.len(),
                        forall|j: int| 0 <= j < i ==> #[trigger] ms[j].0 != key@,
                    decreases members.len() - i,
                {
                    proof { lemma_members_model_index(members@, i as int); }
                    if str_eq(members[i].0.as_str(), key) {
                        proof {
                            lemma_first_key(ms, key@, i as int);
                            assert(self@ == JsonModel::Object(ms));
                        }
                        return Some(&members[i].1);
                    }
                    i += 1;
                }
                proof { lemma_no_key(ms, key@); }
                None
            },
            _ => None,
        }
    }
}

/// The index of the first member with the given key (the length when there
/// is none).
pub open spec fn first_key(members: Seq<(Seq<char>, JsonModel)>, key: Seq<char>) -> int
    decreases members.len(),
{
    if members.len() == 0 {
        0
    } else if members[0].0 == key {
        0
    } else {
        1 + first_key(members.drop_first(), key)
    }
}

/// The value stored under `key` in an object model: the first member with
/// that key. `None` for other values or when no member has the key.
pub open spec fn model_get(v: JsonModel, key: Seq<char>) -> Option<JsonModel> {
    match v {
        JsonModel::Object(members) => {
            let i = first_key(members, key);
            if i < members.len() {
                Some(members[i].1)
            } else {
                None
            }
        },
        _ => None,
    }
}

/// Whether an object model has a member with the given key.
pub open spec fn model_has_key(v: JsonModel, key: Seq<char>) -> bool {
    model_get(v, key).is_some()
}

/// When the first `i` members lack the key and member `i` has it, the
/// first member with the key is member `i`.
pub proof fn lemma_first_key(ms: Seq<(Seq<char>, JsonModel)>, key: Seq<char>, i: int)
    requires
        0 <= i < ms.len(),
        ms[i].0 == key,
        forall|j: int| 0 <= j < i ==> #[trigger] ms[j].0 != key,
    ensures
        first_key(ms, key) == i,
    decreases i,
{
    if i > 0 {
        assert(ms[0].0 != key);
        lemma_first_key(ms.drop_first(), key, i - 1);
    }
}

/// When no member has the key, the first index is the length.
pub proof fn lemma_no_key(ms: Seq<(Seq<char>, JsonModel)>, key: Seq<char>)
    requires
        forall|j: int| 0 <= j < ms.len() ==> #[trigger] ms[j].0 != key,
    ensures
        first_key(ms, key) == ms.len(),
    decreases ms.len(),
{
    if ms.len() > 0 {
        assert(ms[0].0 != key);
        lemma_no_key(ms.drop_first(), key);
    }
}

/// The first-key index never exceeds the length.
pub proof fn lemma_first_key_bound(ms: Seq<(Seq<char>, JsonModel)>, key: Seq<char>)
    ensures
        0 <= first_key(ms, key) <= ms.len(),
        first_key(ms, key) < ms.len() ==> ms[first_key(ms, key)].0 == key,
    decreases ms.len(),
{
    if ms.len() > 0 && ms[0].0 != key {
        lemma_first_key_bound(ms.drop_first(), key);
    }
}

/// The model of a member list, entry by entry.
pub proof fn lemma_members_model_all(members: Seq<(String, JsonValue)>)
    ensures
        members_model(members) == Seq::new(
            members.len(),
            |i: int| (members[i].0@, value_model(members[i].1)),
        ),
{
    lemma_members_model_len(members);
    assert forall|i: int| 0 <= i < members.len() implies #[trigger] members_model(members)[i] == (
    members[i].0@, value_model(members[i].1)) by {
        lemma_members_model_index(members, i);
    }
    assert(members_model(members) =~= Seq::new(
        members.len(),
        |i: int| (members[i].0@, value_model(members[i].1)),
    ));
}

/// The model of an item list, entry by entry.
pub proof fn lemma_items_model_all(items: Seq<JsonValue>)
    ensures
        items_model(items) == Seq::new(items.len(), |i: int| value_model(items[i])),
{
    lemma_items_model_len(items);
    assert forall|i: int| 0 <= i < items.len() implies #[trigger] items_model(items)[i]
        == value_model(items[i]) by {
        lemma_items_model_index(items, i);
    }
    assert(items_model(items) =~= Seq::new(items.len(), |i: int| value_model(items[i])));
}

/// Whether a model is an object.
pub open spec fn is_object_model(v: JsonModel) -> bool {
    v matches JsonModel::Object(_)
}

/// The string items of an array, in order (other items are skipped).
pub open spec fn string_items(items: Seq<JsonModel>) -> Seq<Seq<char>>
    decreases items.len(),
{
    if items.len() == 0 {
        Seq::empty()
    } else {
        let rest = string_items(items.drop_last());
        match items.last() {
            JsonModel::Str(s) => rest.push(s),
            _ => rest,
        }
    }
}

/// The model `{"type":"object","properties":{}}`.
pub open spec fn empty_parameters_model() -> JsonModel {
    JsonModel::Object(seq![
        ("type"@, JsonModel::Str("object"@)),
        ("properties"@, JsonModel::Object(Seq::empty())),
    ])
}

} // verus!
