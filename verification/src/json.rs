//! JSON values, which requests and responses carry as their payload.

use crate::text;
use vstd::prelude::*;

verus! {

/// A JSON number. One that is no 64-bit integer is kept as the bits of its
/// IEEE 754 double.
#[derive(Debug, Clone, Copy, PartialEq, Eq, Structural)]
pub enum Number {
    Unsigned(u64),
    Signed(i64),
    DoubleBits(u64),
}

/// A JSON value. An object is the list of its members in the order in which
/// they were added; a name occurs in it at most once unless the list was
/// written out by hand.
#[derive(Debug)]
pub enum Value {
    Null,
    Bool(bool),
    Number(Number),
    String(String),
    Array(Vec<Value>),
    Object(Vec<(String, Value)>),
}

/// The mathematical model of a [`Value`].
pub enum Json {
    Null,
    Bool(bool),
    Number(Number),
    String(Seq<char>),
    Array(Seq<Json>),
    Object(Seq<(Seq<char>, Json)>),
}

impl View for Value {
    type V = Json;

    open spec fn view(&self) -> Json {
        model(*self)
    }
}

pub open spec fn model(value: Value) -> Json
    decreases value,
{
    match value {
        Value::Null => Json::Null,
        Value::Bool(b) => Json::Bool(b),
        Value::Number(n) => Json::Number(n),
        Value::String(s) => Json::String(s@),
        Value::Array(items) => Json::Array(
            Seq::new(
                items@.len(),
                |i: int|
                    if 0 <= i < items@.len() {
                        model(items@[i])
                    } else {
                        Json::Null
                    },
            ),
        ),
        Value::Object(members) => Json::Object(
            Seq::new(
                members@.len(),
                |i: int|
                    if 0 <= i < members@.len() {
                        (members@[i].0@, model(members@[i].1))
                    } else {
                        (Seq::<char>::empty(), Json::Null)
                    },
            ),
        ),
    }
}

/// The first member called `name` is the one at `i`.
pub open spec fn is_first_member(
    members: Seq<(Seq<char>, Json)>,
    name: Seq<char>,
    i: int,
) -> bool {
    &&& 0 <= i < members.len()
    &&& members[i].0 == name
    &&& forall|j: int| 0 <= j < i ==> members[j].0 != name
}

/// The value of the first member called `name`.
pub open spec fn member(members: Seq<(Seq<char>, Json)>, name: Seq<char>) -> Option<Json> {
    if exists|i: int| is_first_member(members, name, i) {
        Some(members[choose|i: int| is_first_member(members, name, i)].1)
    } else {
        None
    }
}

/// The members after `name` was set to `value`: in place if there was such a
/// member, at the end otherwise.
pub open spec fn with_member(
    members: Seq<(Seq<char>, Json)>,
    name: Seq<char>,
    value: Json,
) -> Seq<(Seq<char>, Json)> {
    if exists|i: int| is_first_member(members, name, i) {
        members.update(choose|i: int| is_first_member(members, name, i), (name, value))
    } else {
        members.push((name, value))
    }
}

impl Json {
    /// The member called `name`, for an object that has one.
    pub open spec fn field(self, name: Seq<char>) -> Option<Json> {
        match self {
            Json::Object(members) => member(members, name),
            _ => None,
        }
    }

    /// The text of a string value.
    pub open spec fn text(self) -> Option<Seq<char>> {
        match self {
            Json::String(s) => Some(s),
            _ => None,
        }
    }

    /// Whether a member can be set: null counts as an object without members.
    pub open spec fn accepts_members(self) -> bool {
        self is Null || self is Object
    }

    /// The object with `name` set to `value`.
    pub open spec fn with(self, name: Seq<char>, value: Json) -> Json {
        match self {
            Json::Object(members) => Json::Object(with_member(members, name, value)),
            _ => Json::Object(seq![(name, value)]),
        }
    }
}

/// An object with one member.
pub open spec fn object1(name: Seq<char>, value: Json) -> Json {
    Json::Object(seq![(name, value)])
}

/// An object with two members.
pub open spec fn object2(n1: Seq<char>, v1: Json, n2: Seq<char>, v2: Json) -> Json {
    Json::Object(seq![(n1, v1), (n2, v2)])
}

/// An object with three members.
pub open spec fn object3(
    n1: Seq<char>,
    v1: Json,
    n2: Seq<char>,
    v2: Json,
    n3: Seq<char>,
    v3: Json,
) -> Json {
    Json::Object(seq![(n1, v1), (n2, v2), (n3, v3)])
}

/// An object with four members.
pub open spec fn object4(
    n1: Seq<char>,
    v1: Json,
    n2: Seq<char>,
    v2: Json,
    n3: Seq<char>,
    v3: Json,
    n4: Seq<char>,
    v4: Json,
) -> Json {
    Json::Object(seq![(n1, v1), (n2, v2), (n3, v3), (n4, v4)])
}

/// The model of an optional value.
pub open spec fn opt_model(o: Option<Value>) -> Option<Json> {
    match o {
        Some(v) => Some(v@),
        None => None,
    }
}

/// A copy of an optional value.
pub fn copy_opt(o: &Option<Value>) -> (r: Option<Value>)
    ensures
        opt_model(r) == opt_model(*o),
{
    match o {
        Some(v) => Some(v.clone()),
        None => None,
    }
}

impl Clone for Value {
    fn clone(&self) -> (r: Value)
        ensures
            r@ == self@,
        decreases self,
    {
        match self {
            Value::Null => Value::Null,
            Value::Bool(b) => Value::Bool(*b),
            Value::Number(n) => Value::Number(*n),
            Value::String(s) => Value::String(s.clone()),
            Value::Array(items) => {
                let mut copy: Vec<Value> = Vec::new();
                let mut i: usize = 0;
                while i < items.len()
                    invariant
                        i <= items.len(),
                        copy@.len() == i,
                        *self == Value::Array(*items),
                        forall|j: int| 0 <= j < i ==> model(copy@[j]) == model(items@[j]),
                    decreases items.len() - i,
                {
                    assert(decreases_to!(*self => self->Array_0@[i as int]));
                    let item = items[i].clone();
                    copy.push(item);
                    i = i + 1;
                }
                let r = Value::Array(copy);
                assert(r@->Array_0 =~= self@->Array_0);
                r
            },
            Value::Object(members) => {
                let mut copy: Vec<(String, Value)> = Vec::new();
                let mut i: usize = 0;
                while i < members.len()
                    invariant
                        i <= members.len(),
                        copy@.len() == i,
                        *self == Value::Object(*members),
                        forall|j: int|
                            0 <= j < i ==> (#[trigger] copy@[j]).0@ == members@[j].0@ && model(
                                copy@[j].1,
                            ) == model(members@[j].1),
                    decreases members.len() - i,
                {
                    assert(decreases_to!(*self => self->Object_0@[i as int].1));
                    let value = members[i].1.clone();
                    copy.push((members[i].0.clone(), value));
                    i = i + 1;
                }
                let r = Value::Object(copy);
                assert(r@->Object_0 =~= self@->Object_0);
                r
            },
        }
    }
}

impl Value {
    /// A string value.
    pub fn text(s: &str) -> (r: Value)
        ensures
            r@ == Json::String(s@),
    {
        Value::String(s.to_string())
    }

    /// An object without members.
    pub fn empty_object() -> (r: Value)
        ensures
            r@ == Json::Object(Seq::empty()),
    {
        let r = Value::Object(Vec::new());
        assert(r@->Object_0 =~= Seq::empty());
        r
    }

    /// An object with one member.
    pub fn object1(name: &str, value: Value) -> (r: Value)
        ensures
            r@ == object1(name@, value@),
    {
        let mut members: Vec<(String, Value)> = Vec::new();
        members.push((name.to_string(), value));
        let r = Value::Object(members);
        assert(r@->Object_0 =~= seq![(name@, value@)]);
        r
    }

    /// An object with two members.
    pub fn object2(n1: &str, v1: Value, n2: &str, v2: Value) -> (r: Value)
        ensures
            r@ == object2(n1@, v1@, n2@, v2@),
    {
        let mut members: Vec<(String, Value)> = Vec::new();
        members.push((n1.to_string(), v1));
        members.push((n2.to_string(), v2));
        let r = Value::Object(members);
        assert(r@->Object_0 =~= seq![(n1@, v1@), (n2@, v2@)]);
        r
    }

    /// An object with three members.
    pub fn object3(n1: &str, v1: Value, n2: &str, v2: Value, n3: &str, v3: Value) -> (r: Value)
        ensures
            r@ == object3(n1@, v1@, n2@, v2@, n3@, v3@),
    {
        let mut members: Vec<(String, Value)> = Vec::new();
        members.push((n1.to_string(), v1));
        members.push((n2.to_string(), v2));
        members.push((n3.to_string(), v3));
        let r = Value::Object(members);
        assert(r@->Object_0 =~= seq![(n1@, v1@), (n2@, v2@), (n3@, v3@)]);
        r
    }

    /// An object with four members.
    pub fn object4(
        n1: &str,
        v1: Value,
        n2: &str,
        v2: Value,
        n3: &str,
        v3: Value,
        n4: &str,
        v4: Value,
    ) -> (r: Value)
        ensures
            r@ == object4(n1@, v1@, n2@, v2@, n3@, v3@, n4@, v4@),
    {
        let mut members: Vec<(String, Value)> = Vec::new();
        members.push((n1.to_string(), v1));
        members.push((n2.to_string(), v2));
        members.push((n3.to_string(), v3));
        members.push((n4.to_string(), v4));
        let r = Value::Object(members);
        assert(r@->Object_0 =~= seq![(n1@, v1@), (n2@, v2@), (n3@, v3@), (n4@, v4@)]);
        r
    }

    /// The member of an object called `name`.
    pub fn get(&self, name: &str) -> (r: Option<&Value>)
        ensures
            match r {
                Some(v) => self@.field(name@) == Some(v@),
                None => self@.field(name@) is None,
            },
    {
        match self {
            Value::Object(members) => {
                let ghost model_members = self@->Object_0;
                let mut i: usize = 0;
                while i < members.len()
                    invariant
                        i <= members.len(),
                        self@ == Json::Object(model_members),
                        model_members.len() == members@.len(),
                        forall|j: int|
                            0 <= j < members@.len() ==> (#[trigger] model_members[j]) == (
                                members@[j].0@,
                                model(members@[j].1),
                            ),
                        forall|j: int| 0 <= j < i ==> (#[trigger] model_members[j]).0 != name@,
                    decreases members.len() - i,
                {
                    if text::str_eq(members[i].0.as_str(), name) {
                        assert(is_first_member(model_members, name@, i as int));
                        return Some(&members[i].1);
                    }
                    i = i + 1;
                }
                None
            },
            _ => None,
        }
    }

    /// The text of a string value.
    pub fn as_str(&self) -> (r: Option<&str>)
        ensures
            match r {
                Some(s) => self@.text() == Some(s@),
                None => self@.text() is None,
            },
    {
        match self {
            Value::String(s) => Some(s.as_str()),
            _ => None,
        }
    }

    /// The object with `name` set to `value`. Null counts as an empty object.
    pub fn with(self, name: &str, value: Value) -> (r: Value)
        requires
            self@.accepts_members(),
        ensures
            r@ == self@.with(name@, value@),
    {
        match self {
            Value::Object(mut members) => {
                let ghost model_members = self@->Object_0;
                let ghost before = members@;
                let mut i: usize = 0;
                while i < members.len()
                    invariant
                        i <= members.len(),
                        members@ == before,
                        self@ == Json::Object(model_members),
                        model_members.len() == members@.len(),
                        forall|j: int|
                            0 <= j < members@.len() ==> (#[trigger] model_members[j]) == (
                                members@[j].0@,
                                model(members@[j].1),
                            ),
                        forall|j: int| 0 <= j < i ==> (#[trigger] model_members[j]).0 != name@,
                    decreases members.len() - i,
                {
                    if text::str_eq(members[i].0.as_str(), name) {
                        assert(is_first_member(model_members, name@, i as int));
                        members.set(i, (name.to_string(), value));
                        let r = Value::Object(members);
                        assert(r@->Object_0 =~= with_member(model_members, name@, value@));
                        return r;
                    }
                    i = i + 1;
                }
                members.push((name.to_string(), value));
                let r = Value::Object(members);
                assert(r@->Object_0 =~= with_member(model_members, name@, value@));
                r
            },
            _ => Value::object1(name, value),
        }
    }
}

/// The texts in the result of reading JSON.
pub open spec fn text_result(r: Result<String, String>) -> Result<Seq<char>, Seq<char>> {
    match r {
        Ok(s) => Ok(s@),
        Err(e) => Err(e@),
    }
}

/// The texts in the result of looking for a string in JSON.
pub open spec fn opt_text_result(r: Result<Option<String>, String>) -> Result<
    Option<Seq<char>>,
    Seq<char>,
> {
    match r {
        Ok(Some(s)) => Ok(Some(s@)),
        Ok(None) => Ok(None),
        Err(e) => Err(e@),
    }
}

/// What `serde_json` makes of bytes that it reads as a value and shows again, or
/// the text of its error.
pub uninterp spec fn shown(bytes: Seq<u8>) -> Result<Seq<char>, Seq<char>>;

/// What `serde_json` finds as the string member of that name in bytes that it
/// reads as a value, or the text of its error.
pub uninterp spec fn string_member(bytes: Seq<u8>, name: Seq<char>) -> Result<
    Option<Seq<char>>,
    Seq<char>,
>;

/// Calls `serde_json::from_slice` for a `serde_json::Value` and shows the value
/// with `to_string`. The result depends on the bytes alone.
#[verifier::external_body]
pub(crate) fn show_bytes(bytes: &[u8]) -> (r: Result<String, String>)
    ensures
        text_result(r) == shown(bytes@),
{
    match serde_json::from_slice::<serde_json::Value>(bytes) {
        Ok(value) => Ok(value.to_string()),
        Err(e) => Err(e.to_string()),
    }
}

/// Calls `serde_json::from_slice` for a `serde_json::Value`, and its `get` and
/// `as_str`. The result depends on the bytes and the name alone.
#[verifier::external_body]
pub(crate) fn find_string(bytes: &[u8], name: &str) -> (r: Result<Option<String>, String>)
    ensures
        opt_text_result(r) == string_member(bytes@, name@),
{
    match serde_json::from_slice::<serde_json::Value>(bytes) {
        Ok(value) => Ok(value.get(name).and_then(|m| m.as_str()).map(|s| s.to_string())),
        Err(e) => Err(e.to_string()),
    }
}

/// What was set under a name is what is found under it.
pub proof fn law_set_then_get(value: Json, name: Seq<char>, inner: Json)
    requires
        value.accepts_members(),
    ensures
        value.with(name, inner).field(name) == Some(inner),
{
    match value {
        Json::Object(members) => {
            if exists|i: int| is_first_member(members, name, i) {
                let i = choose|i: int| is_first_member(members, name, i);
                assert(is_first_member(with_member(members, name, inner), name, i));
            } else {
                let after = with_member(members, name, inner);
                assert forall|j: int| 0 <= j < members.len() implies members[j].0 != name by {
                    lemma_present_has_first(members, name, j);
                }
                assert(is_first_member(after, name, members.len() as int));
            }
        },
        _ => {
            assert(is_first_member(seq![(name, inner)], name, 0));
        },
    }
}

/// A name that occurs has a first occurrence.
proof fn lemma_present_has_first(members: Seq<(Seq<char>, Json)>, name: Seq<char>, at: int)
    requires
        0 <= at < members.len(),
    ensures
        members[at].0 == name ==> exists|i: int| is_first_member(members, name, i),
    decreases at,
{
    if members[at].0 == name {
        if exists|j: int| 0 <= j < at && members[j].0 == name {
            let j = choose|j: int| 0 <= j < at && members[j].0 == name;
            lemma_present_has_first(members, name, j);
        } else {
            assert(is_first_member(members, name, at));
        }
    }
}

/// A member of an object is found under its name if no member before it has the
/// same name; under a name that no member has, and in anything but an object,
/// nothing is found.
pub proof fn law_member_is_found(members: Seq<(Seq<char>, Json)>, i: int, name: Seq<char>, other: Json)
    ensures
        0 <= i < members.len() && (forall|j: int|
            0 <= j < i ==> (#[trigger] members[j]).0 != members[i].0) ==> Json::Object(
            members,
        ).field(members[i].0) == Some(members[i].1),
        (forall|j: int| 0 <= j < members.len() ==> (#[trigger] members[j]).0 != name)
            ==> Json::Object(members).field(name) is None,
        !(other is Object) ==> other.field(name) is None,
{
    if 0 <= i < members.len() && (forall|j: int|
        0 <= j < i ==> (#[trigger] members[j]).0 != members[i].0) {
        let name = members[i].0;
        assert(is_first_member(members, name, i));
        let k = choose|k: int| is_first_member(members, name, k);
        assert(k == i);
    }
}

/// Setting a member leaves what is found under every other name as it was.
pub proof fn law_set_keeps_the_others(
    members: Seq<(Seq<char>, Json)>,
    name: Seq<char>,
    inner: Json,
    other: Seq<char>,
)
    requires
        name != other,
    ensures
        Json::Object(members).with(name, inner).field(other) == Json::Object(members).field(other),
        Json::Null.with(name, inner).field(other) is None,
{
    let after = with_member(members, name, inner);
    if exists|i: int| is_first_member(members, other, i) {
        let i = choose|i: int| is_first_member(members, other, i);
        assert(is_first_member(after, other, i));
        law_member_is_found(members, i, other, Json::Null);
        law_member_is_found(after, i, other, Json::Null);
        assert(after[i] == members[i]);
    } else {
        assert forall|i: int| !is_first_member(after, other, i) by {
            if is_first_member(after, other, i) {
                assert(after[i].0 == other);
                if i < members.len() {
                    lemma_present_has_first(members, other, i);
                }
            }
        }
    }
}

/// The text of a string value is that text, and nothing else has one.
pub proof fn law_only_strings_have_text(s: Seq<char>, value: Json)
    ensures
        Json::String(s).text() == Some(s),
        !(value is String) ==> value.text() is None,
{
}

/// A value and its model hold the same, all the way down.
pub proof fn law_model_keeps_everything(value: Value, i: int)
    ensures
        value is Null ==> value@ == Json::Null,
        value matches Value::Bool(b) ==> value@ == Json::Bool(b),
        value matches Value::Number(n) ==> value@ == Json::Number(n),
        value matches Value::String(s) ==> value@ == Json::String(s@),
        value matches Value::Array(items) ==> value@ is Array && value@->Array_0.len()
            == items@.len() && (0 <= i < items@.len() ==> value@->Array_0[i] == items@[i]@),
        value matches Value::Object(members) ==> value@ is Object && value@->Object_0.len()
            == members@.len() && (0 <= i < members@.len() ==> value@->Object_0[i] == (
            members@[i].0@,
            members@[i].1@,
        )),
{
}

/// A member that is set is found, and a member of another name is found as it was.
pub proof fn law_set_member_is_found(
    value: Value,
    name: &str,
    inner: Value,
    r: Value,
    found: Option<&Value>,
    other: &str,
    before: Option<&Value>,
    after: Option<&Value>,
)
    requires
        value@ is Null || value@ is Object,
        call_ensures(Value::with, (value, name, inner), r),
        call_ensures(Value::get, (&r, name), found),
        call_ensures(Value::get, (&value, other), before),
        call_ensures(Value::get, (&r, other), after),
        other@ != name@,
    ensures
        found matches Some(v) && v@ == inner@,
        before is Some <==> after is Some,
        before matches Some(v) ==> after->0@ == v@,
{
    law_set_then_get(value@, name@, inner@);
    let members = match value@ {
        Json::Object(members) => members,
        _ => Seq::empty(),
    };
    law_set_keeps_the_others(members, name@, inner@, other@);
}

/// An object has the members that it is made of, in their order, and a text says what it
/// is made of.
pub proof fn law_values_are_made_of_what_they_are_given(
    n1: &str,
    v1: Value,
    n2: &str,
    v2: Value,
    n3: &str,
    v3: Value,
    n4: &str,
    v4: Value,
    empty: Value,
    one: Value,
    two: Value,
    three: Value,
    four: Value,
    text: Value,
    said: Option<&str>,
)
    requires
        call_ensures(Value::empty_object, (), empty),
        call_ensures(Value::object1, (n1, v1), one),
        call_ensures(Value::object2, (n1, v1, n2, v2), two),
        call_ensures(Value::object3, (n1, v1, n2, v2, n3, v3), three),
        call_ensures(Value::object4, (n1, v1, n2, v2, n3, v3, n4, v4), four),
        call_ensures(Value::text, (n1,), text),
        call_ensures(Value::as_str, (&text,), said),
    ensures
        empty@ == Json::Object(Seq::empty()),
        one@ == Json::Object(seq![(n1@, v1@)]),
        two@ == Json::Object(seq![(n1@, v1@), (n2@, v2@)]),
        three@ == Json::Object(seq![(n1@, v1@), (n2@, v2@), (n3@, v3@)]),
        four@ == Json::Object(seq![(n1@, v1@), (n2@, v2@), (n3@, v3@), (n4@, v4@)]),
        text@ == Json::String(n1@),
        said matches Some(s) && s@ == n1@,
{
}

} // verus!
