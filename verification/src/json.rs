use serde_json::Value;
use vstd::prelude::*;

verus! {

/// A JSON number as the library holds it.
///
/// Integers are held exactly. A number with a fraction or an exponent is held
/// as the text of its literal.
#[derive(Debug, Clone, PartialEq)]
pub enum Number {
    /// A non-negative integer.
    Unsigned(u64),
    /// An integer that may be negative.
    Signed(i64),
    /// The literal of a number that is not an integer.
    Real(String),
}

/// The mathematical value of a [`Number`].
pub enum NumberModel {
    /// An integer, whatever its width was.
    Int(int),
    /// The literal of a number that is not an integer.
    Real(Seq<char>),
}

impl View for Number {
    type V = NumberModel;

    open spec fn view(&self) -> NumberModel {
        match *self {
            Number::Unsigned(u) => NumberModel::Int(u as int),
            Number::Signed(i) => NumberModel::Int(i as int),
            Number::Real(text) => NumberModel::Real(text@),
        }
    }
}

impl DeepView for Number {
    type V = NumberModel;

    open spec fn deep_view(&self) -> NumberModel {
        self@
    }
}

/// A JSON document.
///
/// An object is held as the list of its members in the order they were
/// written; where a key occurs twice, the later member is the one that counts.
#[derive(Debug, PartialEq)]
pub enum Json {
    Null,
    Bool(bool),
    Number(Number),
    Text(String),
    Array(Vec<Json>),
    Object(Vec<(String, Json)>),
}

/// The mathematical value of a [`Json`] document: a tree whose objects are
/// maps from keys to values.
pub enum JsonModel {
    Null,
    Bool(bool),
    Number(NumberModel),
    Text(Seq<char>),
    Array(Seq<JsonModel>),
    Object(Map<Seq<char>, JsonModel>),
}

/// How deeply arrays and objects may be nested in a document that is
/// written as text.
pub const MAX_DEPTH: usize = 128;

/// Whether `serde_json::from_str` reads a number from a literal.
pub uninterp spec fn reads_as_number(literal: Seq<char>) -> bool;

/// Whether a document can be written as text with arrays and objects
/// nested at most `limit` deep: they are nested no deeper in it, and every
/// real number in it has a literal that reads as a number.
pub open spec fn sound(j: Json, limit: nat) -> bool
    decreases j,
{
    match j {
        Json::Number(Number::Real(literal)) => reads_as_number(literal@),
        Json::Array(items) => limit > 0 && forall|k: int|
            0 <= k < items@.len() ==> sound(#[trigger] items@[k], (limit - 1) as nat),
        Json::Object(members) => limit > 0 && forall|k: int|
            0 <= k < members@.len() ==> sound((#[trigger] members@[k]).1, (limit - 1) as nat),
        _ => true,
    }
}

/// A document that is sound within a limit is sound within any larger
/// limit.
pub proof fn lemma_sound_grows(j: Json, limit: nat, larger: nat)
    requires
        sound(j, limit),
        limit <= larger,
    ensures
        sound(j, larger),
    decreases j,
{
    match j {
        Json::Array(items) => {
            assert forall|k: int| 0 <= k < items@.len() implies sound(
                #[trigger] items@[k],
                (larger - 1) as nat,
            ) by {
                assert(decreases_to!(j => j->Array_0));
                assert(decreases_to!(items => items[k]));
                lemma_sound_grows(items@[k], (limit - 1) as nat, (larger - 1) as nat);
            }
        },
        Json::Object(members) => {
            assert forall|k: int| 0 <= k < members@.len() implies sound(
                (#[trigger] members@[k]).1,
                (larger - 1) as nat,
            ) by {
                assert(decreases_to!(j => j->Object_0));
                assert(decreases_to!(members => members[k]));
                assert(decreases_to!(members[k] => members[k].1));
                lemma_sound_grows(members@[k].1, (limit - 1) as nat, (larger - 1) as nat);
            }
        },
        _ => {},
    }
}

/// An object that has one member more is sound within a limit exactly
/// where it was before and the value of the new member is sound within one
/// less.
pub proof fn lemma_with_sound(before: Vec<(String, Json)>, after: Vec<(String, Json)>, value: Json)
    requires
        after@.len() == before@.len() + 1,
        forall|k: int| 0 <= k < before@.len() ==> after@[k] == before@[k],
        after@[before@.len() as int].1 == value,
    ensures
        forall|limit: nat| #[trigger]
            sound(Json::Object(after), limit) == (sound(Json::Object(before), limit)
                && sound(value, (limit - 1) as nat)),
{
    assert forall|limit: nat| #[trigger]
        sound(Json::Object(after), limit) == (sound(Json::Object(before), limit) && sound(
            value,
            (limit - 1) as nat,
        )) by {
        if limit > 0 {
            let below = (limit - 1) as nat;
            if sound(Json::Object(before), limit) && sound(value, below) {
                assert forall|k: int| 0 <= k < after@.len() implies sound(
                    (#[trigger] after@[k]).1,
                    below,
                ) by {
                    if k < before@.len() {
                        assert(sound(Json::Object(before)->Object_0@[k].1, below));
                    }
                }
            }
            if sound(Json::Object(after), limit) {
                assert(sound(Json::Object(after)->Object_0@[before@.len() as int].1, below));
                assert forall|k: int| 0 <= k < before@.len() implies sound(
                    (#[trigger] before@[k]).1,
                    below,
                ) by {
                    assert(sound(Json::Object(after)->Object_0@[k].1, below));
                }
            }
        }
    }
}

/// Two lists of documents that are sound within the same limits, item by
/// item, make arrays that are sound within the same limits.
pub proof fn lemma_array_sound(a: Vec<Json>, b: Vec<Json>)
    requires
        a@.len() == b@.len(),
        forall|k: int, limit: nat|
            0 <= k < a@.len() ==> #[trigger] sound(a@[k], limit) == sound(b@[k], limit),
    ensures
        forall|limit: nat| #[trigger] sound(Json::Array(a), limit) == sound(Json::Array(b), limit),
{
    assert forall|limit: nat| #[trigger] sound(Json::Array(a), limit) == sound(
        Json::Array(b),
        limit,
    ) by {
        if limit > 0 {
            let below = (limit - 1) as nat;
            if sound(Json::Array(a), limit) {
                assert forall|k: int| 0 <= k < b@.len() implies sound(#[trigger] b@[k], below) by {
                    assert(sound(Json::Array(a)->Array_0@[k], below));
                }
            }
            if sound(Json::Array(b), limit) {
                assert forall|k: int| 0 <= k < a@.len() implies sound(#[trigger] a@[k], below) by {
                    assert(sound(Json::Array(b)->Array_0@[k], below));
                }
            }
        }
    }
}

/// Two lists of members whose values are sound within the same limits,
/// member by member, make objects that are sound within the same limits.
pub proof fn lemma_object_sound(a: Vec<(String, Json)>, b: Vec<(String, Json)>)
    requires
        a@.len() == b@.len(),
        forall|k: int, limit: nat|
            0 <= k < a@.len() ==> #[trigger] sound(a@[k].1, limit) == sound(b@[k].1, limit),
    ensures
        forall|limit: nat| #[trigger]
            sound(Json::Object(a), limit) == sound(Json::Object(b), limit),
{
    assert forall|limit: nat| #[trigger] sound(Json::Object(a), limit) == sound(
        Json::Object(b),
        limit,
    ) by {
        if limit > 0 {
            let below = (limit - 1) as nat;
            if sound(Json::Object(a), limit) {
                assert forall|k: int| 0 <= k < b@.len() implies sound(
                    (#[trigger] b@[k]).1,
                    below,
                ) by {
                    assert(sound(Json::Object(a)->Object_0@[k].1, below));
                }
            }
            if sound(Json::Object(b), limit) {
                assert forall|k: int| 0 <= k < a@.len() implies sound(
                    (#[trigger] a@[k]).1,
                    below,
                ) by {
                    assert(sound(Json::Object(b)->Object_0@[k].1, below));
                }
            }
        }
    }
}

/// The value of a document.
pub open spec fn json_view(j: Json) -> JsonModel
    decreases j,
{
    match j {
        Json::Null => JsonModel::Null,
        Json::Bool(b) => JsonModel::Bool(b),
        Json::Number(n) => JsonModel::Number(n@),
        Json::Text(s) => JsonModel::Text(s@),
        Json::Array(items) => JsonModel::Array(items_view(items@)),
        Json::Object(members) => JsonModel::Object(members_view(members@)),
    }
}

/// The values of a list of documents, in order.
pub open spec fn items_view(items: Seq<Json>) -> Seq<JsonModel>
    decreases items,
{
    if items.len() == 0 {
        Seq::empty()
    } else {
        items_view(items.drop_last()).push(json_view(items.last()))
    }
}

/// The map that a list of members stands for: a later member replaces an
/// earlier one with the same key.
pub open spec fn members_view(members: Seq<(String, Json)>) -> Map<Seq<char>, JsonModel>
    decreases members,
{
    if members.len() == 0 {
        Map::empty()
    } else {
        members_view(members.drop_last()).insert(members.last().0@, json_view(members.last().1))
    }
}

impl View for Json {
    type V = JsonModel;

    open spec fn view(&self) -> JsonModel {
        json_view(*self)
    }
}

impl Clone for Json {
    fn clone(&self) -> (r: Json)
        ensures
            r@ == self@,
    {
        self.copy()
    }
}

impl DeepView for Json {
    type V = JsonModel;

    open spec fn deep_view(&self) -> JsonModel {
        self@
    }
}

impl JsonModel {
    /// The member of an object under `key`, if this is an object that has one.
    pub open spec fn member(self, key: Seq<char>) -> Option<JsonModel> {
        match self {
            JsonModel::Object(members) => if members.contains_key(key) {
                Some(members[key])
            } else {
                None
            },
            _ => None,
        }
    }

    /// The number as a `u64`, if this is an integer in that range.
    pub open spec fn as_u64(self) -> Option<u64> {
        match self {
            JsonModel::Number(NumberModel::Int(i)) => if 0 <= i <= u64::MAX {
                Some(i as u64)
            } else {
                None
            },
            _ => None,
        }
    }

    /// The text, if this is a string.
    pub open spec fn as_text(self) -> Option<Seq<char>> {
        match self {
            JsonModel::Text(text) => Some(text),
            _ => None,
        }
    }

    /// The truth value, if this is a boolean.
    pub open spec fn as_bool(self) -> Option<bool> {
        match self {
            JsonModel::Bool(b) => Some(b),
            _ => None,
        }
    }

    /// The number, if this is one.
    pub open spec fn as_number(self) -> Option<NumberModel> {
        match self {
            JsonModel::Number(n) => Some(n),
            _ => None,
        }
    }

    /// The number as a `usize`, if this is an integer in that range.
    pub open spec fn as_usize(self) -> Option<usize> {
        match self {
            JsonModel::Number(NumberModel::Int(i)) => if 0 <= i <= usize::MAX {
                Some(i as usize)
            } else {
                None
            },
            _ => None,
        }
    }

    /// The member under `key` where the object has one that is not `null`.
    pub open spec fn optional(self, key: Seq<char>) -> Option<JsonModel> {
        match self.member(key) {
            Some(value) => if value == JsonModel::Null {
                None
            } else {
                Some(value)
            },
            None => None,
        }
    }

    /// The object with `key` set to `value`; any other document unchanged.
    pub open spec fn with(self, key: Seq<char>, value: JsonModel) -> JsonModel {
        match self {
            JsonModel::Object(members) => JsonModel::Object(members.insert(key, value)),
            _ => self,
        }
    }

    /// Whether arrays and objects are nested at most `limit` deep in the
    /// document.
    pub open spec fn nested_within(self, limit: nat) -> bool
        decreases self,
    {
        match self {
            JsonModel::Array(items) => limit > 0 && forall|k: int|
                0 <= k < items.len() ==> (#[trigger] items[k]).nested_within((limit - 1) as nat),
            JsonModel::Object(members) => limit > 0 && forall|key: Seq<char>|
                members.contains_key(key) ==> (#[trigger] members[key]).nested_within(
                    (limit - 1) as nat,
                ),
            _ => true,
        }
    }

    /// Whether the document holds no real number.
    pub open spec fn real_free(self) -> bool
        decreases self,
    {
        match self {
            JsonModel::Number(NumberModel::Real(_)) => false,
            JsonModel::Array(items) => forall|k: int|
                0 <= k < items.len() ==> (#[trigger] items[k]).real_free(),
            JsonModel::Object(members) => forall|key: Seq<char>|
                members.contains_key(key) ==> (#[trigger] members[key]).real_free(),
            _ => true,
        }
    }

    /// The items, if this is an array.
    pub open spec fn as_array(self) -> Option<Seq<JsonModel>> {
        match self {
            JsonModel::Array(items) => Some(items),
            _ => None,
        }
    }
}

/// A member of an object is smaller than the object.
pub proof fn lemma_member_decreases(doc: JsonModel, key: Seq<char>)
    ensures
        doc.member(key) matches Some(value) ==> decreases_to!(doc => value),
        doc.optional(key) matches Some(value) ==> decreases_to!(doc => value),
{
    match doc {
        JsonModel::Object(members) => {
            if members.contains_key(key) {
                assert(decreases_to!(doc => doc->Object_0[key]));
            }
        },
        _ => {},
    }
}

/// The view of a list of documents has one value for each document, in the
/// same place.
pub proof fn lemma_items_view(items: Seq<Json>)
    ensures
        items_view(items).len() == items.len(),
        forall|i: int| 0 <= i < items.len() ==> #[trigger] items_view(items)[i] == json_view(items[i]),
    decreases items.len(),
{
    if items.len() > 0 {
        lemma_items_view(items.drop_last());
    }
}

/// Appending a document appends its value.
pub proof fn lemma_items_push(items: Seq<Json>, item: Json)
    ensures
        items_view(items.push(item)) == items_view(items).push(json_view(item)),
{
    assert(items.push(item).drop_last() == items);
}

/// Appending a member sets its key to its value.
pub proof fn lemma_members_push(members: Seq<(String, Json)>, key: String, value: Json)
    ensures
        members_view(members.push((key, value))) == members_view(members).insert(
            key@,
            json_view(value),
        ),
{
    assert(members.push((key, value)).drop_last() == members);
}

/// The last member with a given key is the one that the object maps it to.
pub proof fn lemma_members_found(members: Seq<(String, Json)>, key: Seq<char>, i: int)
    requires
        0 <= i < members.len(),
        members[i].0@ == key,
        forall|j: int| i < j < members.len() ==> (#[trigger] members[j]).0@ != key,
    ensures
        members_view(members).contains_key(key),
        members_view(members)[key] == json_view(members[i].1),
    decreases members.len(),
{
    if i < members.len() - 1 {
        let front = members.drop_last();
        assert(forall|j: int| i < j < front.len() ==> (#[trigger] front[j]) == members[j]);
        lemma_members_found(front, key, i);
    }
}

/// A key that no member has is not in the object.
pub proof fn lemma_members_missing(members: Seq<(String, Json)>, key: Seq<char>)
    requires
        forall|j: int| 0 <= j < members.len() ==> (#[trigger] members[j]).0@ != key,
    ensures
        !members_view(members).contains_key(key),
    decreases members.len(),
{
    if members.len() > 0 {
        let front = members.drop_last();
        assert(forall|j: int| 0 <= j < front.len() ==> (#[trigger] front[j]) == members[j]);
        lemma_members_missing(front, key);
    }
}

/// Whether two strings hold the same text.
pub fn same_text(a: &str, b: &str) -> (r: bool)
    ensures
        r == (a@ == b@),
{
    let x = a.to_owned();
    let y = b.to_owned();
    x == y
}

impl Number {
    /// A copy of the number.
    pub fn copy(&self) -> (r: Number)
        ensures
            r@ == self@,
    {
        match self {
            Number::Unsigned(u) => Number::Unsigned(*u),
            Number::Signed(i) => Number::Signed(*i),
            Number::Real(text) => Number::Real(text.clone()),
        }
    }
}

impl Json {
    /// The member of an object under `key`.
    ///
    /// Returns `None` where the document is no object or has no such member.
    pub fn get(&self, key: &str) -> (r: Option<&Json>)
        ensures
            match r {
                Some(value) => {
                    &&& self@.member(key@) == Some(value@)
                    &&& decreases_to!(*self => *value)
                    &&& forall|limit: nat| #[trigger]
                        sound(*self, limit) ==> sound(*value, (limit - 1) as nat)
                },
                None => self@.member(key@) is None,
            },
    {
        match self {
            Json::Object(members) => {
                let mut i: usize = members.len();
                while i > 0
                    invariant
                        i <= members.len(),
                        *self == Json::Object(*members),
                        forall|j: int| i <= j < members.len() ==> (#[trigger] members@[j]).0@ != key@,
                    decreases i,
                {
                    i = i - 1;
                    if same_text(members[i].0.as_str(), key) {
                        proof {
                            lemma_members_found(members@, key@, i as int);
                            assert(decreases_to!(*self => self->Object_0));
                            assert(decreases_to!(*members => members[i as int]));
                            assert(decreases_to!(members[i as int] => members[i as int].1));
                            assert forall|limit: nat| #[trigger] sound(*self, limit) implies sound(
                                members@[i as int].1,
                                (limit - 1) as nat,
                            ) by {
                                assert(sound(self->Object_0@[i as int].1, (limit - 1) as nat));
                            }
                        }
                        return Some(&members[i].1);
                    }
                }
                proof {
                    lemma_members_missing(members@, key@);
                }
                None
            },
            _ => None,
        }
    }

    /// The number as a `u64`, if the document is an integer in that range.
    pub fn as_u64(&self) -> (r: Option<u64>)
        ensures
            r == self@.as_u64(),
    {
        match self {
            Json::Number(Number::Unsigned(u)) => Some(*u),
            Json::Number(Number::Signed(i)) => if *i >= 0 {
                Some(*i as u64)
            } else {
                None
            },
            _ => None,
        }
    }

    /// The number as a `usize`, if the document is an integer in that range.
    pub fn as_usize(&self) -> (r: Option<usize>)
        ensures
            r == self@.as_usize(),
    {
        match self.as_u64() {
            Some(n) => if n <= usize::MAX as u64 {
                Some(n as usize)
            } else {
                None
            },
            None => None,
        }
    }

    /// The member of an object under `key`, unless it is `null`.
    ///
    /// Returns `None` where the document is no object, has no such member,
    /// or holds `null` under the key.
    pub fn optional(&self, key: &str) -> (r: Option<&Json>)
        ensures
            match r {
                Some(value) => {
                    &&& self@.optional(key@) == Some(value@)
                    &&& decreases_to!(*self => *value)
                    &&& forall|limit: nat| #[trigger]
                        sound(*self, limit) ==> sound(*value, (limit - 1) as nat)
                },
                None => self@.optional(key@) is None,
            },
    {
        match self.get(key) {
            Some(value) => if value.is_null() {
                None
            } else {
                Some(value)
            },
            None => None,
        }
    }

    /// An object without members.
    pub fn object() -> (r: Json)
        ensures
            r@ == JsonModel::Object(Map::empty()),
            r is Object,
            forall|limit: nat| #[trigger] sound(r, limit) == (limit > 0),
    {
        let members: Vec<(String, Json)> = Vec::new();
        Json::Object(members)
    }

    /// The object with `key` set to `value`. A document that is no object is
    /// returned as it is.
    ///
    /// The new object is sound within a limit exactly where the old one is
    /// and the value is sound within one less.
    pub fn with(self, key: &str, value: Json) -> (r: Json)
        ensures
            r@ == self@.with(key@, value@),
            self is Object ==> r is Object,
            self is Object ==> forall|limit: nat| #[trigger]
                sound(r, limit) == (sound(self, limit) && sound(value, (limit - 1) as nat)),
            !(self is Object) ==> r == self,
    {
        let ghost whole = self;
        match self {
            Json::Object(mut members) => {
                let ghost before = members;
                assert(whole == Json::Object(before));
                let owned = key.to_owned();
                proof {
                    lemma_members_push(members@, owned, value);
                }
                members.push((owned, value));
                let ghost after = members;
                proof {
                    lemma_with_sound(before, after, value);
                }
                Json::Object(members)
            },
            other => other,
        }
    }

    /// A string document.
    pub fn text(text: &str) -> (r: Json)
        ensures
            r@ == JsonModel::Text(text@),
            r is Text,
    {
        Json::Text(text.to_owned())
    }

    /// A document that holds a non-negative integer.
    pub fn unsigned(n: u64) -> (r: Json)
        ensures
            r == Json::Number(Number::Unsigned(n)),
            r@ == JsonModel::Number(NumberModel::Int(n as int)),
    {
        Json::Number(Number::Unsigned(n))
    }

    /// The text, if the document is a string.
    pub fn as_str(&self) -> (r: Option<&str>)
        ensures
            match r {
                Some(text) => self@.as_text() == Some(text@),
                None => self@.as_text() is None,
            },
    {
        match self {
            Json::Text(text) => Some(text.as_str()),
            _ => None,
        }
    }

    /// The truth value, if the document is a boolean.
    pub fn as_bool(&self) -> (r: Option<bool>)
        ensures
            r == self@.as_bool(),
    {
        match self {
            Json::Bool(b) => Some(*b),
            _ => None,
        }
    }

    /// Whether the document is an object.
    pub fn is_object(&self) -> (r: bool)
        ensures
            r == (self@ is Object),
    {
        match self {
            Json::Object(_) => true,
            _ => false,
        }
    }

    /// Whether the document is `null`.
    pub fn is_null(&self) -> (r: bool)
        ensures
            r == (self@ == JsonModel::Null),
    {
        match self {
            Json::Null => true,
            _ => false,
        }
    }

    /// Whether the document can be written as text with arrays and objects
    /// nested at most `limit` deep, as [`sound`] says.
    pub fn is_sound(&self, limit: usize) -> (r: bool)
        ensures
            r == sound(*self, limit as nat),
        decreases *self,
    {
        match self {
            Json::Number(Number::Real(literal)) => number_reads(literal.as_str()),
            Json::Array(items) => {
                if limit == 0 {
                    return false;
                }
                let mut i: usize = 0;
                while i < items.len()
                    invariant
                        i <= items.len(),
                        limit > 0,
                        *self == Json::Array(*items),
                        forall|k: int| 0 <= k < i ==> sound(#[trigger] items@[k], (limit - 1) as nat),
                    decreases items.len() - i,
                {
                    proof {
                        assert(decreases_to!(*self => self->Array_0));
                        assert(decreases_to!(*items => items[i as int]));
                    }
                    if !items[i].is_sound(limit - 1) {
                        return false;
                    }
                    i = i + 1;
                }
                true
            },
            Json::Object(members) => {
                if limit == 0 {
                    return false;
                }
                let mut i: usize = 0;
                while i < members.len()
                    invariant
                        i <= members.len(),
                        limit > 0,
                        *self == Json::Object(*members),
                        forall|k: int|
                            0 <= k < i ==> sound((#[trigger] members@[k]).1, (limit - 1) as nat),
                    decreases members.len() - i,
                {
                    proof {
                        assert(decreases_to!(*self => self->Object_0));
                        assert(decreases_to!(*members => members[i as int]));
                        assert(decreases_to!(members[i as int] => members[i as int].1));
                    }
                    if !members[i].1.is_sound(limit - 1) {
                        return false;
                    }
                    i = i + 1;
                }
                true
            },
            _ => true,
        }
    }

    /// A copy of the document: it has the same value and is sound within the
    /// same limits.
    pub fn copy(&self) -> (r: Json)
        ensures
            r@ == self@,
            forall|limit: nat| #[trigger] sound(r, limit) == sound(*self, limit),
        decreases *self,
    {
        match self {
            Json::Null => Json::Null,
            Json::Bool(b) => Json::Bool(*b),
            Json::Number(n) => Json::Number(n.copy()),
            Json::Text(text) => Json::Text(text.clone()),
            Json::Array(items) => {
                let mut out: Vec<Json> = Vec::new();
                let mut i: usize = 0;
                while i < items.len()
                    invariant
                        i <= items.len(),
                        out.len() == i,
                        *self == Json::Array(*items),
                        items_view(out@) == items_view(items@.take(i as int)),
                        forall|k: int, limit: nat|
                            0 <= k < i ==> #[trigger] sound(out@[k], limit) == sound(
                                items@[k],
                                limit,
                            ),
                    decreases items.len() - i,
                {
                    proof {
                        assert(decreases_to!(*self => self->Array_0));
                        assert(decreases_to!(*items => items[i as int]));
                    }
                    let item = items[i].copy();
                    proof {
                        lemma_items_push(out@, item);
                        lemma_items_push(items@.take(i as int), items@[i as int]);
                        assert(items@.take(i as int).push(items@[i as int]) == items@.take(i + 1));
                    }
                    out.push(item);
                    i = i + 1;
                }
                assert(items@.take(i as int) == items@);
                proof {
                    lemma_array_sound(out, *items);
                }
                Json::Array(out)
            },
            Json::Object(members) => {
                let mut out: Vec<(String, Json)> = Vec::new();
                let mut i: usize = 0;
                while i < members.len()
                    invariant
                        i <= members.len(),
                        out.len() == i,
                        *self == Json::Object(*members),
                        members_view(out@) == members_view(members@.take(i as int)),
                        forall|k: int, limit: nat|
                            0 <= k < i ==> #[trigger] sound(out@[k].1, limit) == sound(
                                members@[k].1,
                                limit,
                            ),
                    decreases members.len() - i,
                {
                    proof {
                        assert(decreases_to!(*self => self->Object_0));
                        assert(decreases_to!(*members => members[i as int]));
                        assert(decreases_to!(members[i as int] => members[i as int].1));
                    }
                    let key = members[i].0.clone();
                    let value = members[i].1.copy();
                    proof {
                        lemma_members_push(out@, key, value);
                        lemma_members_push(
                            members@.take(i as int),
                            members@[i as int].0,
                            members@[i as int].1,
                        );
                        assert(members@.take(i as int).push(members@[i as int]) == members@.take(
                            i + 1,
                        ));
                    }
                    out.push((key, value));
                    i = i + 1;
                }
                assert(members@.take(i as int) == members@);
                proof {
                    lemma_object_sound(out, *members);
                }
                Json::Object(out)
            },
        }
    }
}

/// Declares `serde_json::Value` as a type whose inside is not looked at.
#[verifier::external_type_specification]
#[verifier::external_body]
pub struct ExValue(serde_json::Value);

/// Declares `serde_json::Error` as a type whose inside is not looked at.
#[verifier::external_type_specification]
#[verifier::external_body]
pub struct ExError(serde_json::Error);

/// The document that `serde_json::from_str` reads from a text, or `None`
/// where it reports an error.
pub uninterp spec fn parsed(text: Seq<char>) -> Option<JsonModel>;

/// The document that a `serde_json::Value` holds.
pub uninterp spec fn held(value: Value) -> JsonModel;

/// The document held by the `serde_json::Value` that is built from a
/// document of this library.
pub uninterp spec fn built(doc: JsonModel) -> JsonModel;

/// The text that `serde_json::to_string` writes for a `serde_json::Value`
/// that holds the given document.
///
/// The text depends on nothing but the document because a `Value` keeps the
/// members of an object in the order of their keys; with the feature
/// `preserve_order` of serde_json it would not.
pub uninterp spec fn written(doc: JsonModel) -> Seq<char>;

/// The text that stands for a document on the wire: what the serializer
/// writes for the document, or, where the document holds a real number, for
/// the document as it is read back from its literals.
pub open spec fn text_of(doc: JsonModel) -> Seq<char> {
    written(if doc.real_free() {
        doc
    } else {
        built(doc)
    })
}

/// Calls `serde_json::from_str` to read a `serde_json::Number` from a
/// literal, and tells whether that succeeds.
///
/// Claims that the outcome is a function of the literal.
#[verifier::external_body]
fn number_reads(literal: &str) -> (r: bool)
    ensures
        r == reads_as_number(literal@),
{
    serde_json::from_str::<serde_json::Number>(literal).is_ok()
}

/// Calls `serde_json::from_str` to read one JSON value from `text`.
///
/// Claims that the outcome is a function of the text: the value holds
/// `parsed(text)`, and an error comes exactly where that is `None`. Claims
/// also that arrays and objects are nested at most `MAX_DEPTH` deep in what
/// the value holds: `from_str` reports an error where they are nested 128
/// deep or deeper.
#[verifier::external_body]
fn value_of_text(text: &str) -> (r: Result<Value, serde_json::Error>)
    ensures
        match r {
            Ok(value) => parsed(text@) == Some(held(value)) && held(value).nested_within(
                MAX_DEPTH as nat,
            ),
            Err(_) => parsed(text@) is None,
        },
{
    serde_json::from_str::<Value>(text)
}

/// Moves what a `serde_json::Value` holds into a document of this library,
/// variant by variant. An integer is taken through `Number::as_u64` or
/// `Number::as_i64`, any other number as the text that `Number` displays.
///
/// Claims that the document's value is what the `Value` holds, and that
/// the document is sound within every limit within which the value is
/// nested: it has the members of the value and no other, and the text that
/// `Number` displays reads as a number.
#[verifier::external_body]
fn json_of_value(value: &Value) -> (doc: Json)
    ensures
        doc@ == held(*value),
        forall|limit: nat| #[trigger] held(*value).nested_within(limit) ==> sound(doc, limit),
{
    match value {
        Value::Null => Json::Null,
        Value::Bool(b) => Json::Bool(*b),
        Value::Number(n) => Json::Number(match (n.as_u64(), n.as_i64()) {
            (Some(u), _) => Number::Unsigned(u),
            (_, Some(i)) => Number::Signed(i),
            _ => Number::Real(n.to_string()),
        }),
        Value::String(s) => Json::Text(s.clone()),
        Value::Array(items) => Json::Array(items.iter().map(json_of_value).collect()),
        Value::Object(map) => Json::Object(
            map.iter().map(|(k, v)| (k.clone(), json_of_value(v))).collect(),
        ),
    }
}

/// Builds a `serde_json::Value` from a document of this library, variant by
/// variant. Members are put into a `serde_json::Map` with `insert`, in
/// order; the literal of a real number is read back with
/// `serde_json::from_str`.
///
/// Claims that the new value holds the document's value where that has no
/// real number in it, and else a value that is a function of it. The
/// document is to be sound within `MAX_DEPTH`: nested no deeper, so that
/// neither this function nor the serializer after it runs out of stack, and
/// with no literal that fails to read, so that `null` never stands in for a
/// number.
#[verifier::external_body]
fn value_of_json(doc: &Json) -> (value: Value)
    requires
        sound(*doc, MAX_DEPTH as nat),
    ensures
        held(value) == built(doc@),
        doc@.real_free() ==> held(value) == doc@,
{
    match doc {
        Json::Null => Value::Null,
        Json::Bool(b) => Value::Bool(*b),
        Json::Number(Number::Unsigned(u)) => Value::from(*u),
        Json::Number(Number::Signed(i)) => Value::from(*i),
        Json::Number(Number::Real(t)) => serde_json::from_str(t).map_or(Value::Null, Value::Number),
        Json::Text(s) => Value::String(s.clone()),
        Json::Array(items) => Value::Array(items.iter().map(value_of_json).collect()),
        Json::Object(members) => {
            let mut map = serde_json::Map::new();
            for (k, v) in members { map.insert(k.clone(), value_of_json(v)); }
            Value::Object(map)
        },
    }
}

/// Calls `serde_json::to_string` on a `serde_json::Value`.
///
/// Claims that the call succeeds and that the text is a function of what
/// the value holds. The serializer reports an error only where its writer
/// does, where a key is no string or where a type refuses to be written; it
/// writes into a vector, and a `Value` has strings for keys and numbers that
/// are finite.
#[verifier::external_body]
fn text_of_value(value: &Value) -> (r: Result<String, serde_json::Error>)
    ensures
        match r {
            Ok(text) => text@ == written(held(*value)),
            Err(_) => false,
        },
{
    serde_json::to_string(value)
}

impl Json {
    /// Reads a document from JSON text. The document is sound within
    /// `MAX_DEPTH`, so that it can be written again.
    ///
    /// Returns `None` exactly where the text is not one JSON value.
    pub fn parse(text: &str) -> (r: Option<Json>)
        ensures
            match r {
                Some(doc) => parsed(text@) == Some(doc@) && sound(doc, MAX_DEPTH as nat),
                None => parsed(text@) is None,
            },
    {
        match value_of_text(text) {
            Ok(value) => Some(json_of_value(&value)),
            Err(_) => None,
        }
    }

    /// Writes the document as compact JSON text.
    ///
    /// Returns `None` exactly where the document is not sound within
    /// `MAX_DEPTH`: arrays and objects are nested deeper in it, or a real
    /// number in it has a literal that does not read as a number.
    pub fn print(&self) -> (r: Option<String>)
        ensures
            r.deep_view() == if sound(*self, MAX_DEPTH as nat) {
                Some(text_of(self@))
            } else {
                None
            },
    {
        if !self.is_sound(MAX_DEPTH) {
            return None;
        }
        let value = value_of_json(self);
        match text_of_value(&value) {
            Ok(text) => Some(text),
            Err(_) => None,
        }
    }
}

} // verus!
