//! A JSON document as the decoders read it.

use vstd::prelude::*;

verus! {

/// A JSON number. The value of a number that is not an integer in the range
/// of `u64` or `i64` is not kept: no decoder of this crate reads one.
#[derive(Clone, Copy, Debug, PartialEq, Eq, Structural)]
pub enum JsonNumber {
    /// A non-negative integer.
    PosInt(u64),
    /// A negative integer.
    NegInt(i64),
    /// Any other number.
    Float,
}

/// The mathematical model of a JSON document: an object is a finite map from
/// member names to documents, so the order of its members plays no role.
pub enum JsonValue {
    Null,
    Bool(bool),
    Number(JsonNumber),
    Text(Seq<char>),
    Array(Seq<JsonValue>),
    Object(Map<Seq<char>, JsonValue>),
}

impl JsonValue {
    /// The member of that name, where the document is an object that has one.
    pub open spec fn member(self, name: Seq<char>) -> Option<JsonValue> {
        match self {
            JsonValue::Object(members) if members.dom().contains(name) => Some(members[name]),
            _ => None,
        }
    }

    /// The characters of a string.
    pub open spec fn as_text(self) -> Option<Seq<char>> {
        match self {
            JsonValue::Text(s) => Some(s),
            _ => None,
        }
    }

    /// The value of a boolean.
    pub open spec fn as_bool(self) -> Option<bool> {
        match self {
            JsonValue::Bool(b) => Some(b),
            _ => None,
        }
    }

    /// The value of a non-negative integer.
    pub open spec fn as_u64(self) -> Option<u64> {
        match self {
            JsonValue::Number(JsonNumber::PosInt(n)) => Some(n),
            _ => None,
        }
    }

    /// The value of a non-negative integer that fits in 32 bits.
    pub open spec fn as_u32(self) -> Option<u32> {
        match self {
            JsonValue::Number(JsonNumber::PosInt(n)) if n <= u32::MAX => Some(n as u32),
            _ => None,
        }
    }

    /// The items of an array.
    pub open spec fn as_array(self) -> Option<Seq<JsonValue>> {
        match self {
            JsonValue::Array(items) => Some(items),
            _ => None,
        }
    }

    /// Whether the member of that name is missing or `null`: the two ways in
    /// which a producer leaves an optional attribute out.
    pub open spec fn lacks(self, name: Seq<char>) -> bool {
        self.member(name) is None || self.member(name) == Some(JsonValue::Null)
    }

    /// The string that a required member holds.
    pub open spec fn text_at(self, name: Seq<char>) -> Option<Seq<char>> {
        match self.member(name) {
            Some(v) => v.as_text(),
            None => None,
        }
    }

    /// The boolean that a required member holds.
    pub open spec fn bool_at(self, name: Seq<char>) -> Option<bool> {
        match self.member(name) {
            Some(v) => v.as_bool(),
            None => None,
        }
    }

    /// The integer that a required member holds.
    pub open spec fn u32_at(self, name: Seq<char>) -> Option<u32> {
        match self.member(name) {
            Some(v) => v.as_u32(),
            None => None,
        }
    }

    /// The integer that a required member holds.
    pub open spec fn u64_at(self, name: Seq<char>) -> Option<u64> {
        match self.member(name) {
            Some(v) => v.as_u64(),
            None => None,
        }
    }

    /// The string of an optional member: `Some(None)` where the document lacks
    /// the member, `None` where the member holds something else than a string.
    pub open spec fn optional_text_at(self, name: Seq<char>) -> Option<Option<Seq<char>>> {
        if self.lacks(name) {
            Some(None)
        } else {
            match self.text_at(name) {
                Some(s) => Some(Some(s)),
                None => None,
            }
        }
    }

    /// The boolean of an optional member, as [`Self::optional_text_at`].
    pub open spec fn optional_bool_at(self, name: Seq<char>) -> Option<Option<bool>> {
        if self.lacks(name) {
            Some(None)
        } else {
            match self.bool_at(name) {
                Some(b) => Some(Some(b)),
                None => None,
            }
        }
    }

    /// The integer of an optional member, as [`Self::optional_text_at`].
    pub open spec fn optional_u32_at(self, name: Seq<char>) -> Option<Option<u32>> {
        if self.lacks(name) {
            Some(None)
        } else {
            match self.u32_at(name) {
                Some(n) => Some(Some(n)),
                None => None,
            }
        }
    }

    /// The integer of an optional member, as [`Self::optional_text_at`].
    pub open spec fn optional_u64_at(self, name: Seq<char>) -> Option<Option<u64>> {
        if self.lacks(name) {
            Some(None)
        } else {
            match self.u64_at(name) {
                Some(n) => Some(Some(n)),
                None => None,
            }
        }
    }
}

/// A JSON document held in memory.
///
/// An object is a list of members; where a name occurs more than once, the
/// last occurrence is the member of that name.
#[derive(Debug, PartialEq, Eq)]
pub enum Json {
    Null,
    Bool(bool),
    Number(JsonNumber),
    Text(String),
    Array(Vec<Json>),
    Object(Vec<(String, Json)>),
}

/// The map that the first `n` members of a member list stand for.
pub open spec fn members_model(members: Seq<(String, Json)>, n: nat) -> Map<Seq<char>, JsonValue>
    decreases members, n,
{
    if n == 0 || n > members.len() {
        Map::empty()
    } else {
        members_model(members, (n - 1) as nat).insert(
            members[n - 1].0@,
            members[n - 1].1@,
        )
    }
}

impl View for Json {
    type V = JsonValue;

    open spec fn view(&self) -> JsonValue
        decreases self, 0nat,
    {
        match self {
            Json::Null => JsonValue::Null,
            Json::Bool(b) => JsonValue::Bool(*b),
            Json::Number(n) => JsonValue::Number(*n),
            Json::Text(s) => JsonValue::Text(s@),
            Json::Array(items) => JsonValue::Array(
                Seq::new(
                    items@.len(),
                    |i: int|
                        if 0 <= i < items@.len() {
                            items@[i]@
                        } else {
                            JsonValue::Null
                        },
                ),
            ),
            Json::Object(members) => JsonValue::Object(members_model(members@, members@.len())),
        }
    }
}

impl DeepView for Json {
    type V = JsonValue;

    open spec fn deep_view(&self) -> JsonValue {
        self@
    }
}

/// Whether two texts hold the same characters.
pub fn text_eq(a: &str, b: &str) -> (r: bool)
    ensures
        r == (a@ == b@),
{
    let x = a.as_bytes();
    let y = b.as_bytes();
    proof {
        vstd::utf8::encode_utf8_decode_utf8(a@);
        vstd::utf8::encode_utf8_decode_utf8(b@);
    }
    if x.len() != y.len() {
        return false;
    }
    let mut i: usize = 0;
    while i < x.len()
        invariant
            i <= x.len(),
            x.len() == y.len(),
            x@ == vstd::utf8::encode_utf8(a@),
            y@ == vstd::utf8::encode_utf8(b@),
            forall|k: int| 0 <= k < i ==> x@[k] == y@[k],
        decreases x.len() - i,
    {
        if x[i] != y[i] {
            return false;
        }
        i += 1;
    }
    assert(x@ =~= y@);
    true
}

/// The member that stands last under a name is the member of that name.
proof fn lemma_members_model_last(members: Seq<(String, Json)>, n: nat, name: Seq<char>, k: int)
    requires
        0 <= k < n <= members.len(),
        members[k].0@ == name,
        forall|j: int| k < j < n ==> (#[trigger] members[j]).0@ != name,
    ensures
        members_model(members, n).dom().contains(name),
        members_model(members, n)[name] == members[k].1@,
    decreases n,
{
    let prev = members_model(members, (n - 1) as nat);
    assert(members_model(members, n) == prev.insert(members[n - 1].0@, members[n - 1].1@));
    if k < n - 1 {
        lemma_members_model_last(members, (n - 1) as nat, name, k);
        assert(members[n - 1].0@ != name);
    }
}

/// A name that no member carries is not in the map.
proof fn lemma_members_model_absent(members: Seq<(String, Json)>, n: nat, name: Seq<char>)
    requires
        n <= members.len(),
        forall|j: int| 0 <= j < n ==> (#[trigger] members[j]).0@ != name,
    ensures
        !members_model(members, n).dom().contains(name),
    decreases n,
{
    if n > 0 {
        lemma_members_model_absent(members, (n - 1) as nat, name);
        assert(members_model(members, n) == members_model(members, (n - 1) as nat).insert(
            members[n - 1].0@,
            members[n - 1].1@,
        ));
    }
}

/// No name occurs twice in a member list.
pub open spec fn distinct_names(members: Seq<(String, Json)>) -> bool {
    forall|i: int, j: int|
        0 <= i < j < members.len() ==> (#[trigger] members[i]).0@ != (#[trigger] members[j]).0@
}

/// Every member of one list is a member of the other, by name and by what it
/// holds.
pub open spec fn members_among(a: Seq<(String, Json)>, b: Seq<(String, Json)>) -> bool {
    forall|i: int|
        0 <= i < a.len() ==> exists|j: int|
            0 <= j < b.len() && (#[trigger] a[i]).0@ == (#[trigger] b[j]).0@ && a[i].1@ == b[j].1@
}

/// A member list without repeated names stands for the map of its members.
proof fn lemma_members_model_distinct(members: Seq<(String, Json)>, n: nat, k: int)
    requires
        0 <= k < n <= members.len(),
        distinct_names(members),
    ensures
        members_model(members, n).dom().contains(members[k].0@),
        members_model(members, n)[members[k].0@] == members[k].1@,
{
    lemma_members_model_last(members, n, members[k].0@, k);
}

/// Every name of the map is the name of a member.
proof fn lemma_members_model_names(members: Seq<(String, Json)>, n: nat, name: Seq<char>)
    requires
        n <= members.len(),
        members_model(members, n).dom().contains(name),
    ensures
        exists|k: int| 0 <= k < n && (#[trigger] members[k]).0@ == name,
{
    if forall|k: int| 0 <= k < n ==> (#[trigger] members[k]).0@ != name {
        lemma_members_model_absent(members, n, name);
    }
}

/// The order of the members of an object plays no role: two member lists
/// without repeated names that hold the same members stand for the same
/// object.
pub proof fn lemma_member_order_is_immaterial(a: Vec<(String, Json)>, b: Vec<(String, Json)>)
    requires
        distinct_names(a@),
        distinct_names(b@),
        members_among(a@, b@),
        members_among(b@, a@),
    ensures
        Json::Object(a)@ == Json::Object(b)@,
{
    reveal_with_fuel(<Json as View>::view, 2);
    let x = members_model(a@, a@.len());
    let y = members_model(b@, b@.len());
    assert forall|name: Seq<char>| #[trigger] x.dom().contains(name) implies y.dom().contains(name)
        && x[name] == y[name] by {
        lemma_members_model_names(a@, a@.len(), name);
        let i = choose|i: int| 0 <= i < a@.len() && (#[trigger] a@[i]).0@ == name;
        let j = choose|j: int|
            0 <= j < b@.len() && a@[i].0@ == (#[trigger] b@[j]).0@ && a@[i].1@ == b@[j].1@;
        lemma_members_model_distinct(a@, a@.len(), i);
        lemma_members_model_distinct(b@, b@.len(), j);
    }
    assert forall|name: Seq<char>| #[trigger] y.dom().contains(name) implies x.dom().contains(
        name,
    ) by {
        lemma_members_model_names(b@, b@.len(), name);
        let j = choose|j: int| 0 <= j < b@.len() && (#[trigger] b@[j]).0@ == name;
        let i = choose|i: int|
            0 <= i < a@.len() && b@[j].0@ == (#[trigger] a@[i]).0@ && b@[j].1@ == a@[i].1@;
        lemma_members_model_distinct(a@, a@.len(), i);
    }
    assert(x.dom() =~= y.dom());
    assert(x =~= y);
}

impl Json {
    /// The member of that name, where the document is an object that has one.
    pub fn member(&self, name: &str) -> (r: Option<&Json>)
        ensures
            r.deep_view() == self@.member(name@),
    {
        match self {
            Json::Object(members) => {
                proof {
                    reveal_with_fuel(<Json as View>::view, 2);
                }
                let mut i: usize = members.len();
                while i > 0
                    invariant
                        i <= members.len(),
                        self@ == JsonValue::Object(members_model(members@, members@.len())),
                        forall|j: int| i <= j < members.len() ==> (#[trigger] members@[j]).0@ != name@,
                    decreases i,
                {
                    i -= 1;
                    if text_eq(members[i].0.as_str(), name) {
                        proof {
                            lemma_members_model_last(members@, members@.len(), name@, i as int);
                        }
                        return Some(&members[i].1);
                    }
                }
                proof {
                    lemma_members_model_absent(members@, members@.len(), name@);
                }
                None
            },
            _ => None,
        }
    }

    /// The characters of a string.
    pub fn as_text(&self) -> (r: Option<&String>)
        ensures
            r.deep_view() == self@.as_text(),
    {
        match self {
            Json::Text(s) => Some(s),
            _ => None,
        }
    }

    /// The value of a boolean.
    pub fn as_bool(&self) -> (r: Option<bool>)
        ensures
            r == self@.as_bool(),
    {
        match self {
            Json::Bool(b) => Some(*b),
            _ => None,
        }
    }

    /// The value of a non-negative integer.
    pub fn as_u64(&self) -> (r: Option<u64>)
        ensures
            r == self@.as_u64(),
    {
        match self {
            Json::Number(JsonNumber::PosInt(n)) => Some(*n),
            _ => None,
        }
    }

    /// The value of a non-negative integer that fits in 32 bits.
    pub fn as_u32(&self) -> (r: Option<u32>)
        ensures
            r == self@.as_u32(),
    {
        match self {
            Json::Number(JsonNumber::PosInt(n)) => {
                if *n <= 0xffff_ffff {
                    Some(*n as u32)
                } else {
                    None
                }
            },
            _ => None,
        }
    }

    /// The items of an array.
    pub fn as_array(&self) -> (r: Option<&Vec<Json>>)
        ensures
            r.deep_view() == self@.as_array(),
    {
        match self {
            Json::Array(items) => {
                proof {
                    reveal_with_fuel(<Json as View>::view, 2);
                }
                assert(items.deep_view() =~= self@->Array_0);
                Some(items)
            },
            _ => None,
        }
    }

    /// Whether the document is an object.
    pub fn is_object(&self) -> (r: bool)
        ensures
            r == (self@ is Object),
    {
        match self {
            Json::Object(_) => true,
            _ => false,
        }
    }

    /// Whether the member of that name is missing or `null`.
    pub fn lacks(&self, name: &str) -> (r: bool)
        ensures
            r == self@.lacks(name@),
    {
        match self.member(name) {
            None => true,
            Some(Json::Null) => true,
            Some(_) => false,
        }
    }

    /// The string that a required member holds.
    pub fn text_at(&self, name: &str) -> (r: Option<String>)
        ensures
            r.deep_view() == self@.text_at(name@),
    {
        match self.member(name) {
            Some(v) => match v.as_text() {
                Some(s) => Some(s.clone()),
                None => None,
            },
            None => None,
        }
    }

    /// The boolean that a required member holds.
    pub fn bool_at(&self, name: &str) -> (r: Option<bool>)
        ensures
            r == self@.bool_at(name@),
    {
        match self.member(name) {
            Some(v) => v.as_bool(),
            None => None,
        }
    }

    /// The integer that a required member holds.
    pub fn u32_at(&self, name: &str) -> (r: Option<u32>)
        ensures
            r == self@.u32_at(name@),
    {
        match self.member(name) {
            Some(v) => v.as_u32(),
            None => None,
        }
    }

    /// The integer that a required member holds.
    pub fn u64_at(&self, name: &str) -> (r: Option<u64>)
        ensures
            r == self@.u64_at(name@),
    {
        match self.member(name) {
            Some(v) => v.as_u64(),
            None => None,
        }
    }

    /// The string of an optional member: `Some(None)` where the document lacks
    /// the member, `None` where the member holds something else than a string.
    pub fn optional_text_at(&self, name: &str) -> (r: Option<Option<String>>)
        ensures
            r.deep_view() == self@.optional_text_at(name@),
    {
        if self.lacks(name) {
            Some(None)
        } else {
            match self.text_at(name) {
                Some(s) => Some(Some(s)),
                None => None,
            }
        }
    }

    /// The boolean of an optional member, as [`Self::optional_text_at`].
    pub fn optional_bool_at(&self, name: &str) -> (r: Option<Option<bool>>)
        ensures
            r == self@.optional_bool_at(name@),
    {
        if self.lacks(name) {
            Some(None)
        } else {
            match self.bool_at(name) {
                Some(b) => Some(Some(b)),
                None => None,
            }
        }
    }

    /// The integer of an optional member, as [`Self::optional_text_at`].
    pub fn optional_u32_at(&self, name: &str) -> (r: Option<Option<u32>>)
        ensures
            r == self@.optional_u32_at(name@),
    {
        if self.lacks(name) {
            Some(None)
        } else {
            match self.u32_at(name) {
                Some(n) => Some(Some(n)),
                None => None,
            }
        }
    }

    /// The integer of an optional member, as [`Self::optional_text_at`].
    pub fn optional_u64_at(&self, name: &str) -> (r: Option<Option<u64>>)
        ensures
            r == self@.optional_u64_at(name@),
    {
        if self.lacks(name) {
            Some(None)
        } else {
            match self.u64_at(name) {
                Some(n) => Some(Some(n)),
                None => None,
            }
        }
    }
}

} // verus!
