//! A JSON document model: values, objects kept in key order, and their
//! mathematical view.
use vstd::prelude::*;
use crate::text::{chars_eq, str_lt, chars_lt};

verus! {

broadcast use vstd::std_specs::vec::group_vec_axioms;

/// The mathematical view of a JSON value.  Object members are listed in the
/// order of their keys; numbers keep their canonical text.
pub enum Json {
    Null,
    Bool(bool),
    Number(Seq<char>),
    Str(Seq<char>),
    Array(Seq<Json>),
    Object(Seq<(Seq<char>, Json)>),
}

/// Members of a response that this crate does not model, kept as received.
pub type ExtraFields = JsonObject;

/// A JSON value.
#[derive(Debug)]
pub enum JsonValue {
    Null,
    Bool(bool),
    /// A number, held as its canonical decimal text.
    Number(String),
    String(String),
    Array(Vec<JsonValue>),
    Object(JsonObject),
}

/// A JSON object: members with distinct keys, kept sorted by key.
#[derive(Debug)]
pub struct JsonObject {
    entries: Vec<(String, JsonValue)>,
}

pub closed spec fn value_view(v: JsonValue) -> Json
    decreases v,
{
    match v {
        JsonValue::Null => Json::Null,
        JsonValue::Bool(b) => Json::Bool(b),
        JsonValue::Number(n) => Json::Number(n@),
        JsonValue::String(s) => Json::Str(s@),
        JsonValue::Array(items) => Json::Array(items_view(items@)),
        JsonValue::Object(o) => Json::Object(entries_view(o.entries@)),
    }
}

pub closed spec fn items_view(s: Seq<JsonValue>) -> Seq<Json>
    decreases s,
{
    if s.len() == 0 {
        Seq::empty()
    } else {
        items_view(s.drop_last()).push(value_view(s.last()))
    }
}

spec fn entries_view(s: Seq<(String, JsonValue)>) -> Seq<(Seq<char>, Json)>
    decreases s,
{
    if s.len() == 0 {
        Seq::empty()
    } else {
        entries_view(s.drop_last()).push((s.last().0@, value_view(s.last().1)))
    }
}

impl View for JsonValue {
    type V = Json;

    open spec fn view(&self) -> Json {
        value_view(*self)
    }
}

impl View for JsonObject {
    type V = Seq<(Seq<char>, Json)>;

    closed spec fn view(&self) -> Seq<(Seq<char>, Json)> {
        entries_view(self.entries@)
    }
}

pub proof fn lemma_items_view(s: Seq<JsonValue>)
    ensures
        items_view(s).len() == s.len(),
        forall|i: int| 0 <= i < s.len() ==> #[trigger] items_view(s)[i] == value_view(s[i]),
    decreases s.len(),
{
    if s.len() > 0 {
        lemma_items_view(s.drop_last());
    }
}

proof fn lemma_entries_view(s: Seq<(String, JsonValue)>)
    ensures
        entries_view(s).len() == s.len(),
        forall|i: int|
            0 <= i < s.len() ==> #[trigger] entries_view(s)[i] == (s[i].0@, value_view(s[i].1)),
    decreases s.len(),
{
    if s.len() > 0 {
        lemma_entries_view(s.drop_last());
    }
}

/// How a value's view is built from its parts.
pub broadcast proof fn lemma_value_view(v: JsonValue)
    ensures
        #[trigger] value_view(v) == match v {
            JsonValue::Null => Json::Null,
            JsonValue::Bool(b) => Json::Bool(b),
            JsonValue::Number(n) => Json::Number(n@),
            JsonValue::String(s) => Json::Str(s@),
            JsonValue::Array(items) => Json::Array(items_view(items@)),
            JsonValue::Object(o) => Json::Object(o@),
        },
{
}

/// Whether the keys of `e` are strictly increasing.
pub open spec fn keys_sorted(e: Seq<(Seq<char>, Json)>) -> bool {
    forall|i: int, j: int| 0 <= i < j < e.len() ==> chars_lt(#[trigger] e[i].0, #[trigger] e[j].0)
}

/// The value stored under `key`, the first member with that key.
pub open spec fn obj_get(e: Seq<(Seq<char>, Json)>, key: Seq<char>) -> Option<Json>
    decreases e.len(),
{
    if e.len() == 0 {
        None
    } else if e[0].0 == key {
        Some(e[0].1)
    } else {
        obj_get(e.drop_first(), key)
    }
}

/// Stores `value` under `key`: replaces the member with that key, or adds a
/// member before the first key that sorts after it.
pub open spec fn obj_insert(e: Seq<(Seq<char>, Json)>, key: Seq<char>, value: Json) -> Seq<
    (Seq<char>, Json),
>
    decreases e.len(),
{
    if e.len() == 0 {
        seq![(key, value)]
    } else if e[0].0 == key {
        seq![(key, value)] + e.drop_first()
    } else if chars_lt(key, e[0].0) {
        seq![(key, value)] + e
    } else {
        seq![e[0]] + obj_insert(e.drop_first(), key, value)
    }
}

/// Drops the first member with key `key`.
pub open spec fn obj_remove(e: Seq<(Seq<char>, Json)>, key: Seq<char>) -> Seq<(Seq<char>, Json)>
    decreases e.len(),
{
    if e.len() == 0 {
        e
    } else if e[0].0 == key {
        e.drop_first()
    } else {
        seq![e[0]] + obj_remove(e.drop_first(), key)
    }
}

/// Number of JSON values in `v`, `v` included (object keys are not values).
pub open spec fn count_nodes(v: Json) -> nat
    decreases v,
{
    match v {
        Json::Array(items) => 1 + count_items(items),
        Json::Object(e) => 1 + count_entries(e),
        _ => 1,
    }
}

pub open spec fn count_items(s: Seq<Json>) -> nat
    decreases s,
{
    if s.len() == 0 {
        0
    } else {
        count_items(s.drop_last()) + count_nodes(s.last())
    }
}

pub open spec fn count_entries(s: Seq<(Seq<char>, Json)>) -> nat
    decreases s,
{
    if s.len() == 0 {
        0
    } else {
        count_entries(s.drop_last()) + count_nodes(s.last().1)
    }
}

impl JsonObject {
    /// An object without members.
    pub fn new() -> (r: Self)
        ensures
            r@ == Seq::<(Seq<char>, Json)>::empty(),
    {
        JsonObject { entries: Vec::new() }
    }

    /// Number of members.
    pub fn len(&self) -> (r: usize)
        ensures
            r == self@.len(),
    {
        proof {
            lemma_entries_view(self.entries@);
        }
        self.entries.len()
    }

    /// Whether the object has no member.
    pub fn is_empty(&self) -> (r: bool)
        ensures
            r == (self@.len() == 0),
    {
        self.len() == 0
    }

    /// The key of the member at `index`.
    pub fn key_at(&self, index: usize) -> (r: &String)
        requires
            index < self@.len(),
        ensures
            r@ == self@[index as int].0,
    {
        proof {
            lemma_entries_view(self.entries@);
        }
        &self.entries[index].0
    }

    /// The value of the member at `index`.
    pub fn value_at(&self, index: usize) -> (r: &JsonValue)
        requires
            index < self@.len(),
        ensures
            r@ == self@[index as int].1,
    {
        proof {
            lemma_entries_view(self.entries@);
        }
        &self.entries[index].1
    }

    /// The value stored under `key`.
    pub fn get(&self, key: &str) -> (r: Option<&JsonValue>)
        ensures
            match r {
                Some(v) => obj_get(self@, key@) == Some(v@),
                None => obj_get(self@, key@) is None,
            },
    {
        proof {
            lemma_entries_view(self.entries@);
        }
        let n = self.entries.len();
        let mut i: usize = 0;
        assert(self@.skip(0) =~= self@);
        assert(self@.take(0) + self@ =~= self@);
        while i < n
            invariant
                n == self.entries@.len(),
                n == self@.len(),
                i <= n,
                obj_get(self@, key@) == obj_get(self@.skip(i as int), key@),
                forall|j: int|
                    0 <= j < n ==> #[trigger] self@[j] == (self.entries@[j].0@, value_view(
                        self.entries@[j].1,
                    )),
            decreases n - i,
        {
            let (k, v) = &self.entries[i];
            assert(self@.skip(i as int).drop_first() =~= self@.skip(i + 1));
            if chars_eq(k.as_str(), key) {
                return Some(v);
            }
            i = i + 1;
        }
        None
    }

    /// Whether some member has key `key`.
    pub fn contains_key(&self, key: &str) -> (r: bool)
        ensures
            r == (obj_get(self@, key@) is Some),
    {
        match self.get(key) {
            Some(_) => true,
            None => false,
        }
    }

    /// Stores `value` under `key`, keeping the members sorted by key.
    pub fn insert(&mut self, key: String, value: JsonValue)
        ensures
            final(self)@ == obj_insert(old(self)@, key@, value@),
    {
        proof {
            lemma_entries_view(self.entries@);
        }
        let n = self.entries.len();
        let mut i: usize = 0;
        assert(self@.skip(0) =~= self@);
        assert(self@.take(0) + self@ =~= self@);
        while i < n
            invariant
                n == self.entries@.len(),
                n == self@.len(),
                i <= n,
                self@ == old(self)@,
                forall|j: int|
                    0 <= j < n ==> #[trigger] self@[j] == (self.entries@[j].0@, value_view(
                        self.entries@[j].1,
                    )),
                obj_insert(self@, key@, value@) == self@.take(i as int) + obj_insert(
                    self@.skip(i as int),
                    key@,
                    value@,
                ),
            decreases n - i,
        {
            let k = &self.entries[i].0;
            let ghost rest = self@.skip(i as int);
            assert(rest[0] == self@[i as int]);
            if chars_eq(k.as_str(), key.as_str()) {
                let ghost before = self@;
                self.entries.set(i, (key, value));
                proof {
                    lemma_entries_view(self.entries@);
                    assert(self@ =~= before.take(i as int) + obj_insert(rest, key@, value@));
                }
                return ;
            }
            if str_lt(key.as_str(), k.as_str()) {
                let ghost before = self@;
                self.entries.insert(i, (key, value));
                proof {
                    lemma_entries_view(self.entries@);
                    assert(self@ =~= before.take(i as int) + obj_insert(rest, key@, value@));
                }
                return ;
            }
            proof {
                assert(rest.drop_first() =~= self@.skip(i + 1));
                assert(self@.take(i as int) + seq![rest[0]] =~= self@.take(i + 1));
                assert(obj_insert(rest, key@, value@) == seq![rest[0]] + obj_insert(
                    rest.drop_first(),
                    key@,
                    value@,
                ));
                assert(self@.take(i as int) + obj_insert(rest, key@, value@) =~= self@.take(i + 1)
                    + obj_insert(self@.skip(i + 1), key@, value@));
            }
            i = i + 1;
        }
        let ghost before = self@;
        self.entries.push((key, value));
        proof {
            lemma_entries_view(self.entries@);
            assert(before.skip(n as int) =~= Seq::<(Seq<char>, Json)>::empty());
            assert(before.take(n as int) =~= before);
            assert(self@ =~= before.take(n as int) + obj_insert(
                before.skip(n as int),
                key@,
                value@,
            ));
        }
    }

    /// Adds a member after the last one; callers add keys in increasing order.
    pub(crate) fn push_member(&mut self, key: String, value: JsonValue)
        ensures
            final(self)@ == old(self)@.push((key@, value@)),
    {
        proof {
            lemma_entries_view(self.entries@);
        }
        let ghost before = self@;
        self.entries.push((key, value));
        proof {
            lemma_entries_view(self.entries@);
            assert(self@ =~= before.push((key@, value@)));
        }
    }

    /// Drops the member with key `key`, if there is one.
    pub fn remove(&mut self, key: &str)
        ensures
            final(self)@ == obj_remove(old(self)@, key@),
    {
        proof {
            lemma_entries_view(self.entries@);
        }
        let n = self.entries.len();
        let mut i: usize = 0;
        assert(self@.skip(0) =~= self@);
        assert(self@.take(0) + self@ =~= self@);
        while i < n
            invariant
                n == self.entries@.len(),
                n == self@.len(),
                i <= n,
                self@ == old(self)@,
                forall|j: int|
                    0 <= j < n ==> #[trigger] self@[j] == (self.entries@[j].0@, value_view(
                        self.entries@[j].1,
                    )),
                obj_remove(self@, key@) == self@.take(i as int) + obj_remove(
                    self@.skip(i as int),
                    key@,
                ),
            decreases n - i,
        {
            let ghost rest = self@.skip(i as int);
            assert(rest[0] == self@[i as int]);
            if chars_eq(self.entries[i].0.as_str(), key) {
                let ghost before = self@;
                let _ = self.entries.remove(i);
                proof {
                    lemma_entries_view(self.entries@);
                    assert(self@ =~= before.take(i as int) + obj_remove(rest, key@));
                }
                return ;
            }
            proof {
                assert(rest.drop_first() =~= self@.skip(i + 1));
                assert(self@.take(i as int) + obj_remove(rest, key@) =~= self@.take(i + 1)
                    + obj_remove(self@.skip(i + 1), key@));
            }
            i = i + 1;
        }
        proof {
            assert(self@.skip(n as int) =~= Seq::<(Seq<char>, Json)>::empty());
            assert(self@.take(n as int) =~= self@);
        }
    }
}


/// A size measure of a value that counts values and object keys alike.
pub open spec fn msize(v: Json) -> nat
    decreases v,
{
    match v {
        Json::Array(s) => 1 + msize_items(s),
        Json::Object(e) => 1 + msize_entries(e),
        _ => 1,
    }
}

pub open spec fn msize_items(s: Seq<Json>) -> nat
    decreases s,
{
    if s.len() == 0 {
        0
    } else {
        1 + msize(s[0]) + msize_items(s.drop_first())
    }
}

pub open spec fn msize_entries(e: Seq<(Seq<char>, Json)>) -> nat
    decreases e,
{
    if e.len() == 0 {
        0
    } else {
        1 + msize(e[0].1) + msize_entries(e.drop_first())
    }
}

pub proof fn lemma_msize_items_skip(s: Seq<Json>, i: int)
    requires
        0 <= i < s.len(),
    ensures
        msize_items(s.skip(i)) == 1 + msize(s[i]) + msize_items(s.skip(i + 1)),
        msize(s[i]) < msize_items(s),
        msize_items(s.skip(i)) <= msize_items(s),
    decreases i,
{
    assert(s.skip(i).drop_first() =~= s.skip(i + 1));
    if i > 0 {
        lemma_msize_items_skip(s.drop_first(), i - 1);
        assert(s.drop_first().skip(i - 1) =~= s.skip(i));
        assert(s.drop_first().skip(i) =~= s.skip(i + 1));
    } else {
        assert(s.skip(0) =~= s);
    }
}

pub proof fn lemma_msize_entries_skip(e: Seq<(Seq<char>, Json)>, i: int)
    requires
        0 <= i < e.len(),
    ensures
        msize_entries(e.skip(i)) == 1 + msize(e[i].1) + msize_entries(e.skip(i + 1)),
        msize(e[i].1) < msize_entries(e),
        msize_entries(e.skip(i)) <= msize_entries(e),
    decreases i,
{
    assert(e.skip(i).drop_first() =~= e.skip(i + 1));
    if i > 0 {
        lemma_msize_entries_skip(e.drop_first(), i - 1);
        assert(e.drop_first().skip(i - 1) =~= e.skip(i));
        assert(e.drop_first().skip(i) =~= e.skip(i + 1));
    } else {
        assert(e.skip(0) =~= e);
    }
}

/// A value found by key is smaller than the object that holds it.
pub proof fn lemma_obj_get_smaller(e: Seq<(Seq<char>, Json)>, key: Seq<char>)
    ensures
        obj_get(e, key) matches Some(x) ==> msize(x) < msize_entries(e),
    decreases e.len(),
{
    if e.len() > 0 && e[0].0 != key {
        lemma_obj_get_smaller(e.drop_first(), key);
    }
}

/// Reading a key after storing under a key.
pub proof fn lemma_obj_get_insert(
    e: Seq<(Seq<char>, Json)>,
    key: Seq<char>,
    value: Json,
    other: Seq<char>,
)
    ensures
        obj_get(obj_insert(e, key, value), other) == if other == key {
            Some(value)
        } else {
            obj_get(e, other)
        },
    decreases e.len(),
{
    let e2 = obj_insert(e, key, value);
    if e.len() == 0 {
        assert(e2.drop_first() =~= e);
    } else {
        if e[0].0 == key {
            assert(e2.drop_first() =~= e.drop_first());
        } else if chars_lt(key, e[0].0) {
            assert(e2.drop_first() =~= e);
        } else {
            lemma_obj_get_insert(e.drop_first(), key, value, other);
            assert(e2.drop_first() =~= obj_insert(e.drop_first(), key, value));
        }
    }
}

/// Reading a key after dropping a key.
pub proof fn lemma_obj_get_remove(e: Seq<(Seq<char>, Json)>, key: Seq<char>, other: Seq<char>)
    requires
        other != key,
    ensures
        obj_get(obj_remove(e, key), other) == obj_get(e, other),
    decreases e.len(),
{
    if e.len() > 0 && e[0].0 != key {
        lemma_obj_get_remove(e.drop_first(), key, other);
        assert((seq![e[0]] + obj_remove(e.drop_first(), key)).drop_first() =~= obj_remove(
            e.drop_first(),
            key,
        ));
    }
}

/// The characters that stand for the digits 0 to 9.
pub open spec fn digit_char(d: nat) -> char {
    seq!['0', '1', '2', '3', '4', '5', '6', '7', '8', '9'][d as int]
}

/// The decimal text of a natural number.
pub open spec fn nat_text(n: nat) -> Seq<char>
    decreases n,
{
    if n < 10 {
        seq![digit_char(n)]
    } else {
        nat_text(n / 10).push(digit_char(n % 10))
    }
}

fn digit(d: usize) -> (c: char)
    requires
        d < 10,
    ensures
        c == digit_char(d as nat),
{
    if d == 0 {
        '0'
    } else if d == 1 {
        '1'
    } else if d == 2 {
        '2'
    } else if d == 3 {
        '3'
    } else if d == 4 {
        '4'
    } else if d == 5 {
        '5'
    } else if d == 6 {
        '6'
    } else if d == 7 {
        '7'
    } else if d == 8 {
        '8'
    } else {
        '9'
    }
}

/// Appends the decimal text of `n`.
pub fn push_decimal(n: usize, out: &mut String)
    ensures
        final(out)@ == old(out)@ + nat_text(n as nat),
    decreases n,
{
    if n >= 10 {
        push_decimal(n / 10, out);
    }
    out.push(digit(n % 10));
    proof {
        if n >= 10 {
            assert(old(out)@ + nat_text(n as nat) =~= old(out)@ + nat_text((n / 10) as nat) + seq![
                digit_char((n % 10) as nat),
            ]);
        } else {
            assert(old(out)@ + nat_text(n as nat) =~= old(out)@.push(digit_char(n as nat)));
        }
    }
}

/// The characters of a hexadecimal digit, in lower case.
pub open spec fn hex_char(d: nat) -> char {
    seq!['0', '1', '2', '3', '4', '5', '6', '7', '8', '9', 'a', 'b', 'c', 'd', 'e', 'f'][d as int]
}

/// How one character of a string is written inside a JSON string literal.
pub open spec fn escape_json_char(c: char) -> Seq<char> {
    if c == '"' {
        seq!['\\', '"']
    } else if c == '\\' {
        seq!['\\', '\\']
    } else if c == '\n' {
        seq!['\\', 'n']
    } else if c == '\r' {
        seq!['\\', 'r']
    } else if c == '\t' {
        seq!['\\', 't']
    } else if c == '\u{8}' {
        seq!['\\', 'b']
    } else if c == '\u{c}' {
        seq!['\\', 'f']
    } else if (c as u32) < 0x20 {
        seq!['\\', 'u', '0', '0', hex_char((c as u32 / 16) as nat), hex_char((c as u32 % 16) as nat)]
    } else {
        seq![c]
    }
}

/// The characters of a string with JSON escapes applied.
pub open spec fn escape_json(s: Seq<char>) -> Seq<char>
    decreases s.len(),
{
    if s.len() == 0 {
        Seq::empty()
    } else {
        escape_json(s.drop_last()) + escape_json_char(s.last())
    }
}

/// The compact JSON text of a value: no white space, members in key order.
pub open spec fn json_text(v: Json) -> Seq<char>
    decreases v,
{
    match v {
        Json::Null => seq!['n', 'u', 'l', 'l'],
        Json::Bool(b) => if b {
            seq!['t', 'r', 'u', 'e']
        } else {
            seq!['f', 'a', 'l', 's', 'e']
        },
        Json::Number(n) => n,
        Json::Str(s) => seq!['"'] + escape_json(s) + seq!['"'],
        Json::Array(items) => seq!['['] + items_text(items) + seq![']'],
        Json::Object(e) => seq!['{'] + members_text(e) + seq!['}'],
    }
}

/// Comma-separated texts of the items.
pub open spec fn items_text(s: Seq<Json>) -> Seq<char>
    decreases s,
{
    if s.len() == 0 {
        Seq::empty()
    } else if s.len() == 1 {
        json_text(s[0])
    } else {
        items_text(s.drop_last()) + seq![','] + json_text(s.last())
    }
}

/// Comma-separated `"key":value` texts of the members.
pub open spec fn members_text(e: Seq<(Seq<char>, Json)>) -> Seq<char>
    decreases e,
{
    if e.len() == 0 {
        Seq::empty()
    } else if e.len() == 1 {
        seq!['"'] + escape_json(e[0].0) + seq!['"', ':'] + json_text(e[0].1)
    } else {
        members_text(e.drop_last()) + seq![','] + seq!['"'] + escape_json(e.last().0) + seq![
            '"',
            ':',
        ] + json_text(e.last().1)
    }
}

fn hex_digit(d: u32) -> (c: char)
    requires
        d < 16,
    ensures
        c == hex_char(d as nat),
{
    if d < 10 {
        digit(d as usize)
    } else if d == 10 {
        'a'
    } else if d == 11 {
        'b'
    } else if d == 12 {
        'c'
    } else if d == 13 {
        'd'
    } else if d == 14 {
        'e'
    } else {
        'f'
    }
}

/// Appends the JSON escape of one character.
fn push_escaped_char(c: char, out: &mut String)
    ensures
        final(out)@ == old(out)@ + escape_json_char(c),
{
    let v = c as u32;
    if c == '"' {
        out.push('\\');
        out.push('"');
    } else if c == '\\' {
        out.push('\\');
        out.push('\\');
    } else if c == '\n' {
        out.push('\\');
        out.push('n');
    } else if c == '\r' {
        out.push('\\');
        out.push('r');
    } else if c == '\t' {
        out.push('\\');
        out.push('t');
    } else if c == '\u{8}' {
        out.push('\\');
        out.push('b');
    } else if c == '\u{c}' {
        out.push('\\');
        out.push('f');
    } else if v < 0x20 {
        out.push('\\');
        out.push('u');
        out.push('0');
        out.push('0');
        out.push(hex_digit(v / 16));
        out.push(hex_digit(v % 16));
    } else {
        out.push(c);
    }
    assert(final(out)@ =~= old(out)@ + escape_json_char(c));
}

/// Appends the quoted JSON string literal of `s`.
pub fn push_json_string(s: &str, out: &mut String)
    ensures
        final(out)@ == old(out)@ + seq!['"'] + escape_json(s@) + seq!['"'],
{
    out.push('"');
    let ghost start = out@;
    let n = s.unicode_len();
    let mut i: usize = 0;
    assert(s@.take(0) =~= Seq::<char>::empty());
    while i < n
        invariant
            n == s@.len(),
            i <= n,
            out@ == start + escape_json(s@.take(i as int)),
        decreases n - i,
    {
        let c = s.get_char(i);
        push_escaped_char(c, out);
        proof {
            assert(s@.take(i + 1).drop_last() =~= s@.take(i as int));
            assert(s@.take(i + 1).last() == c);
        }
        i = i + 1;
    }
    assert(s@.take(n as int) =~= s@);
    out.push('"');
}

impl JsonValue {
    /// An equal copy of the value.
    pub fn duplicate(&self) -> (r: JsonValue)
        ensures
            r@ == self@,
        decreases msize(self@), 1nat,
    {
        proof {
            lemma_value_view(*self);
        }
        match self {
            JsonValue::Null => JsonValue::Null,
            JsonValue::Bool(b) => JsonValue::Bool(*b),
            JsonValue::Number(n) => JsonValue::Number(n.clone()),
            JsonValue::String(s) => JsonValue::String(s.clone()),
            JsonValue::Array(items) => {
                let mut out: Vec<JsonValue> = Vec::new();
                let n = items.len();
                let mut i: usize = 0;
                proof {
                    lemma_items_view(items@);
                }
                while i < n
                    invariant
                        n == items@.len(),
                        i <= n,
                        out@.len() == i,
                        self@ == Json::Array(items_view(items@)),
                        items_view(items@).len() == n,
                        forall|j: int| 0 <= j < n ==> #[trigger] items_view(items@)[j] == items@[j]@,
                        forall|j: int| 0 <= j < i ==> #[trigger] out@[j]@ == items@[j]@,
                    decreases n - i,
                {
                    proof {
                        lemma_msize_items_skip(items_view(items@), i as int);
                    }
                    let copy = items[i].duplicate();
                    out.push(copy);
                    i = i + 1;
                }
                proof {
                    lemma_items_view(out@);
                    assert forall|j: int| 0 <= j < n implies items_view(out@)[j] == items_view(
                        items@,
                    )[j] by {
                        assert(out@[j]@ == items@[j]@);
                    }
                    assert(items_view(out@) =~= items_view(items@));
                    lemma_value_view(JsonValue::Array(out));
                }
                JsonValue::Array(out)
            },
            JsonValue::Object(o) => {
                let copy = o.duplicate();
                proof {
                    lemma_value_view(JsonValue::Object(copy));
                }
                JsonValue::Object(copy)
            },
        }
    }

    /// Appends the compact JSON text of the value.
    pub fn write_text(&self, out: &mut String)
        ensures
            final(out)@ == old(out)@ + json_text(self@),
        decreases msize(self@), 1nat,
    {
        proof {
            lemma_value_view(*self);
        }
        match self {
            JsonValue::Null => {
                out.push('n');
                out.push('u');
                out.push('l');
                out.push('l');
                assert(final(out)@ =~= old(out)@ + json_text(self@));
            },
            JsonValue::Bool(b) => {
                if *b {
                    out.push('t');
                    out.push('r');
                    out.push('u');
                    out.push('e');
                } else {
                    out.push('f');
                    out.push('a');
                    out.push('l');
                    out.push('s');
                    out.push('e');
                }
                assert(final(out)@ =~= old(out)@ + json_text(self@));
            },
            JsonValue::Number(n) => {
                out.append(n.as_str());
            },
            JsonValue::String(s) => {
                push_json_string(s.as_str(), out);
            },
            JsonValue::Array(items) => {
                out.push('[');
                let ghost start = out@;
                let n = items.len();
                let mut i: usize = 0;
                proof {
                    lemma_items_view(items@);
                    assert(items_view(items@).take(0) =~= Seq::<Json>::empty());
                }
                while i < n
                    invariant
                        n == items@.len(),
                        i <= n,
                        self@ == Json::Array(items_view(items@)),
                        items_view(items@).len() == n,
                        forall|j: int| 0 <= j < n ==> #[trigger] items_view(items@)[j] == items@[j]@,
                        out@ == start + items_text(items_view(items@).take(i as int)),
                    decreases n - i,
                {
                    proof {
                        lemma_msize_items_skip(items_view(items@), i as int);
                    }
                    if i > 0 {
                        out.push(',');
                    }
                    items[i].write_text(out);
                    proof {
                        let t = items_view(items@).take(i + 1);
                        assert(t.drop_last() =~= items_view(items@).take(i as int));
                        assert(t.last() == items@[i as int]@);
                        if i == 0 {
                            assert(out@ =~= start + items_text(t));
                        } else {
                            assert(out@ =~= start + items_text(t));
                        }
                    }
                    i = i + 1;
                }
                assert(items_view(items@).take(n as int) =~= items_view(items@));
                out.push(']');
                assert(final(out)@ =~= old(out)@ + json_text(self@));
            },
            JsonValue::Object(o) => {
                o.write_text(out);
            },
        }
    }
}

impl JsonObject {
    /// An equal copy of the object.
    pub fn duplicate(&self) -> (r: JsonObject)
        ensures
            r@ == self@,
        decreases msize(Json::Object(self@)), 0nat,
    {
        proof {
            lemma_entries_view(self.entries@);
        }
        let mut out: Vec<(String, JsonValue)> = Vec::new();
        let n = self.entries.len();
        let mut i: usize = 0;
        while i < n
            invariant
                n == self.entries@.len(),
                n == self@.len(),
                i <= n,
                out@.len() == i,
                forall|j: int|
                    0 <= j < n ==> #[trigger] self@[j] == (self.entries@[j].0@, self.entries@[j].1@),
                forall|j: int|
                    0 <= j < i ==> (#[trigger] out@[j]).0@ == self.entries@[j].0@ && out@[j].1@
                        == self.entries@[j].1@,
            decreases n - i,
        {
            proof {
                lemma_msize_entries_skip(self@, i as int);
            }
            let key = self.entries[i].0.clone();
            let value = self.entries[i].1.duplicate();
            out.push((key, value));
            i = i + 1;
        }
        let r = JsonObject { entries: out };
        proof {
            lemma_entries_view(r.entries@);
            assert(r@ =~= self@);
        }
        r
    }

    /// Appends the compact JSON text of the object.
    pub fn write_text(&self, out: &mut String)
        ensures
            final(out)@ == old(out)@ + json_text(Json::Object(self@)),
        decreases msize(Json::Object(self@)), 0nat,
    {
        proof {
            lemma_entries_view(self.entries@);
        }
        out.push('{');
        let ghost start = out@;
        let n = self.entries.len();
        let mut i: usize = 0;
        assert(self@.take(0) =~= Seq::<(Seq<char>, Json)>::empty());
        while i < n
            invariant
                n == self.entries@.len(),
                n == self@.len(),
                i <= n,
                forall|j: int|
                    0 <= j < n ==> #[trigger] self@[j] == (self.entries@[j].0@, self.entries@[j].1@),
                out@ == start + members_text(self@.take(i as int)),
            decreases n - i,
        {
            proof {
                lemma_msize_entries_skip(self@, i as int);
            }
            if i > 0 {
                out.push(',');
            }
            push_json_string(self.entries[i].0.as_str(), out);
            out.push(':');
            self.entries[i].1.write_text(out);
            proof {
                let t = self@.take(i + 1);
                assert(t.drop_last() =~= self@.take(i as int));
                assert(t.last() == self@[i as int]);
                assert(out@ =~= start + members_text(t));
            }
            i = i + 1;
        }
        assert(self@.take(n as int) =~= self@);
        out.push('}');
        assert(final(out)@ =~= old(out)@ + json_text(Json::Object(self@)));
    }
}

/// `n` capped at `limit + 1`.
pub open spec fn capped(n: nat, limit: nat) -> nat {
    if n <= limit {
        n
    } else {
        limit + 1
    }
}

impl JsonValue {
    /// Counts the values in `self`, `self` included, stopping once the count
    /// passes `limit`.
    pub fn count_nodes_capped(&self, limit: usize) -> (r: usize)
        requires
            limit < usize::MAX,
        ensures
            r == capped(count_nodes(self@), limit as nat),
        decreases msize(self@), 1nat,
    {
        proof {
            lemma_value_view(*self);
        }
        match self {
            JsonValue::Array(items) => {
                let n = items.len();
                let mut total: usize = 1;
                let mut i: usize = 0;
                proof {
                    lemma_items_view(items@);
                    assert(items_view(items@).take(0) =~= Seq::<Json>::empty());
                }
                while i < n
                    invariant
                        n == items@.len(),
                        i <= n,
                        limit < usize::MAX,
                        self@ == Json::Array(items_view(items@)),
                        items_view(items@).len() == n,
                        forall|j: int| 0 <= j < n ==> #[trigger] items_view(items@)[j] == items@[j]@,
                        total == capped(1 + count_items(items_view(items@).take(i as int)), limit as nat),
                    decreases n - i,
                {
                    proof {
                        lemma_msize_items_skip(items_view(items@), i as int);
                    }
                    let c = items[i].count_nodes_capped(limit);
                    proof {
                        let t = items_view(items@).take(i + 1);
                        assert(t.drop_last() =~= items_view(items@).take(i as int));
                        assert(t.last() == items@[i as int]@);
                    }
                    total = if total <= limit && c <= limit - total { total + c } else { limit + 1 };
                    i = i + 1;
                }
                assert(items_view(items@).take(n as int) =~= items_view(items@));
                total
            },
            JsonValue::Object(o) => o.count_nodes_capped(limit),
            _ => 1,
        }
    }
}

impl JsonObject {
    /// Counts the values in the object, the object included, stopping once
    /// the count passes `limit`.
    pub fn count_nodes_capped(&self, limit: usize) -> (r: usize)
        requires
            limit < usize::MAX,
        ensures
            r == capped(count_nodes(Json::Object(self@)), limit as nat),
        decreases msize(Json::Object(self@)), 0nat,
    {
        proof {
            lemma_entries_view(self.entries@);
        }
        let n = self.entries.len();
        let mut total: usize = 1;
        let mut i: usize = 0;
        assert(self@.take(0) =~= Seq::<(Seq<char>, Json)>::empty());
        while i < n
            invariant
                n == self.entries@.len(),
                n == self@.len(),
                i <= n,
                limit < usize::MAX,
                forall|j: int|
                    0 <= j < n ==> #[trigger] self@[j] == (self.entries@[j].0@, self.entries@[j].1@),
                total == capped(1 + count_entries(self@.take(i as int)), limit as nat),
            decreases n - i,
        {
            proof {
                lemma_msize_entries_skip(self@, i as int);
            }
            let c = self.entries[i].1.count_nodes_capped(limit);
            proof {
                let t = self@.take(i + 1);
                assert(t.drop_last() =~= self@.take(i as int));
                assert(t.last() == self@[i as int]);
            }
            total = if total <= limit && c <= limit - total { total + c } else { limit + 1 };
            i = i + 1;
        }
        assert(self@.take(n as int) =~= self@);
        total
    }
}

impl Clone for JsonValue {
    /// An equal copy of the value.
    fn clone(&self) -> (r: Self)
        ensures
            r@ == self@,
    {
        self.duplicate()
    }
}

impl Clone for JsonObject {
    /// An equal copy of the object.
    fn clone(&self) -> (r: Self)
        ensures
            r@ == self@,
    {
        self.duplicate()
    }
}

} // verus!
