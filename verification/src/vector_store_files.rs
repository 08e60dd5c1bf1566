//! Files attached to vector stores: their validated attributes, attribute
//! filters, and the single-file and batch attachment requests.
use vstd::prelude::*;
use crate::entries::{
    keys_ordered, entry_get, entry_insert, lemma_insert_keeps_order, lemma_get_after_insert,
    lemma_insert_len,
};
use crate::json::{ExtraFields, Json, JsonObject, nat_text, push_decimal};
use crate::scalar::{FileId, VectorStoreId};
use crate::text::{chars_eq, chars_lt, str_lt, lemma_chars_lt_irreflexive};
use crate::vector_stores::{
    MAX_VECTOR_STORE_BATCH_FILES, MAX_VECTOR_STORE_PROPERTIES, MAX_VECTOR_STORE_KEY_CHARS,
    MAX_VECTOR_STORE_VALUE_CHARS, VectorStoreBatchFileIds,
    VectorStoreChunkingStrategy, VectorStoreChunkingStrategyRequest, VectorStoreComparisonOperator,
    VectorStoreCompoundOperator, VectorStoreFileLastError, VectorStoreMaxResults, VectorStoreRanker,
    VectorStoreSearchContent, VectorStoreSearchPageObjectType, VectorStoreSearchQuery,
    VectorStoreSearchQueryOutput, DEFAULT_VECTOR_STORE_SEARCH_RESULTS, VectorStoreFileObjectType,
    VectorStoreFileStatus, VectorStoreListObjectType, VectorStoreValidationError, grown_count, key_error,
    validate_map_key, validate_string_value, value_error,
};
use crate::wire::{Nullable, Omittable};

verus! {

/// The value of one file attribute, as the contracts see it.
pub enum AttributeValueView {
    Str(Seq<char>),
    /// A JSON number, by its text.
    Number(Seq<char>),
    Boolean(bool),
}

/// The value of one file attribute.
#[derive(Debug)]
pub enum VectorStoreAttributeValue {
    String(String),
    /// A finite JSON number, as its JSON text.
    Number(String),
    Boolean(bool),
}

impl View for VectorStoreAttributeValue {
    type V = AttributeValueView;

    open spec fn view(&self) -> AttributeValueView {
        match self {
            VectorStoreAttributeValue::String(s) => AttributeValueView::Str(s@),
            VectorStoreAttributeValue::Number(n) => AttributeValueView::Number(n@),
            VectorStoreAttributeValue::Boolean(b) => AttributeValueView::Boolean(*b),
        }
    }
}

/// The error of a string attribute value that is too long, if it is.
pub open spec fn attribute_value_error(value: AttributeValueView) -> Option<VectorStoreValidationError> {
    match value {
        AttributeValueView::Str(s) => value_error(s),
        _ => None,
    }
}

impl VectorStoreAttributeValue {
    /// A string value of at most 512 characters.
    pub fn string(value: &str) -> (r: Result<Self, VectorStoreValidationError>)
        ensures
            match value_error(value@) {
                Some(e) => r == Err::<Self, VectorStoreValidationError>(e),
                None => r matches Ok(v) && v@ == AttributeValueView::Str(value@),
            },
    {
        match validate_string_value(value) {
            Ok(()) => Ok(VectorStoreAttributeValue::String(value.to_owned())),
            Err(e) => Err(e),
        }
    }
}

/// Checks one attribute value.
fn validate_attribute_value(value: &VectorStoreAttributeValue) -> (r: Result<(), VectorStoreValidationError>)
    ensures
        match attribute_value_error(value@) {
            Some(e) => r == Err::<(), VectorStoreValidationError>(e),
            None => r is Ok,
        },
{
    match value {
        VectorStoreAttributeValue::String(s) => validate_string_value(s.as_str()),
        _ => Ok(()),
    }
}

/// The view of attribute pairs.
pub open spec fn attribute_pairs_view(v: Seq<(String, VectorStoreAttributeValue)>) -> Seq<
    (Seq<char>, AttributeValueView),
> {
    v.map_values(|p: (String, VectorStoreAttributeValue)| (p.0@, p.1@))
}

/// The first pair, in key order, whose key or string value is too long.
pub open spec fn first_invalid_attribute(e: Seq<(Seq<char>, AttributeValueView)>) -> Option<
    VectorStoreValidationError,
>
    decreases e.len(),
{
    if e.len() == 0 {
        None
    } else if key_error(e[0].0) is Some {
        key_error(e[0].0)
    } else if attribute_value_error(e[0].1) is Some {
        attribute_value_error(e[0].1)
    } else {
        first_invalid_attribute(e.drop_first())
    }
}

/// Whether the attribute at `i` has a key of at most 64 characters and, when
/// its value is a string, a value of at most 512.
pub open spec fn attribute_pair_within_limits(e: Seq<(Seq<char>, AttributeValueView)>, i: int) -> bool {
    e[i].0.len() <= MAX_VECTOR_STORE_KEY_CHARS && (e[i].1 matches AttributeValueView::Str(s) ==> s.len()
        <= MAX_VECTOR_STORE_VALUE_CHARS)
}

/// The refusal of the attribute at `i`: its key if that is too long, else its
/// string value.
pub open spec fn attribute_pair_refusal(e: Seq<(Seq<char>, AttributeValueView)>, i: int) -> VectorStoreValidationError {
    if e[i].0.len() > MAX_VECTOR_STORE_KEY_CHARS {
        VectorStoreValidationError::KeyTooLong {
            actual: e[i].0.len() as usize,
            maximum: MAX_VECTOR_STORE_KEY_CHARS,
        }
    } else {
        VectorStoreValidationError::ValueTooLong {
            actual: e[i].1->Str_0.len() as usize,
            maximum: MAX_VECTOR_STORE_VALUE_CHARS,
        }
    }
}

proof fn lemma_first_invalid_attribute(e: Seq<(Seq<char>, AttributeValueView)>)
    ensures
        first_invalid_attribute(e) is None <==> forall|i: int| 0 <= i < e.len() ==> #[trigger] attribute_pair_within_limits(e, i),
        first_invalid_attribute(e) is Some ==> exists|i: int|
            0 <= i < e.len() && !attribute_pair_within_limits(e, i) && (forall|j: int|
                0 <= j < i ==> #[trigger] attribute_pair_within_limits(e, j)) && first_invalid_attribute(e) == Some(
                #[trigger] attribute_pair_refusal(e, i),
            ),
    decreases e.len(),
{
    if e.len() > 0 {
        let t = e.drop_first();
        lemma_first_invalid_attribute(t);
        assert forall|i: int| 0 <= i < t.len() implies (attribute_pair_within_limits(t, i) == #[trigger] attribute_pair_within_limits(e, i + 1)
            && attribute_pair_refusal(t, i) == attribute_pair_refusal(e, i + 1)) by {
            assert(t[i] == e[i + 1]);
        }
        if attribute_pair_within_limits(e, 0) {
            if first_invalid_attribute(t) is None {
                assert forall|i: int| 0 <= i < e.len() implies #[trigger] attribute_pair_within_limits(e, i) by {
                    if i > 0 {
                        assert(attribute_pair_within_limits(t, i - 1));
                    }
                }
            } else {
                let k = choose|i: int|
                    0 <= i < t.len() && !attribute_pair_within_limits(t, i) && (forall|j: int|
                        0 <= j < i ==> #[trigger] attribute_pair_within_limits(t, j)) && first_invalid_attribute(t) == Some(
                        #[trigger] attribute_pair_refusal(t, i),
                    );
                assert(attribute_pair_within_limits(t, k) == attribute_pair_within_limits(e, k + 1));
                assert forall|j: int| 0 <= j < k + 1 implies #[trigger] attribute_pair_within_limits(e, j) by {
                    if j > 0 {
                        assert(attribute_pair_within_limits(t, j - 1));
                    }
                }
                assert(!attribute_pair_within_limits(e, k + 1));
            }
        } else {
            assert(!attribute_pair_within_limits(e, 0));
            assert(first_invalid_attribute(e) == Some(attribute_pair_refusal(e, 0)));
        }
    }
}

/// File attributes pass validation exactly when there are at most 16 of them
/// and every one, whatever its position, has a key of at most 64 characters
/// and, when its value is a string, a value of at most 512.  A refusal of at
/// most 16 attributes names the first one over a limit: its key if that is
/// too long, else its string value.
pub proof fn law_attributes_check_examines_every_pair(e: Seq<(Seq<char>, AttributeValueView)>)
    ensures
        attributes_check(e) is Ok <==> (e.len() <= MAX_VECTOR_STORE_PROPERTIES && forall|i: int|
            0 <= i < e.len() ==> (#[trigger] e[i]).0.len() <= MAX_VECTOR_STORE_KEY_CHARS && (e[i].1 matches AttributeValueView::Str(s)
                ==> s.len() <= MAX_VECTOR_STORE_VALUE_CHARS)),
        e.len() <= MAX_VECTOR_STORE_PROPERTIES && attributes_check(e) is Err ==> exists|i: int|
            0 <= i < e.len() && !attribute_pair_within_limits(e, i) && (forall|j: int|
                0 <= j < i ==> #[trigger] attribute_pair_within_limits(e, j))
                && attributes_check(e) == Err::<(), VectorStoreValidationError>(#[trigger] attribute_pair_refusal(e, i)),
{
    lemma_first_invalid_attribute(e);
    assert(forall|i: int| 0 <= i < e.len() ==> (attribute_pair_within_limits(e, i) <==> ((#[trigger] e[i]).0.len()
        <= MAX_VECTOR_STORE_KEY_CHARS && (e[i].1 matches AttributeValueView::Str(s) ==> s.len()
        <= MAX_VECTOR_STORE_VALUE_CHARS))));
}

/// The documented limits of file attributes: at most 16 pairs, then every
/// key and string value short enough.
pub open spec fn attributes_check(e: Seq<(Seq<char>, AttributeValueView)>) -> Result<
    (),
    VectorStoreValidationError,
> {
    if e.len() > MAX_VECTOR_STORE_PROPERTIES {
        Err(
            VectorStoreValidationError::TooManyProperties {
                actual: e.len() as usize,
                maximum: MAX_VECTOR_STORE_PROPERTIES,
            },
        )
    } else {
        match first_invalid_attribute(e) {
            Some(err) => Err(err),
            None => Ok(()),
        }
    }
}

/// Why storing `key: value` in `e` is refused, if it is: a long key, a long
/// string value, or a new key when 16 pairs are already held.
pub open spec fn attribute_insert_error(
    e: Seq<(Seq<char>, AttributeValueView)>,
    key: Seq<char>,
    value: AttributeValueView,
) -> Option<VectorStoreValidationError> {
    if key_error(key) is Some {
        key_error(key)
    } else if attribute_value_error(value) is Some {
        attribute_value_error(value)
    } else if entry_get(e, key) is None && e.len() >= MAX_VECTOR_STORE_PROPERTIES {
        Some(
            VectorStoreValidationError::TooManyProperties {
                actual: grown_count(e.len()),
                maximum: MAX_VECTOR_STORE_PROPERTIES,
            },
        )
    } else {
        None
    }
}

/// Stores each pair in turn, a later pair replacing an earlier one with the
/// same key.
pub open spec fn insert_all_attributes(
    acc: Seq<(Seq<char>, AttributeValueView)>,
    pairs: Seq<(Seq<char>, AttributeValueView)>,
) -> Seq<(Seq<char>, AttributeValueView)>
    decreases pairs.len(),
{
    if pairs.len() == 0 {
        acc
    } else {
        insert_all_attributes(entry_insert(acc, pairs[0].0, pairs[0].1), pairs.drop_first())
    }
}

proof fn lemma_skip_ordered<V>(e: Seq<(Seq<char>, V)>, i: int)
    requires
        keys_ordered(e),
        0 <= i <= e.len(),
    ensures
        keys_ordered(e.skip(i)),
{
    let s = e.skip(i);
    assert forall|a: int, b: int| 0 <= a < b < s.len() implies chars_lt(
        #[trigger] s[a].0,
        #[trigger] s[b].0,
    ) by {
        assert(s[a] == e[a + i] && s[b] == e[b + i]);
    }
}

proof fn lemma_get_below_first<V>(e: Seq<(Seq<char>, V)>, key: Seq<char>, value: V)
    requires
        keys_ordered(e),
        e.len() > 0,
        chars_lt(key, e[0].0),
    ensures
        entry_get(e, key) is None,
{
    lemma_insert_len(e, key, value);
    lemma_chars_lt_irreflexive(key);
    assert(e[0].0 != key);
    assert(entry_insert(e, key, value) == seq![(key, value)] + e);
}

/// Whether `key` is stored among ordered pairs.
fn attributes_contain(entries: &Vec<(String, VectorStoreAttributeValue)>, key: &str) -> (r: bool)
    ensures
        r == (entry_get(attribute_pairs_view(entries@), key@) is Some),
{
    let ghost e = attribute_pairs_view(entries@);
    let n = entries.len();
    let mut i: usize = 0;
    assert(e.skip(0) =~= e);
    while i < n
        invariant
            n == entries@.len(),
            e == attribute_pairs_view(entries@),
            n == e.len(),
            i <= n,
            entry_get(e, key@) == entry_get(e.skip(i as int), key@),
        decreases n - i,
    {
        assert(e.skip(i as int)[0] == e[i as int]);
        assert(e.skip(i as int).drop_first() =~= e.skip(i + 1));
        if chars_eq(entries[i].0.as_str(), key) {
            return true;
        }
        i = i + 1;
    }
    false
}

/// Stores a pair among ordered pairs without checking the limits; returns
/// the replaced value.
fn attributes_insert(
    entries: &mut Vec<(String, VectorStoreAttributeValue)>,
    key: String,
    value: VectorStoreAttributeValue,
) -> (prev: Option<VectorStoreAttributeValue>)
    requires
        keys_ordered(attribute_pairs_view(old(entries)@)),
    ensures
        attribute_pairs_view(final(entries)@) == entry_insert(
            attribute_pairs_view(old(entries)@),
            key@,
            value@,
        ),
        keys_ordered(attribute_pairs_view(final(entries)@)),
        match prev {
            Some(p) => entry_get(attribute_pairs_view(old(entries)@), key@) == Some(p@),
            None => entry_get(attribute_pairs_view(old(entries)@), key@) is None,
        },
{
    let ghost e0 = attribute_pairs_view(entries@);
    proof {
        lemma_insert_keeps_order(e0, key@, value@);
    }
    let n = entries.len();
    let mut i: usize = 0;
    assert(e0.skip(0) =~= e0);
    assert(e0.take(0) + e0 =~= e0);
    while i < n
        invariant
            n == entries@.len(),
            e0 == attribute_pairs_view(entries@),
            e0 == attribute_pairs_view(old(entries)@),
            n == e0.len(),
            i <= n,
            keys_ordered(e0),
            keys_ordered(entry_insert(e0, key@, value@)),
            entry_get(e0, key@) == entry_get(e0.skip(i as int), key@),
            entry_insert(e0, key@, value@) == e0.take(i as int) + entry_insert(
                e0.skip(i as int),
                key@,
                value@,
            ),
        decreases n - i,
    {
        let ghost rest = e0.skip(i as int);
        assert(rest[0] == e0[i as int]);
        assert(rest.drop_first() =~= e0.skip(i + 1));
        let k = &entries[i].0;
        if chars_eq(k.as_str(), key.as_str()) {
            let (_, old_value) = entries.remove(i);
            entries.insert(i, (key, value));
            proof {
                assert(attribute_pairs_view(entries@) =~= e0.take(i as int) + entry_insert(
                    rest,
                    key@,
                    value@,
                ));
            }
            return Some(old_value);
        }
        if str_lt(key.as_str(), k.as_str()) {
            proof {
                lemma_skip_ordered(e0, i as int);
                lemma_get_below_first(rest, key@, value@);
            }
            entries.insert(i, (key, value));
            proof {
                assert(attribute_pairs_view(entries@) =~= e0.take(i as int) + entry_insert(
                    rest,
                    key@,
                    value@,
                ));
            }
            return None;
        }
        proof {
            assert(e0.take(i as int) + entry_insert(rest, key@, value@) =~= e0.take(i + 1)
                + entry_insert(e0.skip(i + 1), key@, value@));
        }
        i = i + 1;
    }
    entries.push((key, value));
    proof {
        assert(e0.skip(n as int) =~= Seq::<(Seq<char>, AttributeValueView)>::empty());
        assert(e0.take(n as int) =~= e0);
        assert(attribute_pairs_view(entries@) =~= e0.take(n as int) + entry_insert(
            e0.skip(n as int),
            key@,
            value@,
        ));
    }
    None
}

/// The attributes of one vector-store file, kept in key order, each key
/// once.
#[derive(Debug)]
pub struct VectorStoreFileAttributes {
    entries: Vec<(String, VectorStoreAttributeValue)>,
}

impl View for VectorStoreFileAttributes {
    type V = Seq<(Seq<char>, AttributeValueView)>;

    closed spec fn view(&self) -> Seq<(Seq<char>, AttributeValueView)> {
        attribute_pairs_view(self.entries@)
    }
}

impl VectorStoreFileAttributes {
    #[verifier::type_invariant]
    spec fn inv(&self) -> bool {
        keys_ordered(attribute_pairs_view(self.entries@))
    }

    /// An empty attribute map.
    pub fn new() -> (r: Self)
        ensures
            r@ == Seq::<(Seq<char>, AttributeValueView)>::empty(),
    {
        let r = VectorStoreFileAttributes { entries: Vec::new() };
        assert(r@ =~= Seq::<(Seq<char>, AttributeValueView)>::empty());
        r
    }

    /// Number of attributes.
    pub fn len(&self) -> (r: usize)
        ensures
            r == self@.len(),
    {
        self.entries.len()
    }

    /// Whether there is no attribute.
    pub fn is_empty(&self) -> (r: bool)
        ensures
            r == (self@.len() == 0),
    {
        self.entries.len() == 0
    }

    /// The pairs, in key order.
    pub fn iter(&self) -> (r: Vec<(&str, &VectorStoreAttributeValue)>)
        ensures
            r@.len() == self@.len(),
            forall|i: int|
                0 <= i < r@.len() ==> (#[trigger] r@[i]).0@ == self@[i].0 && r@[i].1@ == self@[i].1,
    {
        let n = self.entries.len();
        let mut out: Vec<(&str, &VectorStoreAttributeValue)> = Vec::new();
        let mut i: usize = 0;
        while i < n
            invariant
                n == self.entries@.len(),
                i <= n,
                out@.len() == i,
                forall|j: int|
                    0 <= j < i ==> (#[trigger] out@[j]).0@ == self@[j].0 && out@[j].1@ == self@[j].1,
            decreases n - i,
        {
            out.push((self.entries[i].0.as_str(), &self.entries[i].1));
            i = i + 1;
        }
        out
    }

    /// The value stored under `key`.
    pub fn get(&self, key: &str) -> (r: Option<&VectorStoreAttributeValue>)
        ensures
            match r {
                Some(v) => entry_get(self@, key@) == Some(v@),
                None => entry_get(self@, key@) is None,
            },
    {
        let ghost e = self@;
        let n = self.entries.len();
        let mut i: usize = 0;
        assert(e.skip(0) =~= e);
        while i < n
            invariant
                n == self.entries@.len(),
                e == self@,
                n == e.len(),
                i <= n,
                entry_get(e, key@) == entry_get(e.skip(i as int), key@),
            decreases n - i,
        {
            assert(e.skip(i as int)[0] == e[i as int]);
            assert(e.skip(i as int).drop_first() =~= e.skip(i + 1));
            if chars_eq(self.entries[i].0.as_str(), key) {
                return Some(&self.entries[i].1);
            }
            i = i + 1;
        }
        None
    }

    /// Stores one attribute after checking the limits; returns the replaced
    /// value.  A refused attribute leaves the map unchanged.
    pub fn insert(&mut self, key: &str, value: VectorStoreAttributeValue) -> (r: Result<
        Option<VectorStoreAttributeValue>,
        VectorStoreValidationError,
    >)
        ensures
            match attribute_insert_error(old(self)@, key@, value@) {
                Some(err) => r == Err::<Option<VectorStoreAttributeValue>, VectorStoreValidationError>(
                    err,
                ) && final(self)@ == old(self)@,
                None => final(self)@ == entry_insert(old(self)@, key@, value@) && match r {
                    Ok(Some(p)) => entry_get(old(self)@, key@) == Some(p@),
                    Ok(None) => entry_get(old(self)@, key@) is None,
                    Err(_) => false,
                },
            },
    {
        proof {
            use_type_invariant(&*self);
        }
        match validate_map_key(key) {
            Ok(()) => {},
            Err(e) => {
                return Err(e);
            },
        }
        match validate_attribute_value(&value) {
            Ok(()) => {},
            Err(e) => {
                return Err(e);
            },
        }
        if !attributes_contain(&self.entries, key) && self.entries.len() >= MAX_VECTOR_STORE_PROPERTIES {
            return Err(
                VectorStoreValidationError::TooManyProperties {
                    actual: self.entries.len().saturating_add(1),
                    maximum: MAX_VECTOR_STORE_PROPERTIES,
                },
            );
        }
        let mut entries: Vec<(String, VectorStoreAttributeValue)> = Vec::new();
        std::mem::swap(&mut entries, &mut self.entries);
        let prev = attributes_insert(&mut entries, key.to_owned(), value);
        self.entries = entries;
        Ok(prev)
    }

    /// Checks the documented limits without changing the map.
    pub fn validate(&self) -> (r: Result<(), VectorStoreValidationError>)
        ensures
            r == attributes_check(self@),
    {
        let n = self.entries.len();
        if n > MAX_VECTOR_STORE_PROPERTIES {
            return Err(
                VectorStoreValidationError::TooManyProperties {
                    actual: n,
                    maximum: MAX_VECTOR_STORE_PROPERTIES,
                },
            );
        }
        let ghost e = self@;
        let mut i: usize = 0;
        assert(e.skip(0) =~= e);
        while i < n
            invariant
                n == self.entries@.len(),
                e == self@,
                n == e.len(),
                i <= n,
                n <= MAX_VECTOR_STORE_PROPERTIES,
                first_invalid_attribute(e) == first_invalid_attribute(e.skip(i as int)),
            decreases n - i,
        {
            assert(e.skip(i as int)[0] == e[i as int]);
            assert(e.skip(i as int).drop_first() =~= e.skip(i + 1));
            match validate_map_key(self.entries[i].0.as_str()) {
                Ok(()) => {},
                Err(err) => {
                    return Err(err);
                },
            }
            match validate_attribute_value(&self.entries[i].1) {
                Ok(()) => {},
                Err(err) => {
                    return Err(err);
                },
            }
            i = i + 1;
        }
        Ok(())
    }

    /// Decoded attributes: the pairs are stored in turn, a later pair
    /// replacing an earlier one with the same key, and the limits are
    /// checked as decoding requires.
    pub fn from_pairs(pairs: Vec<(String, VectorStoreAttributeValue)>) -> (r: Result<
        Self,
        VectorStoreValidationError,
    >)
        ensures
            match attributes_check(insert_all_attributes(Seq::empty(), attribute_pairs_view(pairs@))) {
                Ok(()) => r matches Ok(a) && a@ == insert_all_attributes(
                    Seq::empty(),
                    attribute_pairs_view(pairs@),
                ),
                Err(e) => r == Err::<Self, VectorStoreValidationError>(e),
            },
    {
        let ghost all = attribute_pairs_view(pairs@);
        let mut entries: Vec<(String, VectorStoreAttributeValue)> = Vec::new();
        let mut pairs = pairs;
        let ghost orig = pairs@;
        let n = pairs.len();
        let mut k: usize = 0;
        assert(all.skip(0) =~= all);
        assert(attribute_pairs_view(entries@) =~= Seq::<(Seq<char>, AttributeValueView)>::empty());
        while k < n
            invariant
                n == orig.len(),
                k <= n,
                pairs@ == orig.skip(k as int),
                all == attribute_pairs_view(orig),
                keys_ordered(attribute_pairs_view(entries@)),
                insert_all_attributes(Seq::empty(), all) == insert_all_attributes(
                    attribute_pairs_view(entries@),
                    all.skip(k as int),
                ),
            decreases n - k,
        {
            let (key, value) = pairs.remove(0);
            proof {
                assert(orig.skip(k as int)[0] == orig[k as int]);
                assert(pairs@ =~= orig.skip(k + 1));
                assert(all.skip(k as int)[0] == all[k as int]);
                assert(all.skip(k as int).drop_first() =~= all.skip(k + 1));
            }
            let _ = attributes_insert(&mut entries, key, value);
            k = k + 1;
        }
        assert(all.skip(n as int).len() == 0);
        let r = VectorStoreFileAttributes { entries };
        match r.validate() {
            Ok(()) => Ok(r),
            Err(e) => Err(e),
        }
    }
}

/// Laws of attribute insertion: a stored attribute reads back, other keys
/// are untouched, the map grows only by a new key and stays in key order.
pub proof fn law_attributes_insert(
    m: Seq<(Seq<char>, AttributeValueView)>,
    key: Seq<char>,
    value: AttributeValueView,
    other: Seq<char>,
)
    requires
        keys_ordered(m),
    ensures
        entry_get(entry_insert(m, key, value), key) == Some(value),
        other != key ==> entry_get(entry_insert(m, key, value), other) == entry_get(m, other),
        entry_insert(m, key, value).len() == m.len() + if entry_get(m, key) is Some {
            0int
        } else {
            1int
        },
        keys_ordered(entry_insert(m, key, value)),
{
    lemma_get_after_insert(m, key, value, key);
    lemma_get_after_insert(m, key, value, other);
    lemma_insert_len(m, key, value);
    lemma_insert_keeps_order(m, key, value);
}

/// An accepted attribute keeps a map of at most 16 pairs within 16 pairs.
pub proof fn law_attributes_insert_bounded(
    m: Seq<(Seq<char>, AttributeValueView)>,
    key: Seq<char>,
    value: AttributeValueView,
)
    requires
        keys_ordered(m),
        m.len() <= MAX_VECTOR_STORE_PROPERTIES,
        attribute_insert_error(m, key, value) is None,
    ensures
        entry_insert(m, key, value).len() <= MAX_VECTOR_STORE_PROPERTIES,
{
    lemma_insert_len(m, key, value);
}


/// One member of a filter list value.
#[derive(Debug, Clone)]
pub enum VectorStoreFilterListValue {
    String(String),
    /// A JSON number, as its JSON text.
    Number(String),
}

/// The value a comparison filter compares with.
#[derive(Debug, Clone)]
pub enum VectorStoreFilterValue {
    String(String),
    /// A JSON number, as its JSON text.
    Number(String),
    Boolean(bool),
    /// A list of strings and numbers, for `in` and `nin`.
    List(Vec<VectorStoreFilterListValue>),
}

/// One comparison with a file attribute.
#[derive(Clone, Debug)]
pub struct VectorStoreComparisonFilter {
    pub operator: VectorStoreComparisonOperator,
    pub key: String,
    pub value: VectorStoreFilterValue,
}

impl VectorStoreComparisonFilter {
    /// Compares the attribute `key` with `value` by `operator`.
    pub fn new(
        operator: VectorStoreComparisonOperator,
        key: &str,
        value: VectorStoreFilterValue,
    ) -> (r: Self)
        ensures
            r.operator == operator,
            r.key@ == key@,
            r.value == value,
    {
        VectorStoreComparisonFilter { operator, key: key.to_owned(), value }
    }

    /// The comparison operator.
    pub fn operator(&self) -> (r: &VectorStoreComparisonOperator)
        ensures
            r == &self.operator,
    {
        &self.operator
    }

    /// The attribute key.
    pub fn key(&self) -> (r: &str)
        ensures
            r@ == self.key@,
    {
        self.key.as_str()
    }

    /// The compared value.
    pub fn value(&self) -> (r: &VectorStoreFilterValue)
        ensures
            r == &self.value,
    {
        &self.value
    }
}

/// A boolean group of filters.
#[derive(Debug)]
pub struct VectorStoreCompoundFilter {
    pub operator: VectorStoreCompoundOperator,
    pub filters: Vec<VectorStoreFilter>,
}

impl VectorStoreCompoundFilter {
    /// Groups `filters` by `operator`.
    pub fn new(operator: VectorStoreCompoundOperator, filters: Vec<VectorStoreFilter>) -> (r: Self)
        ensures
            r.operator == operator,
            r.filters@ == filters@,
    {
        VectorStoreCompoundFilter { operator, filters }
    }

    /// The boolean operator.
    pub fn operator(&self) -> (r: &VectorStoreCompoundOperator)
        ensures
            r == &self.operator,
    {
        &self.operator
    }

    /// The grouped filters.
    pub fn filters(&self) -> (r: &[VectorStoreFilter])
        ensures
            r@ == self.filters@,
    {
        self.filters.as_slice()
    }
}

/// An attribute filter, by its `type` tag.
#[derive(Debug)]
pub enum VectorStoreFilter {
    Comparison(VectorStoreComparisonFilter),
    Compound(Box<VectorStoreCompoundFilter>),
    /// A future filter, kept whole.
    Unknown(JsonObject),
}

/// Which filter a `type` tag selects.
#[derive(Debug, Clone, Copy, PartialEq, Eq, Structural)]
pub enum VectorStoreFilterKind {
    Comparison,
    Compound,
    Unknown,
}

/// The filter kind of a tag: `and` and `or` group, the eight comparison
/// operators compare, anything else is kept whole.
pub open spec fn filter_kind_of(tag: Seq<char>) -> VectorStoreFilterKind {
    if tag == "and"@ || tag == "or"@ {
        VectorStoreFilterKind::Compound
    } else if tag == "eq"@ || tag == "ne"@ || tag == "gt"@ || tag == "gte"@ || tag == "lt"@
        || tag == "lte"@ || tag == "in"@ || tag == "nin"@ {
        VectorStoreFilterKind::Comparison
    } else {
        VectorStoreFilterKind::Unknown
    }
}

/// `and` and `or` group filters, the eight operators `eq`, `ne`, `gt`,
/// `gte`, `lt`, `lte`, `in` and `nin` compare, and any other tag is kept
/// whole.
pub proof fn law_filter_tags_select_filter_kinds(tag: Seq<char>)
    ensures
        tag == "and"@ ==> filter_kind_of(tag) == VectorStoreFilterKind::Compound,
        tag == "or"@ ==> filter_kind_of(tag) == VectorStoreFilterKind::Compound,
        tag == "eq"@ ==> filter_kind_of(tag) == VectorStoreFilterKind::Comparison,
        tag == "ne"@ ==> filter_kind_of(tag) == VectorStoreFilterKind::Comparison,
        tag == "gt"@ ==> filter_kind_of(tag) == VectorStoreFilterKind::Comparison,
        tag == "gte"@ ==> filter_kind_of(tag) == VectorStoreFilterKind::Comparison,
        tag == "lt"@ ==> filter_kind_of(tag) == VectorStoreFilterKind::Comparison,
        tag == "lte"@ ==> filter_kind_of(tag) == VectorStoreFilterKind::Comparison,
        tag == "in"@ ==> filter_kind_of(tag) == VectorStoreFilterKind::Comparison,
        tag == "nin"@ ==> filter_kind_of(tag) == VectorStoreFilterKind::Comparison,
        !(tag == "and"@ || tag == "or"@ || tag == "eq"@ || tag == "ne"@ || tag == "gt"@ || tag == "gte"@ || tag == "lt"@ || tag == "lte"@ || tag == "in"@ || tag == "nin"@) ==> filter_kind_of(tag) == VectorStoreFilterKind::Unknown,
{
    reveal_strlit("and");
    reveal_strlit("or");
    reveal_strlit("eq");
    reveal_strlit("ne");
    reveal_strlit("gt");
    reveal_strlit("gte");
    reveal_strlit("lt");
    reveal_strlit("lte");
    reveal_strlit("in");
    reveal_strlit("nin");
    assert("and"@.len() == 3);
    assert("or"@.len() == 2);
    assert("eq"@.len() == 2);
    assert("ne"@.len() == 2);
    assert("gt"@.len() == 2);
    assert("gte"@.len() == 3);
    assert("lt"@.len() == 2);
    assert("lte"@.len() == 3);
    assert("in"@.len() == 2);
    assert("nin"@.len() == 3);
    assert("and"@[0] != "gte"@[0]);
    assert("and"@[0] != "lte"@[0]);
    assert("and"@[0] != "nin"@[0]);
    assert("or"@[0] != "eq"@[0]);
    assert("or"@[0] != "ne"@[0]);
    assert("or"@[0] != "gt"@[0]);
    assert("or"@[0] != "lt"@[0]);
    assert("or"@[0] != "in"@[0]);
    assert("eq"@[0] != "ne"@[0]);
    assert("eq"@[0] != "gt"@[0]);
    assert("eq"@[0] != "lt"@[0]);
    assert("eq"@[0] != "in"@[0]);
    assert("ne"@[0] != "gt"@[0]);
    assert("ne"@[0] != "lt"@[0]);
    assert("ne"@[0] != "in"@[0]);
    assert("gt"@[0] != "lt"@[0]);
    assert("gt"@[0] != "in"@[0]);
    assert("gte"@[0] != "lte"@[0]);
    assert("gte"@[0] != "nin"@[0]);
    assert("lt"@[0] != "in"@[0]);
    assert("lte"@[0] != "nin"@[0]);
}

/// Routes a decoded filter by its `type` tag.
pub fn filter_kind(tag: &str) -> (r: VectorStoreFilterKind)
    ensures
        r == filter_kind_of(tag@),
{
    if chars_eq(tag, "and") || chars_eq(tag, "or") {
        VectorStoreFilterKind::Compound
    } else if chars_eq(tag, "eq") || chars_eq(tag, "ne") || chars_eq(tag, "gt") || chars_eq(
        tag,
        "gte",
    ) || chars_eq(tag, "lt") || chars_eq(tag, "lte") || chars_eq(tag, "in") || chars_eq(
        tag,
        "nin",
    ) {
        VectorStoreFilterKind::Comparison
    } else {
        VectorStoreFilterKind::Unknown
    }
}

/// A request that attaches one file to a vector store.
#[derive(Clone, Debug)]
pub struct CreateVectorStoreFileRequest {
    pub file_id: FileId,
    pub chunking_strategy: Omittable<VectorStoreChunkingStrategyRequest>,
    pub attributes: Omittable<Nullable<VectorStoreFileAttributes>>,
}

impl CreateVectorStoreFileRequest {
    /// Attaches `file_id` with automatic chunking and no attributes.
    pub fn new(file_id: FileId) -> (r: Self)
        ensures
            r.file_id == file_id,
            r.chunking_strategy is Omitted,
            r.attributes is Omitted,
    {
        CreateVectorStoreFileRequest {
            file_id,
            chunking_strategy: Omittable::Omitted,
            attributes: Omittable::Omitted,
        }
    }

    /// Sets the chunking strategy.
    pub fn with_chunking_strategy(self, strategy: VectorStoreChunkingStrategyRequest) -> (r: Self)
        ensures
            r.chunking_strategy == Omittable::Value(strategy),
            r.file_id == self.file_id,
            r.attributes == self.attributes,
    {
        CreateVectorStoreFileRequest {
            file_id: self.file_id,
            chunking_strategy: Omittable::Value(strategy),
            attributes: self.attributes,
        }
    }

    /// Sets the attributes.
    pub fn with_attributes(self, attributes: VectorStoreFileAttributes) -> (r: Self)
        ensures
            r.attributes == Omittable::Value(Nullable::Value(attributes)),
            r.file_id == self.file_id,
            r.chunking_strategy == self.chunking_strategy,
    {
        CreateVectorStoreFileRequest {
            file_id: self.file_id,
            chunking_strategy: self.chunking_strategy,
            attributes: Omittable::Value(Nullable::Value(attributes)),
        }
    }

    /// Sends explicit `null` attributes.
    pub fn with_attributes_null(self) -> (r: Self)
        ensures
            r.attributes == Omittable::<Nullable<VectorStoreFileAttributes>>::Value(Nullable::Null),
            r.file_id == self.file_id,
            r.chunking_strategy == self.chunking_strategy,
    {
        CreateVectorStoreFileRequest {
            file_id: self.file_id,
            chunking_strategy: self.chunking_strategy,
            attributes: Omittable::Value(Nullable::Null),
        }
    }

    /// Leaves the attributes out.
    pub fn clear_attributes(self) -> (r: Self)
        ensures
            r.attributes is Omitted,
            r.file_id == self.file_id,
            r.chunking_strategy == self.chunking_strategy,
    {
        CreateVectorStoreFileRequest {
            file_id: self.file_id,
            chunking_strategy: self.chunking_strategy,
            attributes: Omittable::Omitted,
        }
    }

    /// The attached file.
    pub fn file_id(&self) -> (r: &FileId)
        ensures
            r == &self.file_id,
    {
        &self.file_id
    }

    /// The chunking strategy, left out or set.
    pub fn chunking_strategy(&self) -> (r: &Omittable<VectorStoreChunkingStrategyRequest>)
        ensures
            r == &self.chunking_strategy,
    {
        &self.chunking_strategy
    }

    /// The attributes: left out, `null`, or set.
    pub fn attributes(&self) -> (r: &Omittable<Nullable<VectorStoreFileAttributes>>)
        ensures
            r == &self.attributes,
    {
        &self.attributes
    }
}

/// A request that replaces the attributes of an attached file.
#[derive(Clone, Debug)]
pub struct UpdateVectorStoreFileAttributesRequest {
    pub attributes: Nullable<VectorStoreFileAttributes>,
}

impl UpdateVectorStoreFileAttributesRequest {
    /// Replaces the attributes with `attributes`.
    pub fn new(attributes: VectorStoreFileAttributes) -> (r: Self)
        ensures
            r.attributes == Nullable::Value(attributes),
    {
        UpdateVectorStoreFileAttributesRequest { attributes: Nullable::Value(attributes) }
    }

    /// Clears the attributes with an explicit `null`.
    pub fn clear() -> (r: Self)
        ensures
            r.attributes is Null,
    {
        UpdateVectorStoreFileAttributesRequest { attributes: Nullable::Null }
    }

    /// The attributes, `null` or set.
    pub fn attributes(&self) -> (r: &Nullable<VectorStoreFileAttributes>)
        ensures
            r == &self.attributes,
    {
        &self.attributes
    }
}

/// A file attached to a vector store.
#[derive(Clone, Debug)]
pub struct VectorStoreFile {
    pub id: FileId,
    pub object: VectorStoreFileObjectType,
    pub usage_bytes: i64,
    pub created_at: i64,
    pub vector_store_id: VectorStoreId,
    pub status: VectorStoreFileStatus,
    pub last_error: Nullable<VectorStoreFileLastError>,
    pub chunking_strategy: Omittable<VectorStoreChunkingStrategy>,
    pub attributes: Omittable<Nullable<VectorStoreFileAttributes>>,
    pub extra: ExtraFields,
}

impl VectorStoreFile {
    /// The file.
    pub fn id(&self) -> (r: &FileId)
        ensures
            r == &self.id,
    {
        &self.id
    }

    /// The object tag.
    pub fn object(&self) -> (r: &VectorStoreFileObjectType)
        ensures
            r == &self.object,
    {
        &self.object
    }

    /// When the file was attached, in Unix seconds.
    pub fn created_at(&self) -> (r: i64)
        ensures
            r == self.created_at,
    {
        self.created_at
    }

    /// The vector store the file is attached to.
    pub fn vector_store_id(&self) -> (r: &VectorStoreId)
        ensures
            r == &self.vector_store_id,
    {
        &self.vector_store_id
    }

    /// The processing status.
    pub fn status(&self) -> (r: &VectorStoreFileStatus)
        ensures
            r == &self.status,
    {
        &self.status
    }

    /// The bytes the file uses in the store.
    pub fn usage_bytes(&self) -> (r: i64)
        ensures
            r == self.usage_bytes,
    {
        self.usage_bytes
    }

    /// The required, possibly `null`, last processing error.
    pub fn last_error(&self) -> (r: &Nullable<VectorStoreFileLastError>)
        ensures
            r == &self.last_error,
    {
        &self.last_error
    }

    /// The attributes: left out, `null`, or set.
    pub fn attributes(&self) -> (r: &Omittable<Nullable<VectorStoreFileAttributes>>)
        ensures
            r == &self.attributes,
    {
        &self.attributes
    }

    /// The chunking strategy, when present.
    pub fn chunking_strategy(&self) -> (r: Option<&VectorStoreChunkingStrategy>)
        ensures
            match self.chunking_strategy {
                Omittable::Value(c) => r == Some(&c),
                Omittable::Omitted => r is None,
            },
    {
        match &self.chunking_strategy {
            Omittable::Value(c) => Some(c),
            Omittable::Omitted => None,
        }
    }

    /// Members not modelled here, kept as received.
    pub fn extra_fields(&self) -> (r: &ExtraFields)
        ensures
            r@ == self.extra@,
    {
        &self.extra
    }
}

/// One page of attached files.
#[derive(Clone, Debug)]
pub struct ListVectorStoreFilesResponse {
    pub object: VectorStoreListObjectType,
    pub data: Vec<VectorStoreFile>,
    pub first_id: FileId,
    pub last_id: FileId,
    pub has_more: bool,
    pub extra: ExtraFields,
}

impl ListVectorStoreFilesResponse {
    /// The list object tag.
    pub fn object(&self) -> (r: &VectorStoreListObjectType)
        ensures
            r == &self.object,
    {
        &self.object
    }

    /// The first file of this page.
    pub fn first_id(&self) -> (r: &FileId)
        ensures
            r == &self.first_id,
    {
        &self.first_id
    }

    /// The last file of this page.
    pub fn last_id(&self) -> (r: &FileId)
        ensures
            r == &self.last_id,
    {
        &self.last_id
    }

    /// Whether another page follows.
    pub fn has_more(&self) -> (r: bool)
        ensures
            r == self.has_more,
    {
        self.has_more
    }

    /// The files of this page.
    pub fn data(&self) -> (r: &[VectorStoreFile])
        ensures
            r@ == self.data@,
    {
        self.data.as_slice()
    }

    /// Members not modelled here, kept as received.
    pub fn extra_fields(&self) -> (r: &ExtraFields)
        ensures
            r@ == self.extra@,
    {
        &self.extra
    }
}

/// One to 2000 per-file requests of a file batch.
#[derive(Debug)]
pub struct VectorStoreBatchFiles(Vec<CreateVectorStoreFileRequest>);

impl View for VectorStoreBatchFiles {
    type V = Seq<CreateVectorStoreFileRequest>;

    closed spec fn view(&self) -> Seq<CreateVectorStoreFileRequest> {
        self.0@
    }
}

impl VectorStoreBatchFiles {
    #[verifier::type_invariant]
    spec fn inv(&self) -> bool {
        1 <= self.0@.len() <= MAX_VECTOR_STORE_BATCH_FILES
    }

    /// Checks the count of per-file requests.
    pub fn new(values: Vec<CreateVectorStoreFileRequest>) -> (r: Result<
        Self,
        VectorStoreValidationError,
    >)
        ensures
            1 <= values@.len() <= 2000 ==> (r matches Ok(v) && v@ == values@),
            !(1 <= values@.len() <= 2000) ==> r == Err::<Self, VectorStoreValidationError>(
                VectorStoreValidationError::InvalidBatchFileCount {
                    actual: values.len(),
                    maximum: MAX_VECTOR_STORE_BATCH_FILES,
                },
            ),
    {
        if values.len() == 0 || values.len() > MAX_VECTOR_STORE_BATCH_FILES {
            return Err(
                VectorStoreValidationError::InvalidBatchFileCount {
                    actual: values.len(),
                    maximum: MAX_VECTOR_STORE_BATCH_FILES,
                },
            );
        }
        Ok(VectorStoreBatchFiles(values))
    }

    /// The requests, in order.
    pub fn as_slice(&self) -> (r: &[CreateVectorStoreFileRequest])
        ensures
            r@ == self@,
            1 <= r@.len() <= 2000,
    {
        proof {
            use_type_invariant(self);
        }
        self.0.as_slice()
    }
}

/// A request that attaches a batch of files: bare file IDs, which may carry
/// global chunking and attributes, or per-file requests, which may not.
#[derive(Debug)]
pub struct CreateVectorStoreFileBatchRequest {
    file_ids: Omittable<VectorStoreBatchFileIds>,
    files: Omittable<VectorStoreBatchFiles>,
    chunking_strategy: Omittable<VectorStoreChunkingStrategyRequest>,
    attributes: Omittable<Nullable<VectorStoreFileAttributes>>,
}

impl CreateVectorStoreFileBatchRequest {
    #[verifier::type_invariant]
    spec fn inv(&self) -> bool {
        (self.file_ids is Value) != (self.files is Value)
    }

    /// The bare file IDs, when listed.
    pub closed spec fn spec_file_ids(&self) -> Omittable<VectorStoreBatchFileIds> {
        self.file_ids
    }

    /// The per-file requests, when listed.
    pub closed spec fn spec_files(&self) -> Omittable<VectorStoreBatchFiles> {
        self.files
    }

    /// Whether the batch lists bare file IDs.
    pub closed spec fn has_file_ids(&self) -> bool {
        self.file_ids is Value
    }

    /// Whether the batch lists per-file requests.
    pub closed spec fn has_files(&self) -> bool {
        self.files is Value
    }

    /// The global chunking strategy.
    pub closed spec fn spec_chunking_strategy(&self) -> Omittable<VectorStoreChunkingStrategyRequest> {
        self.chunking_strategy
    }

    /// The global attributes.
    pub closed spec fn spec_attributes(&self) -> Omittable<Nullable<VectorStoreFileAttributes>> {
        self.attributes
    }

    /// A batch of bare file IDs.
    pub fn from_file_ids(values: Vec<FileId>) -> (r: Result<Self, VectorStoreValidationError>)
        ensures
            1 <= values@.len() <= 2000 ==> (r matches Ok(b) && b.has_file_ids()
                && (b.spec_file_ids() matches Omittable::Value(ids) && ids@ == values@)
                && b.spec_files() is Omitted
                && b.spec_chunking_strategy() is Omitted && b.spec_attributes() is Omitted),
            !(1 <= values@.len() <= 2000) ==> r == Err::<Self, VectorStoreValidationError>(
                VectorStoreValidationError::InvalidBatchFileCount {
                    actual: values.len(),
                    maximum: MAX_VECTOR_STORE_BATCH_FILES,
                },
            ),
    {
        match VectorStoreBatchFileIds::new(values) {
            Ok(ids) => Ok(
                CreateVectorStoreFileBatchRequest {
                    file_ids: Omittable::Value(ids),
                    files: Omittable::Omitted,
                    chunking_strategy: Omittable::Omitted,
                    attributes: Omittable::Omitted,
                },
            ),
            Err(e) => Err(e),
        }
    }

    /// A batch of per-file requests.
    pub fn from_files(values: Vec<CreateVectorStoreFileRequest>) -> (r: Result<
        Self,
        VectorStoreValidationError,
    >)
        ensures
            1 <= values@.len() <= 2000 ==> (r matches Ok(b) && b.has_files()
                && (b.spec_files() matches Omittable::Value(fs) && fs@ == values@)
                && b.spec_file_ids() is Omitted
                && b.spec_chunking_strategy() is Omitted && b.spec_attributes() is Omitted),
            !(1 <= values@.len() <= 2000) ==> r == Err::<Self, VectorStoreValidationError>(
                VectorStoreValidationError::InvalidBatchFileCount {
                    actual: values.len(),
                    maximum: MAX_VECTOR_STORE_BATCH_FILES,
                },
            ),
    {
        match VectorStoreBatchFiles::new(values) {
            Ok(files) => Ok(
                CreateVectorStoreFileBatchRequest {
                    file_ids: Omittable::Omitted,
                    files: Omittable::Value(files),
                    chunking_strategy: Omittable::Omitted,
                    attributes: Omittable::Omitted,
                },
            ),
            Err(e) => Err(e),
        }
    }

    /// A decoded batch: exactly one of `file_ids` and `files` must be
    /// present.  Global fields are kept beside per-file requests, as the
    /// schema allows.
    pub fn from_wire(
        file_ids: Omittable<VectorStoreBatchFileIds>,
        files: Omittable<VectorStoreBatchFiles>,
        chunking_strategy: Omittable<VectorStoreChunkingStrategyRequest>,
        attributes: Omittable<Nullable<VectorStoreFileAttributes>>,
    ) -> (r: Result<Self, VectorStoreValidationError>)
        ensures
            (file_ids is Value) == (files is Value) ==> r == Err::<Self, VectorStoreValidationError>(
                VectorStoreValidationError::InvalidBatchInputChoice,
            ),
            (file_ids is Value) != (files is Value) ==> (r matches Ok(b) && b.has_file_ids() == (
            file_ids is Value) && b.spec_file_ids() == file_ids && b.spec_files() == files
                && b.spec_chunking_strategy() == chunking_strategy
                && b.spec_attributes() == attributes),
    {
        if file_ids.is_omitted() != files.is_omitted() {
            Ok(CreateVectorStoreFileBatchRequest { file_ids, files, chunking_strategy, attributes })
        } else {
            Err(VectorStoreValidationError::InvalidBatchInputChoice)
        }
    }

    /// Sets one global chunking strategy; refused for per-file requests,
    /// whose chunking the service would ignore.
    pub fn with_chunking_strategy(self, strategy: VectorStoreChunkingStrategyRequest) -> (r: Result<
        Self,
        VectorStoreValidationError,
    >)
        ensures
            self.has_files() ==> r == Err::<Self, VectorStoreValidationError>(
                VectorStoreValidationError::GlobalFieldsWithPerFileBatch,
            ),
            !self.has_files() ==> (r matches Ok(b) && b.has_file_ids()
                && b.spec_file_ids() == self.spec_file_ids() && b.spec_files() == self.spec_files()
                && b.spec_chunking_strategy() == Omittable::Value(strategy)
                && b.spec_attributes() == self.spec_attributes()),
    {
        proof {
            use_type_invariant(&self);
        }
        if !self.files.is_omitted() {
            return Err(VectorStoreValidationError::GlobalFieldsWithPerFileBatch);
        }
        Ok(
            CreateVectorStoreFileBatchRequest {
                file_ids: self.file_ids,
                files: self.files,
                chunking_strategy: Omittable::Value(strategy),
                attributes: self.attributes,
            },
        )
    }

    /// Sets global attributes; refused for per-file requests.
    pub fn with_attributes(self, attributes: VectorStoreFileAttributes) -> (r: Result<
        Self,
        VectorStoreValidationError,
    >)
        ensures
            self.has_files() ==> r == Err::<Self, VectorStoreValidationError>(
                VectorStoreValidationError::GlobalFieldsWithPerFileBatch,
            ),
            !self.has_files() ==> (r matches Ok(b) && b.has_file_ids()
                && b.spec_file_ids() == self.spec_file_ids() && b.spec_files() == self.spec_files()
                && b.spec_attributes() == Omittable::Value(Nullable::Value(attributes))
                && b.spec_chunking_strategy() == self.spec_chunking_strategy()),
    {
        proof {
            use_type_invariant(&self);
        }
        if !self.files.is_omitted() {
            return Err(VectorStoreValidationError::GlobalFieldsWithPerFileBatch);
        }
        Ok(
            CreateVectorStoreFileBatchRequest {
                file_ids: self.file_ids,
                files: self.files,
                chunking_strategy: self.chunking_strategy,
                attributes: Omittable::Value(Nullable::Value(attributes)),
            },
        )
    }

    /// Sets explicit `null` global attributes; refused for per-file requests.
    pub fn with_attributes_null(self) -> (r: Result<Self, VectorStoreValidationError>)
        ensures
            self.has_files() ==> r == Err::<Self, VectorStoreValidationError>(
                VectorStoreValidationError::GlobalFieldsWithPerFileBatch,
            ),
            !self.has_files() ==> (r matches Ok(b) && b.has_file_ids() && b.spec_attributes()
                == Omittable::<Nullable<VectorStoreFileAttributes>>::Value(Nullable::Null)
                && b.spec_file_ids() == self.spec_file_ids() && b.spec_files() == self.spec_files()
                && b.spec_chunking_strategy() == self.spec_chunking_strategy()),
    {
        proof {
            use_type_invariant(&self);
        }
        if !self.files.is_omitted() {
            return Err(VectorStoreValidationError::GlobalFieldsWithPerFileBatch);
        }
        Ok(
            CreateVectorStoreFileBatchRequest {
                file_ids: self.file_ids,
                files: self.files,
                chunking_strategy: self.chunking_strategy,
                attributes: Omittable::Value(Nullable::Null),
            },
        )
    }

    /// Leaves the global chunking strategy out.
    pub fn clear_chunking_strategy(self) -> (r: Self)
        ensures
            r.spec_chunking_strategy() is Omitted,
            r.spec_attributes() == self.spec_attributes(),
            r.spec_file_ids() == self.spec_file_ids(),
            r.spec_files() == self.spec_files(),
            r.has_files() == self.has_files(),
            r.has_file_ids() == self.has_file_ids(),
    {
        proof {
            use_type_invariant(&self);
        }
        CreateVectorStoreFileBatchRequest {
            file_ids: self.file_ids,
            files: self.files,
            chunking_strategy: Omittable::Omitted,
            attributes: self.attributes,
        }
    }

    /// Leaves the global attributes out.
    pub fn clear_attributes(self) -> (r: Self)
        ensures
            r.spec_attributes() is Omitted,
            r.spec_chunking_strategy() == self.spec_chunking_strategy(),
            r.spec_file_ids() == self.spec_file_ids(),
            r.spec_files() == self.spec_files(),
            r.has_files() == self.has_files(),
            r.has_file_ids() == self.has_file_ids(),
    {
        proof {
            use_type_invariant(&self);
        }
        CreateVectorStoreFileBatchRequest {
            file_ids: self.file_ids,
            files: self.files,
            chunking_strategy: self.chunking_strategy,
            attributes: Omittable::Omitted,
        }
    }

    /// The bare file IDs, when the batch lists them; a batch lists exactly
    /// one of bare file IDs and per-file requests.
    pub fn file_ids(&self) -> (r: &Omittable<VectorStoreBatchFileIds>)
        ensures
            *r == self.spec_file_ids(),
            (r is Value) == self.has_file_ids(),
            (r is Value) != self.has_files(),
    {
        proof {
            use_type_invariant(self);
        }
        &self.file_ids
    }

    /// The per-file requests, when the batch lists them.
    pub fn files(&self) -> (r: &Omittable<VectorStoreBatchFiles>)
        ensures
            *r == self.spec_files(),
            (r is Value) == self.has_files(),
            (r is Value) != self.has_file_ids(),
    {
        proof {
            use_type_invariant(self);
        }
        &self.files
    }

    /// The global chunking strategy.
    pub fn chunking_strategy(&self) -> (r: &Omittable<VectorStoreChunkingStrategyRequest>)
        ensures
            *r == self.spec_chunking_strategy(),
    {
        &self.chunking_strategy
    }

    /// The global attributes.
    pub fn attributes(&self) -> (r: &Omittable<Nullable<VectorStoreFileAttributes>>)
        ensures
            *r == self.spec_attributes(),
    {
        &self.attributes
    }
}


/// Ranking controls of a vector-store search.
#[derive(Clone, Debug)]
pub struct VectorStoreRankingOptions {
    pub ranker: Omittable<VectorStoreRanker>,
    /// The score threshold, a number in `[0, 1]`, as its JSON number text.
    pub score_threshold: Omittable<String>,
}

impl VectorStoreRankingOptions {
    /// Options with the service defaults.
    pub fn new() -> (r: Self)
        ensures
            r.ranker is Omitted,
            r.score_threshold is Omitted,
    {
        VectorStoreRankingOptions { ranker: Omittable::Omitted, score_threshold: Omittable::Omitted }
    }

    /// Selects a ranker.
    pub fn with_ranker(self, ranker: VectorStoreRanker) -> (r: Self)
        ensures
            r.ranker == Omittable::Value(ranker),
            r.score_threshold == self.score_threshold,
    {
        VectorStoreRankingOptions { ranker: Omittable::Value(ranker), score_threshold: self.score_threshold }
    }

    /// Sets the score threshold, given as the JSON number text of a score
    /// already checked to lie in `[0, 1]`.
    pub fn with_score_threshold(self, threshold: &str) -> (r: Self)
        ensures
            r.score_threshold matches Omittable::Value(t) && t@ == threshold@,
            r.ranker == self.ranker,
    {
        VectorStoreRankingOptions { ranker: self.ranker, score_threshold: Omittable::Value(threshold.to_owned()) }
    }

    /// The ranker, left out or set.
    pub fn ranker(&self) -> (r: &Omittable<VectorStoreRanker>)
        ensures
            r == &self.ranker,
    {
        &self.ranker
    }

    /// The score threshold, left out or set.
    pub fn score_threshold(&self) -> (r: &Omittable<String>)
        ensures
            r == &self.score_threshold,
    {
        &self.score_threshold
    }
}

/// A vector-store search request.
#[derive(Debug)]
pub struct VectorStoreSearchRequest {
    pub query: VectorStoreSearchQuery,
    pub rewrite_query: Omittable<bool>,
    pub max_num_results: Omittable<VectorStoreMaxResults>,
    pub filters: Omittable<VectorStoreFilter>,
    pub ranking_options: Omittable<VectorStoreRankingOptions>,
}

impl VectorStoreSearchRequest {
    /// A search for `query` with the service defaults.
    pub fn new(query: VectorStoreSearchQuery) -> (r: Self)
        ensures
            r.query == query,
            r.rewrite_query is Omitted,
            r.max_num_results is Omitted,
            r.filters is Omitted,
            r.ranking_options is Omitted,
    {
        VectorStoreSearchRequest {
            query,
            rewrite_query: Omittable::Omitted,
            max_num_results: Omittable::Omitted,
            filters: Omittable::Omitted,
            ranking_options: Omittable::Omitted,
        }
    }

    /// Turns query rewriting on or off.
    pub fn with_rewrite_query(self, rewrite: bool) -> (r: Self)
        ensures
            r.rewrite_query == Omittable::Value(rewrite),
            r.query == self.query,
            r.max_num_results == self.max_num_results,
            r.filters == self.filters,
            r.ranking_options == self.ranking_options,
    {
        VectorStoreSearchRequest { rewrite_query: Omittable::Value(rewrite), ..self }
    }

    /// Sets the result limit.
    pub fn with_max_results(self, maximum: VectorStoreMaxResults) -> (r: Self)
        ensures
            r.max_num_results == Omittable::Value(maximum),
            r.query == self.query,
            r.rewrite_query == self.rewrite_query,
            r.filters == self.filters,
            r.ranking_options == self.ranking_options,
    {
        VectorStoreSearchRequest { max_num_results: Omittable::Value(maximum), ..self }
    }

    /// Applies an attribute filter.
    pub fn with_filter(self, filter: VectorStoreFilter) -> (r: Self)
        ensures
            r.filters == Omittable::Value(filter),
            r.query == self.query,
            r.rewrite_query == self.rewrite_query,
            r.max_num_results == self.max_num_results,
            r.ranking_options == self.ranking_options,
    {
        VectorStoreSearchRequest { filters: Omittable::Value(filter), ..self }
    }

    /// Applies ranking options.
    pub fn with_ranking_options(self, options: VectorStoreRankingOptions) -> (r: Self)
        ensures
            r.ranking_options == Omittable::Value(options),
            r.query == self.query,
            r.rewrite_query == self.rewrite_query,
            r.max_num_results == self.max_num_results,
            r.filters == self.filters,
    {
        VectorStoreSearchRequest { ranking_options: Omittable::Value(options), ..self }
    }

    /// Checks that a query array is not empty; the array variant can be
    /// built directly, bypassing [`VectorStoreSearchQuery::multiple`].
    pub fn validate(&self) -> (r: Result<(), VectorStoreValidationError>)
        ensures
            (self.query matches VectorStoreSearchQuery::Texts(q) && q@.len() == 0) ==> r
                == Err::<(), VectorStoreValidationError>(
                VectorStoreValidationError::EmptySearchQueries,
            ),
            !(self.query matches VectorStoreSearchQuery::Texts(q) && q@.len() == 0) ==> r is Ok,
    {
        match &self.query {
            VectorStoreSearchQuery::Texts(q) => {
                if q.len() == 0 {
                    return Err(VectorStoreValidationError::EmptySearchQueries);
                }
                Ok(())
            },
            _ => Ok(()),
        }
    }

    /// The result limit the service applies: the one set, or 10.
    pub fn effective_max_results(&self) -> (r: u8)
        ensures
            r == match self.max_num_results {
                Omittable::Value(m) => m@,
                Omittable::Omitted => DEFAULT_VECTOR_STORE_SEARCH_RESULTS,
            },
    {
        match &self.max_num_results {
            Omittable::Value(m) => m.get(),
            Omittable::Omitted => DEFAULT_VECTOR_STORE_SEARCH_RESULTS,
        }
    }

    /// The query.
    pub fn query(&self) -> (r: &VectorStoreSearchQuery)
        ensures
            r == &self.query,
    {
        &self.query
    }

    /// The query-rewrite setting, left out or set.
    pub fn rewrite_query(&self) -> (r: &Omittable<bool>)
        ensures
            r == &self.rewrite_query,
    {
        &self.rewrite_query
    }

    /// The result limit, left out or set.
    pub fn max_num_results(&self) -> (r: &Omittable<VectorStoreMaxResults>)
        ensures
            r == &self.max_num_results,
    {
        &self.max_num_results
    }

    /// The filter, left out or set.
    pub fn filter(&self) -> (r: &Omittable<VectorStoreFilter>)
        ensures
            r == &self.filters,
    {
        &self.filters
    }

    /// The ranking options, left out or set.
    pub fn ranking_options(&self) -> (r: &Omittable<VectorStoreRankingOptions>)
        ensures
            r == &self.ranking_options,
    {
        &self.ranking_options
    }
}

/// The text of a validation error.
pub open spec fn validation_message(e: VectorStoreValidationError) -> Seq<char> {
    match e {
        VectorStoreValidationError::TooManyProperties { actual, maximum } => "vector-store map contains "@
            + nat_text(actual as nat) + " properties; maximum is "@ + nat_text(maximum as nat),
        VectorStoreValidationError::KeyTooLong { actual, maximum } => "vector-store key has "@
            + nat_text(actual as nat) + " characters; maximum is "@ + nat_text(maximum as nat),
        VectorStoreValidationError::ValueTooLong { actual, maximum } => "vector-store string value has "@
            + nat_text(actual as nat) + " characters; maximum is "@ + nat_text(maximum as nat),
        VectorStoreValidationError::TooManyInitialFiles { actual, maximum } => "vector store contains "@
            + nat_text(actual as nat) + " initial files; maximum is "@ + nat_text(maximum as nat),
        VectorStoreValidationError::InvalidBatchFileCount { actual, maximum } => "vector-store file batch contains "@
            + nat_text(actual as nat) + " files; expected 1..="@ + nat_text(maximum as nat),
        VectorStoreValidationError::InvalidBatchInputChoice => "vector-store file batch must contain exactly one of file_ids or files"@,
        VectorStoreValidationError::GlobalFieldsWithPerFileBatch => "vector-store file-batch global fields (attributes, chunking_strategy) apply only to the file_ids form and cannot be combined with the per-file files form; set them on each per-file request instead"@,
        VectorStoreValidationError::InvalidExpirationDays { days } => "vector-store expiration must be 1..=365 days, got "@
            + nat_text(days as nat),
        VectorStoreValidationError::InvalidChunkSize { tokens } => "static max_chunk_size_tokens must be 100..=4096, got "@
            + nat_text(tokens as nat),
        VectorStoreValidationError::InvalidChunkOverlap { overlap, maximum } => "chunk_overlap_tokens "@
            + nat_text(overlap as nat) + " exceeds half of max_chunk_size_tokens "@ + nat_text(maximum as nat),
        VectorStoreValidationError::InvalidListLimit { limit } => "vector-store list limit must be at least 1, got "@
            + nat_text(limit as nat),
        VectorStoreValidationError::EmptySearchQueries => "vector-store search query array must not be empty"@,
        VectorStoreValidationError::InvalidMaxResults { actual } => "vector-store max_num_results must be 1..=50, got "@
            + nat_text(actual as nat),
        VectorStoreValidationError::InvalidScore { score } => "vector-store score must be finite and between 0 and 1, got "@
            + score@,
        VectorStoreValidationError::NonFiniteNumber => "attribute number is not finite"@,
    }
}

/// Appends `head`, a number and `tail`.
fn push_number_between(out: &mut String, head: &str, n: usize, tail: &str)
    ensures
        final(out)@ == old(out)@ + head@ + nat_text(n as nat) + tail@,
{
    out.append(head);
    push_decimal(n, out);
    out.append(tail);
}

impl VectorStoreValidationError {
    /// The text of the error.
    pub fn message(&self) -> (r: String)
        ensures
            r@ == validation_message(*self),
    {
        let mut out = String::new();
        match self {
            VectorStoreValidationError::TooManyProperties { actual, maximum } => {
                push_number_between(&mut out, "vector-store map contains ", *actual, " properties; maximum is ");
                push_decimal(*maximum, &mut out);
            },
            VectorStoreValidationError::KeyTooLong { actual, maximum } => {
                push_number_between(&mut out, "vector-store key has ", *actual, " characters; maximum is ");
                push_decimal(*maximum, &mut out);
            },
            VectorStoreValidationError::ValueTooLong { actual, maximum } => {
                push_number_between(&mut out, "vector-store string value has ", *actual, " characters; maximum is ");
                push_decimal(*maximum, &mut out);
            },
            VectorStoreValidationError::TooManyInitialFiles { actual, maximum } => {
                push_number_between(&mut out, "vector store contains ", *actual, " initial files; maximum is ");
                push_decimal(*maximum, &mut out);
            },
            VectorStoreValidationError::InvalidBatchFileCount { actual, maximum } => {
                push_number_between(&mut out, "vector-store file batch contains ", *actual, " files; expected 1..=");
                push_decimal(*maximum, &mut out);
            },
            VectorStoreValidationError::InvalidBatchInputChoice => {
                out.append("vector-store file batch must contain exactly one of file_ids or files");
            },
            VectorStoreValidationError::GlobalFieldsWithPerFileBatch => {
                out.append("vector-store file-batch global fields (attributes, chunking_strategy) apply only to the file_ids form and cannot be combined with the per-file files form; set them on each per-file request instead");
            },
            VectorStoreValidationError::InvalidExpirationDays { days } => {
                push_number_between(&mut out, "vector-store expiration must be 1..=365 days, got ", *days as usize, "");
            },
            VectorStoreValidationError::InvalidChunkSize { tokens } => {
                push_number_between(&mut out, "static max_chunk_size_tokens must be 100..=4096, got ", *tokens as usize, "");
            },
            VectorStoreValidationError::InvalidChunkOverlap { overlap, maximum } => {
                push_number_between(&mut out, "chunk_overlap_tokens ", *overlap as usize, " exceeds half of max_chunk_size_tokens ");
                push_decimal(*maximum as usize, &mut out);
            },
            VectorStoreValidationError::InvalidListLimit { limit } => {
                push_number_between(&mut out, "vector-store list limit must be at least 1, got ", *limit as usize, "");
            },
            VectorStoreValidationError::EmptySearchQueries => {
                out.append("vector-store search query array must not be empty");
            },
            VectorStoreValidationError::InvalidMaxResults { actual } => {
                push_number_between(&mut out, "vector-store max_num_results must be 1..=50, got ", *actual as usize, "");
            },
            VectorStoreValidationError::InvalidScore { score } => {
                out.append("vector-store score must be finite and between 0 and 1, got ");
                out.append(score.as_str());
            },
            VectorStoreValidationError::NonFiniteNumber => {
                out.append("attribute number is not finite");
            },
        }
        proof {
            reveal_strlit("");
        }
        out
    }
}

/// One scored result of a vector-store search.
#[derive(Clone)]
pub struct VectorStoreSearchResult {
    pub file_id: FileId,
    pub filename: String,
    /// The similarity score in `[0, 1]`, as its JSON number text.
    pub score: String,
    pub attributes: Nullable<VectorStoreFileAttributes>,
    pub content: Vec<VectorStoreSearchContent>,
    /// Members not modelled here.
    pub extra: ExtraFields,
}

impl VectorStoreSearchResult {
    /// The source file.
    pub fn file_id(&self) -> (r: &FileId)
        ensures
            r == &self.file_id,
    {
        &self.file_id
    }

    /// The source filename.
    pub fn filename(&self) -> (r: &str)
        ensures
            r@ == self.filename@,
    {
        self.filename.as_str()
    }

    /// The similarity score, as its JSON number text.
    pub fn score(&self) -> (r: &str)
        ensures
            r@ == self.score@,
    {
        self.score.as_str()
    }

    /// The attributes, which the service sends as `null` when there are none.
    pub fn attributes(&self) -> (r: &Nullable<VectorStoreFileAttributes>)
        ensures
            r == &self.attributes,
    {
        &self.attributes
    }

    /// The matching chunks.
    pub fn content(&self) -> (r: &[VectorStoreSearchContent])
        ensures
            r@ == self.content@,
    {
        self.content.as_slice()
    }

    /// Members not modelled here, kept as received.
    pub fn extra_fields(&self) -> (r: &ExtraFields)
        ensures
            r@ == self.extra@,
    {
        &self.extra
    }
}

/// One page of vector-store search results.
#[derive(Clone)]
pub struct VectorStoreSearchResultsPage {
    pub object: VectorStoreSearchPageObjectType,
    pub search_query: VectorStoreSearchQueryOutput,
    pub data: Vec<VectorStoreSearchResult>,
    pub has_more: bool,
    pub next_page: Nullable<String>,
    /// Members not modelled here.
    pub extra: ExtraFields,
}

impl VectorStoreSearchResultsPage {
    /// The page object tag.
    pub fn object(&self) -> (r: &VectorStoreSearchPageObjectType)
        ensures
            r == &self.object,
    {
        &self.object
    }

    /// The query, or the rewritten queries, that were searched.
    pub fn search_query(&self) -> (r: &VectorStoreSearchQueryOutput)
        ensures
            r == &self.search_query,
    {
        &self.search_query
    }

    /// The results.
    pub fn data(&self) -> (r: &[VectorStoreSearchResult])
        ensures
            r@ == self.data@,
    {
        self.data.as_slice()
    }

    /// Whether another page is advertised.
    pub fn has_more(&self) -> (r: bool)
        ensures
            r == self.has_more,
    {
        self.has_more
    }

    /// The token of the next page, `null` on the last one.
    pub fn next_page(&self) -> (r: &Nullable<String>)
        ensures
            r == &self.next_page,
    {
        &self.next_page
    }

    /// Members not modelled here, kept as received.
    pub fn extra_fields(&self) -> (r: &ExtraFields)
        ensures
            r@ == self.extra@,
    {
        &self.extra
    }
}

impl Clone for VectorStoreAttributeValue {
    /// An equal copy of the value.
    fn clone(&self) -> (r: Self)
        ensures
            r@ == self@,
    {
        match self {
            VectorStoreAttributeValue::String(s) => VectorStoreAttributeValue::String(s.clone()),
            VectorStoreAttributeValue::Number(n) => VectorStoreAttributeValue::Number(n.clone()),
            VectorStoreAttributeValue::Boolean(b) => VectorStoreAttributeValue::Boolean(*b),
        }
    }
}

impl Clone for VectorStoreFileAttributes {
    /// An equal copy of the map.
    fn clone(&self) -> (r: Self)
        ensures
            r@ == self@,
    {
        proof {
            use_type_invariant(self);
        }
        let v = &self.entries;
        let mut out: Vec<(String, VectorStoreAttributeValue)> = Vec::new();
        let mut i: usize = 0;
        while i < v.len()
            invariant
                i <= v@.len(),
                out@.len() == i,
                forall|j: int| 0 <= j < i ==> (#[trigger] out@[j]).0@ == v@[j].0@ && out@[j].1@ == v@[j].1@,
            decreases v@.len() - i,
        {
            out.push((v[i].0.clone(), v[i].1.clone()));
            i = i + 1;
        }
        assert(attribute_pairs_view(out@) =~= attribute_pairs_view(v@));
        VectorStoreFileAttributes { entries: out }
    }
}

impl Clone for VectorStoreBatchFiles {
    /// A copy holding as many requests.
    fn clone(&self) -> (r: Self)
        ensures
            r@.len() == self@.len(),
    {
        proof {
            use_type_invariant(self);
        }
        VectorStoreBatchFiles(self.0.clone())
    }
}

impl Clone for CreateVectorStoreFileBatchRequest {
    /// A copy listing the same kind of input, with copies of its fields.
    fn clone(&self) -> (r: Self)
        ensures
            r.has_file_ids() == self.has_file_ids(),
            r.has_files() == self.has_files(),
    {
        proof {
            use_type_invariant(self);
        }
        let file_ids = match &self.file_ids {
            Omittable::Value(ids) => Omittable::Value(ids.clone()),
            Omittable::Omitted => Omittable::Omitted,
        };
        let files = match &self.files {
            Omittable::Value(fs) => Omittable::Value(fs.clone()),
            Omittable::Omitted => Omittable::Omitted,
        };
        CreateVectorStoreFileBatchRequest {
            file_ids,
            files,
            chunking_strategy: self.chunking_strategy.clone(),
            attributes: self.attributes.clone(),
        }
    }
}

} // verus!
