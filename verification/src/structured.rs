//! Strict JSON Schema normalization and typed tool contracts.
//!
//! [`normalize_strict_schema`] rewrites a JSON Schema document into the subset
//! that strict mode accepts.  It never silently drops a schema keyword: input
//! outside that subset is returned as an error carrying a JSON Pointer-like
//! path.
//!
//! A `$ref` that keeps sibling keys is resolved against the document and
//! inlined with the sibling keys taking priority; a reference that cannot be
//! resolved locally is an error.  A reference into a definition that is
//! already being inlined, including `$ref: "#"`, is reported as recursive, and
//! every value that inlining produces is charged against
//! [`MAX_REF_INLINE_NODES`].
//!
//! `additionalProperties` is defaulted to `false` only when the key is
//! missing; any other value than `false` is reported.
use vstd::prelude::*;
use crate::json::{
    Json, JsonValue, JsonObject, obj_get, obj_insert, obj_remove, count_nodes, msize, msize_items,
    msize_entries, nat_text, json_text, lemma_obj_get_smaller, lemma_obj_get_insert,
    lemma_obj_get_remove, lemma_msize_items_skip, lemma_msize_entries_skip, lemma_items_view,
    items_view, capped, push_decimal,
};
use crate::text::{has_prefix, chars_eq, starts_with, concat_str, chars_from};

verus! {

broadcast use crate::json::lemma_value_view;

/// Maximum number of JSON values that sibling-key `$ref` inlining may
/// produce during one normalization pass.
pub const MAX_REF_INLINE_NODES: usize = 100_000;

/// Failure while normalizing a schema or naming a typed JSON contract.
#[derive(Debug)]
pub enum StructuredError {
    /// A response-format or tool name is invalid.
    InvalidName(String),
    /// The schema uses a construct outside the supported strict subset.
    UnsupportedKeyword { path: String, keyword: String },
    /// The schema contains a reference that leaves the document.
    ExternalReference { path: String, reference: String },
    /// A local `$ref` does not resolve to an object schema of the document.
    UnresolvableRef { path: String, reference: String },
    /// A reference recurses into a definition that is already being inlined.
    RecursiveReference { path: String, reference: String },
    /// Sibling-key `$ref` inlining produced more values than the budget allows.
    ExpansionBudgetExceeded { path: String, budget: usize },
    /// The normalized schema does not describe an object.
    RootMustBeObject,
}

/// The mathematical view of a [`StructuredError`].
pub enum SchemaError {
    InvalidName(Seq<char>),
    UnsupportedKeyword { path: Seq<char>, keyword: Seq<char> },
    ExternalReference { path: Seq<char>, reference: Seq<char> },
    UnresolvableRef { path: Seq<char>, reference: Seq<char> },
    RecursiveReference { path: Seq<char>, reference: Seq<char> },
    ExpansionBudgetExceeded { path: Seq<char>, budget: nat },
    RootMustBeObject,
}

impl View for StructuredError {
    type V = SchemaError;

    open spec fn view(&self) -> SchemaError {
        match self {
            StructuredError::InvalidName(n) => SchemaError::InvalidName(n@),
            StructuredError::UnsupportedKeyword { path, keyword } => SchemaError::UnsupportedKeyword {
                path: path@,
                keyword: keyword@,
            },
            StructuredError::ExternalReference { path, reference } => SchemaError::ExternalReference {
                path: path@,
                reference: reference@,
            },
            StructuredError::UnresolvableRef { path, reference } => SchemaError::UnresolvableRef {
                path: path@,
                reference: reference@,
            },
            StructuredError::RecursiveReference { path, reference } => SchemaError::RecursiveReference {
                path: path@,
                reference: reference@,
            },
            StructuredError::ExpansionBudgetExceeded { path, budget } => {
                SchemaError::ExpansionBudgetExceeded { path: path@, budget: *budget as nat }
            },
            StructuredError::RootMustBeObject => SchemaError::RootMustBeObject,
        }
    }
}

pub open spec fn min_nat(a: nat, b: nat) -> nat {
    if a <= b {
        a
    } else {
        b
    }
}

/// JSON Pointer escape of one reference token: `~` becomes `~0`, `/` becomes `~1`.
pub open spec fn escape_pointer(s: Seq<char>) -> Seq<char>
    decreases s.len(),
{
    if s.len() == 0 {
        Seq::empty()
    } else {
        escape_pointer(s.drop_last()) + if s.last() == '~' {
            seq!['~', '0']
        } else if s.last() == '/' {
            seq!['~', '1']
        } else {
            seq![s.last()]
        }
    }
}

/// Decodes one JSON Pointer reference token; `~` must be followed by `0` or `1`.
pub open spec fn unescape_pointer(s: Seq<char>) -> Option<Seq<char>>
    decreases s.len(),
{
    if s.len() == 0 {
        Some(Seq::empty())
    } else if s[0] == '~' {
        if s.len() >= 2 && (s[1] == '0' || s[1] == '1') {
            match unescape_pointer(s.skip(2)) {
                Some(r) => Some(
                    seq![
                        if s[1] == '0' {
                            '~'
                        } else {
                            '/'
                        },
                    ] + r,
                ),
                None => None,
            }
        } else {
            None
        }
    } else {
        match unescape_pointer(s.drop_first()) {
            Some(r) => Some(seq![s[0]] + r),
            None => None,
        }
    }
}

/// Position of the first `/` in `p`, or its length.
pub open spec fn slash_index(p: Seq<char>) -> nat
    decreases p.len(),
{
    if p.len() == 0 || p[0] == '/' {
        0
    } else {
        1 + slash_index(p.drop_first())
    }
}

/// Follows the `/`-separated tokens of `p` from `current`.
pub open spec fn walk_pointer(current: Json, p: Seq<char>) -> Option<Json>
    decreases p.len(),
{
    let i = slash_index(p);
    match current {
        Json::Object(e) => match unescape_pointer(p.take(i as int)) {
            Some(key) => match obj_get(e, key) {
                Some(next) => if i < p.len() {
                    walk_pointer(next, p.skip(i + 1int))
                } else {
                    Some(next)
                },
                None => None,
            },
            None => None,
        },
        _ => None,
    }
}

/// The value a local reference `#/...` points at within `base`.
pub open spec fn resolve_ref(base: Json, reference: Seq<char>) -> Option<Json> {
    if has_prefix(reference, "#/"@) {
        let p = reference.skip(2);
        if p.len() == 0 {
            Some(base)
        } else {
            walk_pointer(base, p)
        }
    } else {
        None
    }
}

/// The keywords that strict mode does not support, in the order they are checked.
pub open spec fn unsupported_keywords() -> Seq<Seq<char>> {
    seq![
        "additionalItems"@,
        "allOf"@,
        "contains"@,
        "dependentRequired"@,
        "dependentSchemas"@,
        "else"@,
        "if"@,
        "maxContains"@,
        "maxProperties"@,
        "minContains"@,
        "minProperties"@,
        "not"@,
        "oneOf"@,
        "patternProperties"@,
        "prefixItems"@,
        "propertyNames"@,
        "then"@,
        "unevaluatedItems"@,
        "unevaluatedProperties"@,
        "uniqueItems"@,
    ]
}

/// The first unsupported keyword, from position `k` of the list on, that `e` holds.
pub open spec fn first_unsupported(e: Seq<(Seq<char>, Json)>, k: nat) -> Option<Seq<char>>
    decreases unsupported_keywords().len() - k,
{
    if k >= unsupported_keywords().len() {
        None
    } else if obj_get(e, unsupported_keywords()[k as int]) is Some {
        Some(unsupported_keywords()[k as int])
    } else {
        first_unsupported(e, k + 1)
    }
}

/// Whether a schema object describes an object: it has `properties`, or its
/// `type` is or lists `"object"`.
pub open spec fn is_object_schema(e: Seq<(Seq<char>, Json)>) -> bool {
    obj_get(e, "properties"@) is Some || match obj_get(e, "type"@) {
        Some(Json::Str(t)) => t == "object"@,
        Some(Json::Array(ts)) => ts.contains(Json::Str("object"@)),
        _ => false,
    }
}

/// Whether a schema object's `type` is or lists `"null"`.
pub open spec fn type_allows_null(e: Seq<(Seq<char>, Json)>) -> bool {
    match obj_get(e, "type"@) {
        Some(Json::Str(t)) => t == "null"@,
        Some(Json::Array(ts)) => ts.contains(Json::Str("null"@)),
        _ => false,
    }
}

/// The alternatives of a schema object: its `anyOf`, or else its `oneOf`.
pub open spec fn alternatives(e: Seq<(Seq<char>, Json)>) -> Option<Json> {
    match obj_get(e, "anyOf"@) {
        Some(x) => Some(x),
        None => obj_get(e, "oneOf"@),
    }
}

/// Whether a schema already admits `null`.
pub open spec fn allows_null(v: Json) -> bool
    decreases msize(v), 1nat,
{
    match v {
        Json::Bool(b) => b,
        Json::Object(e) => type_allows_null(e) || match alternatives(e) {
            Some(Json::Array(vs)) => {
                proof {
                    lemma_obj_get_smaller(e, "anyOf"@);
                    lemma_obj_get_smaller(e, "oneOf"@);
                }
                any_allows_null(vs)
            },
            _ => false,
        },
        _ => false,
    }
}

pub open spec fn any_allows_null(vs: Seq<Json>) -> bool
    decreases msize_items(vs), 0nat,
{
    if vs.len() == 0 {
        false
    } else {
        allows_null(vs[0]) || any_allows_null(vs.drop_first())
    }
}

/// `{"type": "null"}`.
pub open spec fn null_schema() -> Json {
    Json::Object(seq![("type"@, Json::Str("null"@))])
}

/// `{"anyOf": [q, {"type": "null"}]}`.
pub open spec fn nullable_wrap(q: Json) -> Json {
    Json::Object(seq![("anyOf"@, Json::Array(seq![q, null_schema()]))])
}

/// The escape of one character of a reference token.
pub open spec fn escape_pointer_char(c: char) -> Seq<char> {
    if c == '~' {
        seq!['~', '0']
    } else if c == '/' {
        seq!['~', '1']
    } else {
        seq![c]
    }
}

/// Whether a token holds a `~` that is not followed by `0` or `1`.
pub open spec fn has_stray_tilde(s: Seq<char>) -> bool {
    exists|i: int|
        0 <= i < s.len() && #[trigger] s[i] == '~' && !(i + 1 < s.len() && (s[i + 1] == '0' || s[i
            + 1] == '1'))
}

proof fn lemma_escape_pointer_first(s: Seq<char>)
    requires
        s.len() > 0,
    ensures
        escape_pointer(s) == escape_pointer_char(s[0]) + escape_pointer(s.drop_first()),
    decreases s.len(),
{
    if s.len() == 1 {
        assert(s.drop_last() =~= Seq::<char>::empty());
        assert(s.drop_first() =~= Seq::<char>::empty());
        assert(escape_pointer(s.drop_last()) == Seq::<char>::empty());
        assert(s.last() == s[0]);
        assert(escape_pointer(s) =~= escape_pointer_char(s[0]));
    } else {
        lemma_escape_pointer_first(s.drop_last());
        assert(s.drop_last().drop_first() =~= s.drop_first().drop_last());
        assert(s.drop_first().last() == s.last());
        assert(escape_pointer(s) =~= escape_pointer_char(s[0]) + escape_pointer(s.drop_first()));
    }
}

proof fn lemma_unescape_escaped(s: Seq<char>)
    ensures
        unescape_pointer(escape_pointer(s)) == Some(s),
    decreases s.len(),
{
    if s.len() == 0 {
    } else {
        lemma_escape_pointer_first(s);
        lemma_unescape_escaped(s.drop_first());
        let rest = escape_pointer(s.drop_first());
        let e = escape_pointer(s);
        if s[0] == '~' || s[0] == '/' {
            assert(e.skip(2) =~= rest);
            assert(seq![s[0]] + s.drop_first() =~= s);
        } else {
            assert(e.drop_first() =~= rest);
            assert(seq![s[0]] + s.drop_first() =~= s);
        }
    }
}

proof fn lemma_unescape_fails(s: Seq<char>)
    ensures
        unescape_pointer(s) is None <==> has_stray_tilde(s),
    decreases s.len(),
{
    if s.len() == 0 {
    } else if s[0] == '~' {
        if s.len() >= 2 && (s[1] == '0' || s[1] == '1') {
            let t = s.skip(2);
            lemma_unescape_fails(t);
            if has_stray_tilde(t) {
                let j = choose|j: int|
                    0 <= j < t.len() && #[trigger] t[j] == '~' && !(j + 1 < t.len() && (t[j + 1]
                        == '0' || t[j + 1] == '1'));
                assert(s[j + 2] == '~');
            }
            if has_stray_tilde(s) {
                let i = choose|i: int|
                    0 <= i < s.len() && #[trigger] s[i] == '~' && !(i + 1 < s.len() && (s[i + 1]
                        == '0' || s[i + 1] == '1'));
                assert(i >= 2);
                assert(t[i - 2] == '~');
            }
        } else {
            assert(s[0] == '~');
        }
    } else {
        let t = s.drop_first();
        lemma_unescape_fails(t);
        if has_stray_tilde(t) {
            let j = choose|j: int|
                0 <= j < t.len() && #[trigger] t[j] == '~' && !(j + 1 < t.len() && (t[j + 1] == '0'
                    || t[j + 1] == '1'));
            assert(s[j + 1] == '~');
        }
        if has_stray_tilde(s) {
            let i = choose|i: int|
                0 <= i < s.len() && #[trigger] s[i] == '~' && !(i + 1 < s.len() && (s[i + 1] == '0'
                    || s[i + 1] == '1'));
            assert(i >= 1);
            assert(t[i - 1] == '~');
        }
    }
}

/// Reference tokens: unescaping an escaped token gives it back, and
/// unescaping fails exactly on a token with a `~` not followed by `0` or `1`.
pub proof fn law_pointer_escape_round_trip(s: Seq<char>, token: Seq<char>)
    ensures
        unescape_pointer(escape_pointer(s)) == Some(s),
        unescape_pointer(token) is None <==> has_stray_tilde(token),
{
    lemma_unescape_escaped(s);
    lemma_unescape_fails(token);
}

/// A schema made to admit `null`: kept when it already does, else wrapped
/// as `{"anyOf": [q, {"type": "null"}]}`.
pub open spec fn made_nullable(q: Json) -> Json {
    if allows_null(q) {
        q
    } else {
        nullable_wrap(q)
    }
}

/// Making a schema nullable gives a schema that admits `null`, keeps one
/// that already does, and doing it twice is doing it once.
pub proof fn law_made_nullable(q: Json)
    ensures
        allows_null(nullable_wrap(q)),
        allows_null(made_nullable(q)),
        allows_null(q) ==> made_nullable(q) == q,
        made_nullable(made_nullable(q)) == made_nullable(q),
{
    reveal_strlit("type");
    reveal_strlit("null");
    reveal_strlit("anyOf");
    reveal_strlit("oneOf");
    let n = null_schema();
    let ne = seq![("type"@, Json::Str("null"@))];
    assert(obj_get(ne, "type"@) == Some(Json::Str("null"@)));
    assert(type_allows_null(ne));
    assert(allows_null(n));
    let vs = seq![q, n];
    assert(vs.drop_first() =~= seq![n]);
    assert(seq![n].drop_first() =~= Seq::<Json>::empty());
    assert(any_allows_null(seq![n]));
    assert(any_allows_null(vs));
    let we = seq![("anyOf"@, Json::Array(vs))];
    assert("anyOf"@[0] != "type"@[0]);
    assert("anyOf"@ != "type"@);
    assert(we[0].0 != "type"@);
    assert(obj_get(we.drop_first(), "type"@) is None);
    assert(we.drop_first() =~= Seq::<(Seq<char>, Json)>::empty());
    assert(obj_get(we, "type"@) is None);
    assert(obj_get(we, "anyOf"@) == Some(Json::Array(vs)));
    assert(alternatives(we) == Some(Json::Array(vs)));
    assert(allows_null(nullable_wrap(q)));
}

/// Whether `name` is listed in the `required` array of the schema object.
pub open spec fn listed_required(e: Seq<(Seq<char>, Json)>, name: Seq<char>) -> bool {
    match obj_get(e, "required"@) {
        Some(Json::Array(items)) => items.contains(Json::Str(name)),
        _ => false,
    }
}

/// The names of the members, as JSON strings.
pub open spec fn property_names(props: Seq<(Seq<char>, Json)>) -> Seq<Json> {
    Seq::new(props.len(), |i: int| Json::Str(props[i].0))
}

/// The target members with the sibling members of `e`, other than `$ref`,
/// stored over them one after the other.
pub open spec fn overlay(acc: Seq<(Seq<char>, Json)>, e: Seq<(Seq<char>, Json)>) -> Seq<
    (Seq<char>, Json),
>
    decreases e.len(),
{
    if e.len() == 0 {
        acc
    } else {
        overlay(
            if e[0].0 == "$ref"@ {
                acc
            } else {
                obj_insert(acc, e[0].0, e[0].1)
            },
            e.drop_first(),
        )
    }
}

/// Normalization of one schema value at `path`.  `chain` lists the
/// references being inlined on the way to the value, `rem` is what is left
/// of the inlining budget.  The result holds the normalized value and the
/// budget left after it.
pub open spec fn norm(v: Json, path: Seq<char>, base: Json, chain: Seq<Seq<char>>, rem: nat) -> Result<
    (Json, nat),
    SchemaError,
>
    decreases rem, msize(v), 1nat,
{
    match v {
        Json::Object(e) => match first_unsupported(e, 0) {
            Some(kw) => Err(
                SchemaError::UnsupportedKeyword {
                    path: path + seq!['/'] + escape_pointer(kw),
                    keyword: kw,
                },
            ),
            None => match obj_get(e, "$ref"@) {
                Some(node) => norm_ref(e, node, path, base, chain, rem),
                None => {
                    let first = if is_object_schema(e) {
                        norm_object(e, path, base, chain, rem)
                    } else {
                        Ok((e, rem))
                    };
                    match first {
                        Err(err) => Err(err),
                        Ok((e1, rem1)) => match norm_members(
                            e,
                            e1,
                            path,
                            base,
                            chain,
                            min_nat(rem1, rem),
                        ) {
                            Err(err) => Err(err),
                            Ok((e2, rem2)) => Ok((Json::Object(e2), rem2)),
                        },
                    }
                },
            },
        },
        _ => Ok((v, rem)),
    }
}

/// Normalization of a schema object `e` that holds `$ref: node`.
pub open spec fn norm_ref(
    e: Seq<(Seq<char>, Json)>,
    node: Json,
    path: Seq<char>,
    base: Json,
    chain: Seq<Seq<char>>,
    rem: nat,
) -> Result<(Json, nat), SchemaError>
    decreases rem, msize(Json::Object(e)), 0nat,
{
    let at = path + "/$ref"@;
    match node {
        Json::Str(r) => if r == "#"@ {
            Err(SchemaError::RecursiveReference { path: at, reference: r })
        } else if !has_prefix(r, "#/"@) {
            Err(SchemaError::ExternalReference { path: at, reference: r })
        } else if e.len() == 1 {
            Ok((Json::Object(e), rem))
        } else if chain.contains(r) {
            Err(SchemaError::RecursiveReference { path: at, reference: r })
        } else {
            match resolve_ref(base, r) {
                Some(Json::Object(target)) => {
                    let merged = overlay(obj_remove(target, "$ref"@), e);
                    let n = count_nodes(Json::Object(merged));
                    if n > rem {
                        Err(
                            SchemaError::ExpansionBudgetExceeded {
                                path: at,
                                budget: MAX_REF_INLINE_NODES as nat,
                            },
                        )
                    } else {
                        norm(Json::Object(merged), path, base, chain.push(r), (rem - n) as nat)
                    }
                },
                _ => Err(SchemaError::UnresolvableRef { path: at, reference: r }),
            }
        },
        _ => Err(SchemaError::UnresolvableRef { path: at, reference: json_text(node) }),
    }
}

/// The object-schema rules: `additionalProperties` defaults to `false`,
/// optional properties become nullable, and `required` lists every property.
pub open spec fn norm_object(
    e: Seq<(Seq<char>, Json)>,
    path: Seq<char>,
    base: Json,
    chain: Seq<Seq<char>>,
    rem: nat,
) -> Result<(Seq<(Seq<char>, Json)>, nat), SchemaError>
    decreases rem, msize(Json::Object(e)), 0nat,
{
    let ap = obj_get(e, "additionalProperties"@);
    if ap is Some && ap != Some(Json::Bool(false)) {
        Err(
            SchemaError::UnsupportedKeyword {
                path: path + "/additionalProperties"@,
                keyword: "additionalProperties"@,
            },
        )
    } else {
        let e1 = if ap is None {
            obj_insert(e, "additionalProperties"@, Json::Bool(false))
        } else {
            e
        };
        match obj_get(e, "properties"@) {
            Some(Json::Object(props)) => {
                proof {
                    lemma_obj_get_smaller(e, "properties"@);
                }
                match norm_props(props, e, path, Seq::empty(), base, chain, rem) {
                    Err(err) => Err(err),
                    Ok((done, rem2)) => Ok(
                        (
                            obj_insert(
                                obj_insert(e1, "properties"@, Json::Object(done)),
                                "required"@,
                                Json::Array(property_names(props)),
                            ),
                            rem2,
                        ),
                    ),
                }
            },
            _ => Ok((obj_insert(e1, "required"@, Json::Array(Seq::empty())), rem)),
        }
    }
}

/// Normalizes the remaining properties `rest` of the schema object `e`.
pub open spec fn norm_props(
    rest: Seq<(Seq<char>, Json)>,
    e: Seq<(Seq<char>, Json)>,
    path: Seq<char>,
    done: Seq<(Seq<char>, Json)>,
    base: Json,
    chain: Seq<Seq<char>>,
    rem: nat,
) -> Result<(Seq<(Seq<char>, Json)>, nat), SchemaError>
    decreases rem, msize_entries(rest), 0nat,
{
    if rest.len() == 0 {
        Ok((done, rem))
    } else {
        let name = rest[0].0;
        let p = rest[0].1;
        let at = path + "/properties/"@ + escape_pointer(name);
        let step = if listed_required(e, name) || allows_null(p) {
            norm(p, at, base, chain, rem)
        } else {
            match norm(p, at + "/anyOf/0"@, base, chain, rem) {
                Err(err) => Err(err),
                Ok((q, r)) => Ok((nullable_wrap(q), r)),
            }
        };
        match step {
            Err(err) => Err(err),
            Ok((q, r)) => norm_props(
                rest.drop_first(),
                e,
                path,
                done.push((name, q)),
                base,
                chain,
                min_nat(r, rem),
            ),
        }
    }
}

/// Normalizes the nested schemas among the remaining members `rest`:
/// definitions under `$defs` and `definitions`, the `anyOf` alternatives and
/// `items`; the results are stored into `acc`.
pub open spec fn norm_members(
    rest: Seq<(Seq<char>, Json)>,
    acc: Seq<(Seq<char>, Json)>,
    path: Seq<char>,
    base: Json,
    chain: Seq<Seq<char>>,
    rem: nat,
) -> Result<(Seq<(Seq<char>, Json)>, nat), SchemaError>
    decreases rem, msize_entries(rest), 0nat,
{
    if rest.len() == 0 {
        Ok((acc, rem))
    } else {
        let step = member_step(rest[0].0, rest[0].1, acc, path, base, chain, rem);
        match step {
            Err(err) => Err(err),
            Ok((acc2, r)) => norm_members(
                rest.drop_first(),
                acc2,
                path,
                base,
                chain,
                min_nat(r, rem),
            ),
        }
    }
}

/// Normalizes one member `key: child` of a schema object when it holds
/// nested schemas, storing the result into `acc`.
pub open spec fn member_step(
    key: Seq<char>,
    child: Json,
    acc: Seq<(Seq<char>, Json)>,
    path: Seq<char>,
    base: Json,
    chain: Seq<Seq<char>>,
    rem: nat,
) -> Result<(Seq<(Seq<char>, Json)>, nat), SchemaError>
    decreases rem, msize(child), 2nat,
{
    if key == "$defs"@ || key == "definitions"@ {
        match child {
            Json::Object(defs) => match norm_defs(
                defs,
                path + seq!['/'] + escape_pointer(key),
                Seq::empty(),
                base,
                chain,
                rem,
            ) {
                Err(err) => Err(err),
                Ok((d, r)) => Ok((obj_insert(acc, key, Json::Object(d)), r)),
            },
            _ => Ok((acc, rem)),
        }
    } else if key == "anyOf"@ {
        match child {
            Json::Array(items) => match {
                proof {
                    assert(msize(child) == 1 + msize_items(items));
                }
                norm_items(
                items,
                path + "/anyOf"@,
                0,
                Seq::empty(),
                base,
                chain,
                rem,
            )
            } {
                Err(err) => Err(err),
                Ok((d, r)) => Ok((obj_insert(acc, key, Json::Array(d)), r)),
            },
            _ => Ok((acc, rem)),
        }
    } else if key == "items"@ && (child is Object || child is Bool) {
        match norm(child, path + "/items"@, base, chain, rem) {
            Err(err) => Err(err),
            Ok((c, r)) => Ok((obj_insert(acc, key, c), r)),
        }
    } else {
        Ok((acc, rem))
    }
}

/// Normalizes the remaining named definitions `rest` under `prefix`.
pub open spec fn norm_defs(
    rest: Seq<(Seq<char>, Json)>,
    prefix: Seq<char>,
    done: Seq<(Seq<char>, Json)>,
    base: Json,
    chain: Seq<Seq<char>>,
    rem: nat,
) -> Result<(Seq<(Seq<char>, Json)>, nat), SchemaError>
    decreases rem, msize_entries(rest), 0nat,
{
    if rest.len() == 0 {
        Ok((done, rem))
    } else {
        match norm(rest[0].1, prefix + seq!['/'] + escape_pointer(rest[0].0), base, chain, rem) {
            Err(err) => Err(err),
            Ok((q, r)) => norm_defs(
                rest.drop_first(),
                prefix,
                done.push((rest[0].0, q)),
                base,
                chain,
                min_nat(r, rem),
            ),
        }
    }
}

/// Normalizes the remaining alternatives `rest`, the first of them at
/// position `index`, under `prefix`.
pub open spec fn norm_items(
    rest: Seq<Json>,
    prefix: Seq<char>,
    index: nat,
    done: Seq<Json>,
    base: Json,
    chain: Seq<Seq<char>>,
    rem: nat,
) -> Result<(Seq<Json>, nat), SchemaError>
    decreases rem, msize_items(rest), 0nat,
{
    if rest.len() == 0 {
        Ok((done, rem))
    } else {
        match norm(rest[0], prefix + seq!['/'] + nat_text(index), base, chain, rem) {
            Err(err) => Err(err),
            Ok((q, r)) => norm_items(
                rest.drop_first(),
                prefix,
                index + 1,
                done.push(q),
                base,
                chain,
                min_nat(r, rem),
            ),
        }
    }
}

/// The strict form of a schema document: the normalized document, provided
/// it describes an object.
pub open spec fn strict_schema(v: Json) -> Result<Json, SchemaError> {
    match norm(v, "#"@, v, Seq::empty(), MAX_REF_INLINE_NODES as nat) {
        Err(err) => Err(err),
        Ok((w, _)) => match w {
            Json::Object(e) => if is_object_schema(e) {
                Ok(w)
            } else {
                Err(SchemaError::RootMustBeObject)
            },
            _ => Err(SchemaError::RootMustBeObject),
        },
    }
}

proof fn lemma_members_budget(
    rest: Seq<(Seq<char>, Json)>,
    acc: Seq<(Seq<char>, Json)>,
    path: Seq<char>,
    base: Json,
    chain: Seq<Seq<char>>,
    rem: nat,
)
    ensures
        norm_members(rest, acc, path, base, chain, rem) matches Ok((_, r)) ==> r <= rem,
    decreases rest.len(),
{
    if rest.len() > 0 {
        match member_step(rest[0].0, rest[0].1, acc, path, base, chain, rem) {
            Ok((acc2, r)) => lemma_members_budget(
                rest.drop_first(),
                acc2,
                path,
                base,
                chain,
                min_nat(r, rem),
            ),
            Err(_) => {},
        }
    }
}

/// The inlining budget is only spent: normalizing a schema leaves at most
/// the budget it was given.
pub proof fn law_inline_budget_is_only_spent(
    v: Json,
    path: Seq<char>,
    base: Json,
    chain: Seq<Seq<char>>,
    rem: nat,
)
    ensures
        norm(v, path, base, chain, rem) matches Ok((_, r)) ==> r <= rem,
    decreases rem, msize(v),
{
    match v {
        Json::Object(e) => match first_unsupported(e, 0) {
            Some(_) => {},
            None => match obj_get(e, "$ref"@) {
                Some(node) => {
                    match node {
                        Json::Str(r) => {
                            match resolve_ref(base, r) {
                                Some(Json::Object(target)) => {
                                    let merged = overlay(obj_remove(target, "$ref"@), e);
                                    let n = count_nodes(Json::Object(merged));
                                    if n <= rem && n >= 1 {
                                        law_inline_budget_is_only_spent(
                                            Json::Object(merged),
                                            path,
                                            base,
                                            chain.push(r),
                                            (rem - n) as nat,
                                        );
                                    }
                                },
                                _ => {},
                            }
                        },
                        _ => {},
                    }
                },
                None => {
                    let first = if is_object_schema(e) {
                        norm_object(e, path, base, chain, rem)
                    } else {
                        Ok((e, rem))
                    };
                    match first {
                        Ok((e1, rem1)) => lemma_members_budget(e, e1, path, base, chain, min_nat(rem1, rem)),
                        Err(_) => {},
                    }
                },
            },
        },
        _ => {},
    }
}

/// Inlining a reference charges the values of its inlined copy against the
/// budget, once: when they are more than what is left, normalization fails
/// at that reference; otherwise the copy is normalized with what is left
/// after the charge, with the reference added to the chain.
pub proof fn law_reference_charges_budget(
    e: Seq<(Seq<char>, Json)>,
    path: Seq<char>,
    base: Json,
    chain: Seq<Seq<char>>,
    rem: nat,
    r: Seq<char>,
    target: Seq<(Seq<char>, Json)>,
)
    requires
        first_unsupported(e, 0) is None,
        obj_get(e, "$ref"@) == Some(Json::Str(r)),
        r != "#"@,
        has_prefix(r, "#/"@),
        e.len() != 1,
        !chain.contains(r),
        resolve_ref(base, r) == Some(Json::Object(target)),
    ensures
        ({
            let merged = Json::Object(overlay(obj_remove(target, "$ref"@), e));
            let n = count_nodes(merged);
            &&& n > rem ==> norm(Json::Object(e), path, base, chain, rem) == Err::<(Json, nat), SchemaError>(
                SchemaError::ExpansionBudgetExceeded {
                    path: path + "/$ref"@,
                    budget: MAX_REF_INLINE_NODES as nat,
                },
            )
            &&& n <= rem ==> norm(Json::Object(e), path, base, chain, rem) == norm(
                merged,
                path,
                base,
                chain.push(r),
                (rem - n) as nat,
            )
        }),
{
}

/// The references of a chain, as character sequences.
pub open spec fn chain_view(c: Seq<String>) -> Seq<Seq<char>> {
    c.map_values(|s: String| s@)
}

fn chain_contains(chain: &Vec<String>, r: &str) -> (b: bool)
    ensures
        b == chain_view(chain@).contains(r@),
{
    let n = chain.len();
    let mut i: usize = 0;
    while i < n
        invariant
            n == chain@.len(),
            i <= n,
            forall|j: int| 0 <= j < i ==> chain@[j]@ != r@,
        decreases n - i,
    {
        if chars_eq(chain[i].as_str(), r) {
            assert(chain_view(chain@)[i as int] == r@);
            return true;
        }
        i = i + 1;
    }
    assert forall|j: int| 0 <= j < chain_view(chain@).len() implies chain_view(chain@)[j] != r@ by {
        assert(chain_view(chain@)[j] == chain@[j]@);
    }
    false
}

fn chain_with(chain: &Vec<String>, r: &str) -> (c: Vec<String>)
    ensures
        chain_view(c@) == chain_view(chain@).push(r@),
{
    let n = chain.len();
    let mut c: Vec<String> = Vec::new();
    let mut i: usize = 0;
    while i < n
        invariant
            n == chain@.len(),
            i <= n,
            c@.len() == i,
            forall|j: int| 0 <= j < i ==> #[trigger] c@[j]@ == chain@[j]@,
        decreases n - i,
    {
        c.push(chain[i].clone());
        i = i + 1;
    }
    c.push(r.to_owned());
    assert(chain_view(c@) =~= chain_view(chain@).push(r@));
    c
}

fn escape_pointer_exec(s: &str) -> (r: String)
    ensures
        r@ == escape_pointer(s@),
{
    let mut out = String::new();
    let n = s.unicode_len();
    let mut i: usize = 0;
    assert(s@.take(0) =~= Seq::<char>::empty());
    while i < n
        invariant
            n == s@.len(),
            i <= n,
            out@ == escape_pointer(s@.take(i as int)),
        decreases n - i,
    {
        let c = s.get_char(i);
        if c == '~' {
            out.push('~');
            out.push('0');
        } else if c == '/' {
            out.push('~');
            out.push('1');
        } else {
            out.push(c);
        }
        proof {
            let t = s@.take(i + 1);
            assert(t.drop_last() =~= s@.take(i as int));
            assert(t.last() == c);
            assert(out@ =~= escape_pointer(t));
        }
        i = i + 1;
    }
    assert(s@.take(n as int) =~= s@);
    out
}

fn unescape_pointer_exec(s: &str) -> (r: Option<String>)
    ensures
        match r {
            Some(x) => unescape_pointer(s@) == Some(x@),
            None => unescape_pointer(s@) is None,
        },
{
    let mut out = String::new();
    let n = s.unicode_len();
    let mut i: usize = 0;
    assert(s@.skip(0) =~= s@);
    while i < n
        invariant
            n == s@.len(),
            i <= n,
            unescape_pointer(s@) == match unescape_pointer(s@.skip(i as int)) {
                Some(r) => Some(out@ + r),
                None => None,
            },
        decreases n - i,
    {
        let c = s.get_char(i);
        let ghost rest = s@.skip(i as int);
        assert(rest[0] == c);
        if c == '~' {
            if i + 1 < n {
                let d = s.get_char(i + 1);
                assert(rest[1] == d);
                if d == '0' || d == '1' {
                    if d == '0' {
                        out.push('~');
                    } else {
                        out.push('/');
                    }
                    proof {
                        assert(rest.skip(2) =~= s@.skip(i + 2));
                        let tail = unescape_pointer(s@.skip(i + 2));
                        if tail is Some {
                            assert(out@ + tail->0 =~= old_out_plus(out@, tail->0));
                        }
                    }
                    i = i + 2;
                } else {
                    return None;
                }
            } else {
                return None;
            }
        } else {
            out.push(c);
            proof {
                assert(rest.drop_first() =~= s@.skip(i + 1));
            }
            i = i + 1;
        }
    }
    assert(s@.skip(n as int) =~= Seq::<char>::empty());
    assert(out@ + Seq::<char>::empty() =~= out@);
    Some(out)
}

spec fn old_out_plus(a: Seq<char>, b: Seq<char>) -> Seq<char> {
    a + b
}

proof fn lemma_slash_index_bound(p: Seq<char>)
    ensures
        slash_index(p) <= p.len(),
        slash_index(p) < p.len() ==> p[slash_index(p) as int] == '/',
    decreases p.len(),
{
    if p.len() > 0 && p[0] != '/' {
        lemma_slash_index_bound(p.drop_first());
    }
}

fn find_slash(p: &str) -> (i: usize)
    ensures
        i == slash_index(p@),
{
    let n = p.unicode_len();
    let mut j: usize = 0;
    assert(p@.skip(0) =~= p@);
    while j < n
        invariant
            n == p@.len(),
            j <= n,
            slash_index(p@) == j + slash_index(p@.skip(j as int)),
        decreases n - j,
    {
        if p.get_char(j) == '/' {
            return j;
        }
        assert(p@.skip(j as int).drop_first() =~= p@.skip(j + 1));
        j = j + 1;
    }
    j
}

fn walk<'a>(current: &'a JsonValue, p: &str) -> (r: Option<&'a JsonValue>)
    ensures
        match r {
            Some(x) => walk_pointer(current@, p@) == Some(x@),
            None => walk_pointer(current@, p@) is None,
        },
    decreases p@.len(),
{
    let n = p.unicode_len();
    let i = find_slash(p);
    proof {
        lemma_slash_index_bound(p@);
    }
    match current {
        JsonValue::Object(o) => {
            let seg = p.substring_char(0, i);
            assert(seg@ =~= p@.take(i as int));
            match unescape_pointer_exec(seg) {
                Some(key) => match o.get(key.as_str()) {
                    Some(next) => {
                        if i < n {
                            let rest = p.substring_char(i + 1, n);
                            assert(rest@ =~= p@.skip(i + 1));
                            walk(next, rest)
                        } else {
                            Some(next)
                        }
                    },
                    None => None,
                },
                None => None,
            }
        },
        _ => None,
    }
}

fn resolve<'a>(base: &'a JsonValue, r: &str) -> (res: Option<&'a JsonValue>)
    ensures
        match res {
            Some(x) => resolve_ref(base@, r@) == Some(x@),
            None => resolve_ref(base@, r@) is None,
        },
{
    proof {
        reveal_strlit("#/");
    }
    if starts_with(r, "#/") {
        let n = r.unicode_len();
        let p = r.substring_char(2, n);
        assert(p@ =~= r@.skip(2));
        if n == 2 {
            Some(base)
        } else {
            walk(base, p)
        }
    } else {
        None
    }
}

fn unsupported_keyword(k: usize) -> (r: &'static str)
    requires
        k < 20,
    ensures
        r@ == unsupported_keywords()[k as int],
{
    if k == 0 {
        "additionalItems"
    } else if k == 1 {
        "allOf"
    } else if k == 2 {
        "contains"
    } else if k == 3 {
        "dependentRequired"
    } else if k == 4 {
        "dependentSchemas"
    } else if k == 5 {
        "else"
    } else if k == 6 {
        "if"
    } else if k == 7 {
        "maxContains"
    } else if k == 8 {
        "maxProperties"
    } else if k == 9 {
        "minContains"
    } else if k == 10 {
        "minProperties"
    } else if k == 11 {
        "not"
    } else if k == 12 {
        "oneOf"
    } else if k == 13 {
        "patternProperties"
    } else if k == 14 {
        "prefixItems"
    } else if k == 15 {
        "propertyNames"
    } else if k == 16 {
        "then"
    } else if k == 17 {
        "unevaluatedItems"
    } else if k == 18 {
        "unevaluatedProperties"
    } else {
        "uniqueItems"
    }
}

fn find_unsupported(o: &JsonObject) -> (r: Option<&'static str>)
    ensures
        match r {
            Some(k) => first_unsupported(o@, 0) == Some(k@),
            None => first_unsupported(o@, 0) is None,
        },
{
    let mut k: usize = 0;
    assert(unsupported_keywords().len() == 20);
    while k < 20
        invariant
            k <= 20,
            unsupported_keywords().len() == 20,
            first_unsupported(o@, 0) == first_unsupported(o@, k as nat),
        decreases 20 - k,
    {
        let kw = unsupported_keyword(k);
        if o.contains_key(kw) {
            return Some(kw);
        }
        k = k + 1;
    }
    None
}

fn array_contains_str(ts: &Vec<JsonValue>, s: &str) -> (b: bool)
    ensures
        b == items_view(ts@).contains(Json::Str(s@)),
{
    proof {
        lemma_items_view(ts@);
    }
    let n = ts.len();
    let mut i: usize = 0;
    while i < n
        invariant
            n == ts@.len(),
            i <= n,
            items_view(ts@).len() == n,
            forall|j: int| 0 <= j < n ==> #[trigger] items_view(ts@)[j] == ts@[j]@,
            forall|j: int| 0 <= j < i ==> items_view(ts@)[j] != Json::Str(s@),
        decreases n - i,
    {
        match &ts[i] {
            JsonValue::String(x) => {
                if chars_eq(x.as_str(), s) {
                    assert(items_view(ts@)[i as int] == Json::Str(s@));
                    return true;
                }
            },
            _ => {},
        }
        i = i + 1;
    }
    false
}

fn is_object_schema_exec(o: &JsonObject) -> (b: bool)
    ensures
        b == is_object_schema(o@),
{
    if o.contains_key("properties") {
        return true;
    }
    match o.get("type") {
        Some(JsonValue::String(t)) => chars_eq(t.as_str(), "object"),
        Some(JsonValue::Array(ts)) => array_contains_str(ts, "object"),
        _ => false,
    }
}

fn type_allows_null_exec(o: &JsonObject) -> (b: bool)
    ensures
        b == type_allows_null(o@),
{
    match o.get("type") {
        Some(JsonValue::String(t)) => chars_eq(t.as_str(), "null"),
        Some(JsonValue::Array(ts)) => array_contains_str(ts, "null"),
        _ => false,
    }
}

fn allows_null_exec(v: &JsonValue) -> (b: bool)
    ensures
        b == allows_null(v@),
    decreases msize(v@), 1nat,
{
    match v {
        JsonValue::Bool(b) => *b,
        JsonValue::Object(o) => {
            if type_allows_null_exec(o) {
                return true;
            }
            let alt = match o.get("anyOf") {
                Some(x) => Some(x),
                None => o.get("oneOf"),
            };
            proof {
                lemma_obj_get_smaller(o@, "anyOf"@);
                lemma_obj_get_smaller(o@, "oneOf"@);
            }
            match alt {
                Some(JsonValue::Array(vs)) => any_allows_null_exec(vs),
                _ => false,
            }
        },
        _ => false,
    }
}

fn any_allows_null_exec(vs: &Vec<JsonValue>) -> (b: bool)
    ensures
        b == any_allows_null(items_view(vs@)),
    decreases msize_items(items_view(vs@)), 0nat,
{
    proof {
        lemma_items_view(vs@);
    }
    let ghost view = items_view(vs@);
    let n = vs.len();
    let mut i: usize = 0;
    assert(view.skip(0) =~= view);
    while i < n
        invariant
            n == vs@.len(),
            i <= n,
            view == items_view(vs@),
            view.len() == n,
            forall|j: int| 0 <= j < n ==> #[trigger] view[j] == vs@[j]@,
            any_allows_null(view) == any_allows_null(view.skip(i as int)),
        decreases n - i,
    {
        proof {
            lemma_msize_items_skip(view, i as int);
            assert(view.skip(i as int)[0] == view[i as int]);
            assert(view.skip(i as int).drop_first() =~= view.skip(i + 1));
        }
        if allows_null_exec(&vs[i]) {
            return true;
        }
        i = i + 1;
    }
    assert(view.skip(n as int).len() == 0);
    false
}

fn listed_required_exec(e: &JsonObject, name: &str) -> (b: bool)
    ensures
        b == listed_required(e@, name@),
{
    match e.get("required") {
        Some(JsonValue::Array(items)) => array_contains_str(items, name),
        _ => false,
    }
}

fn nullable_wrap_exec(q: JsonValue) -> (w: JsonValue)
    ensures
        w@ == nullable_wrap(q@),
{
    let mut ns = JsonObject::new();
    ns.insert(String::from_str("type"), JsonValue::String(String::from_str("null")));
    let mut items: Vec<JsonValue> = Vec::new();
    items.push(q);
    items.push(JsonValue::Object(ns));
    proof {
        lemma_items_view(items@);
        assert(items_view(items@) =~= seq![q@, null_schema()]);
    }
    let mut w = JsonObject::new();
    w.insert(String::from_str("anyOf"), JsonValue::Array(items));
    JsonValue::Object(w)
}

fn property_names_exec(props: &JsonObject) -> (names: Vec<JsonValue>)
    ensures
        items_view(names@) == property_names(props@),
{
    let n = props.len();
    let mut names: Vec<JsonValue> = Vec::new();
    let mut i: usize = 0;
    while i < n
        invariant
            n == props@.len(),
            i <= n,
            names@.len() == i,
            forall|j: int| 0 <= j < i ==> (#[trigger] names@[j])@ == Json::Str(props@[j].0),
        decreases n - i,
    {
        names.push(JsonValue::String(props.key_at(i).clone()));
        i = i + 1;
    }
    proof {
        lemma_items_view(names@);
        assert(items_view(names@) =~= property_names(props@));
    }
    names
}

fn build_overlay(target: &JsonObject, e: &JsonObject) -> (merged: JsonObject)
    ensures
        merged@ == overlay(obj_remove(target@, "$ref"@), e@),
{
    let mut merged = target.duplicate();
    merged.remove("$ref");
    let n = e.len();
    let mut i: usize = 0;
    assert(e@.skip(0) =~= e@);
    while i < n
        invariant
            n == e@.len(),
            i <= n,
            overlay(obj_remove(target@, "$ref"@), e@) == overlay(merged@, e@.skip(i as int)),
        decreases n - i,
    {
        let key = e.key_at(i);
        proof {
            assert(e@.skip(i as int)[0] == e@[i as int]);
            assert(e@.skip(i as int).drop_first() =~= e@.skip(i + 1));
        }
        if !chars_eq(key.as_str(), "$ref") {
            merged.insert(key.clone(), e.value_at(i).duplicate());
        }
        i = i + 1;
    }
    assert(e@.skip(n as int).len() == 0);
    merged
}

/// The view of a normalization outcome for a value.
pub open spec fn value_outcome(r: Result<(JsonValue, usize), StructuredError>) -> Result<
    (Json, nat),
    SchemaError,
> {
    match r {
        Ok((w, left)) => Ok((w@, left as nat)),
        Err(err) => Err(err@),
    }
}

/// The view of a normalization outcome for object members.
pub open spec fn object_outcome(r: Result<(JsonObject, usize), StructuredError>) -> Result<
    (Seq<(Seq<char>, Json)>, nat),
    SchemaError,
> {
    match r {
        Ok((w, left)) => Ok((w@, left as nat)),
        Err(err) => Err(err@),
    }
}

/// The view of a normalization outcome for array items.
pub open spec fn items_outcome(r: Result<(Vec<JsonValue>, usize), StructuredError>) -> Result<
    (Seq<Json>, nat),
    SchemaError,
> {
    match r {
        Ok((w, left)) => Ok((items_view(w@), left as nat)),
        Err(err) => Err(err@),
    }
}

fn normalize_value(
    value: &JsonValue,
    path: &str,
    base: &JsonValue,
    chain: &Vec<String>,
    rem: usize,
) -> (r: Result<(JsonValue, usize), StructuredError>)
    requires
        rem <= MAX_REF_INLINE_NODES,
    ensures
        value_outcome(r) == norm(value@, path@, base@, chain_view(chain@), rem as nat),
        r matches Ok((_, left)) ==> left <= rem,
    decreases rem, msize(value@), 1nat,
{
    let o = match value {
        JsonValue::Object(o) => o,
        _ => {
            return Ok((value.duplicate(), rem));
        },
    };
    match find_unsupported(o) {
        Some(kw) => {
            let mut at = path.to_owned();
            at.push('/');
            at.append(escape_pointer_exec(kw).as_str());
            assert(at@ =~= path@ + seq!['/'] + escape_pointer(kw@));
            return Err(StructuredError::UnsupportedKeyword { path: at, keyword: kw.to_owned() });
        },
        None => {},
    }
    match o.get("$ref") {
        Some(node) => {
            return normalize_ref(o, node, path, base, chain, rem);
        },
        None => {},
    }
    let (work, rem1) = if is_object_schema_exec(o) {
        match normalize_object(o, path, base, chain, rem) {
            Ok(res) => res,
            Err(err) => {
                return Err(err);
            },
        }
    } else {
        (o.duplicate(), rem)
    };
    let rem1c = if rem1 <= rem {
        rem1
    } else {
        rem
    };
    match normalize_members(o, work, path, base, chain, rem1c) {
        Ok((done, left)) => Ok((JsonValue::Object(done), left)),
        Err(err) => Err(err),
    }
}

fn normalize_ref(
    e: &JsonObject,
    node: &JsonValue,
    path: &str,
    base: &JsonValue,
    chain: &Vec<String>,
    rem: usize,
) -> (r: Result<(JsonValue, usize), StructuredError>)
    requires
        rem <= MAX_REF_INLINE_NODES,
    ensures
        value_outcome(r) == norm_ref(e@, node@, path@, base@, chain_view(chain@), rem as nat),
        r matches Ok((_, left)) ==> left <= rem,
    decreases rem, msize(Json::Object(e@)), 0nat,
{
    let at = concat_str(path, "/$ref");
    match node {
        JsonValue::String(r) => {
            if chars_eq(r.as_str(), "#") {
                return Err(StructuredError::RecursiveReference { path: at, reference: r.clone() });
            }
            if !starts_with(r.as_str(), "#/") {
                return Err(StructuredError::ExternalReference { path: at, reference: r.clone() });
            }
            if e.len() == 1 {
                return Ok((JsonValue::Object(e.duplicate()), rem));
            }
            if chain_contains(chain, r.as_str()) {
                return Err(StructuredError::RecursiveReference { path: at, reference: r.clone() });
            }
            match resolve(base, r.as_str()) {
                Some(JsonValue::Object(target)) => {
                    let merged = JsonValue::Object(build_overlay(target, e));
                    let n = merged.count_nodes_capped(MAX_REF_INLINE_NODES);
                    if n > rem {
                        Err(
                            StructuredError::ExpansionBudgetExceeded {
                                path: at,
                                budget: MAX_REF_INLINE_NODES,
                            },
                        )
                    } else {
                        let longer = chain_with(chain, r.as_str());
                        normalize_value(&merged, path, base, &longer, rem - n)
                    }
                },
                _ => Err(StructuredError::UnresolvableRef { path: at, reference: r.clone() }),
            }
        },
        _ => {
            let mut text = String::new();
            node.write_text(&mut text);
            Err(StructuredError::UnresolvableRef { path: at, reference: text })
        },
    }
}

fn normalize_object(
    e: &JsonObject,
    path: &str,
    base: &JsonValue,
    chain: &Vec<String>,
    rem: usize,
) -> (r: Result<(JsonObject, usize), StructuredError>)
    requires
        rem <= MAX_REF_INLINE_NODES,
    ensures
        object_outcome(r) == norm_object(e@, path@, base@, chain_view(chain@), rem as nat),
        r matches Ok((_, left)) ==> left <= rem,
    decreases rem, msize(Json::Object(e@)), 0nat,
{
    let mut work = e.duplicate();
    match e.get("additionalProperties") {
        None => {
            work.insert(String::from_str("additionalProperties"), JsonValue::Bool(false));
        },
        Some(JsonValue::Bool(false)) => {},
        Some(_) => {
            return Err(
                StructuredError::UnsupportedKeyword {
                    path: concat_str(path, "/additionalProperties"),
                    keyword: String::from_str("additionalProperties"),
                },
            );
        },
    }
    match e.get("properties") {
        Some(JsonValue::Object(props)) => {
            proof {
                lemma_obj_get_smaller(e@, "properties"@);
            }
            match normalize_props(props, e, path, base, chain, rem) {
                Ok((done, left)) => {
                    let names = property_names_exec(props);
                    work.insert(String::from_str("properties"), JsonValue::Object(done));
                    work.insert(String::from_str("required"), JsonValue::Array(names));
                    Ok((work, left))
                },
                Err(err) => Err(err),
            }
        },
        _ => {
            let names: Vec<JsonValue> = Vec::new();
            proof {
                lemma_items_view(names@);
                assert(items_view(names@) =~= Seq::<Json>::empty());
            }
            work.insert(String::from_str("required"), JsonValue::Array(names));
            Ok((work, rem))
        },
    }
}

fn normalize_props(
    props: &JsonObject,
    e: &JsonObject,
    path: &str,
    base: &JsonValue,
    chain: &Vec<String>,
    rem: usize,
) -> (r: Result<(JsonObject, usize), StructuredError>)
    requires
        rem <= MAX_REF_INLINE_NODES,
    ensures
        object_outcome(r) == norm_props(props@, e@, path@, Seq::empty(), base@, chain_view(chain@), rem as nat),
        r matches Ok((_, left)) ==> left <= rem,
    decreases rem, msize_entries(props@), 0nat,
{
    let ghost cv = chain_view(chain@);
    let n = props.len();
    let mut done = JsonObject::new();
    let mut cur = rem;
    let mut i: usize = 0;
    assert(props@.skip(0) =~= props@);
    while i < n
        invariant
            n == props@.len(),
            i <= n,
            cur <= rem,
            rem <= MAX_REF_INLINE_NODES,
            cv == chain_view(chain@),
            norm_props(props@, e@, path@, Seq::empty(), base@, cv, rem as nat) == norm_props(
                props@.skip(i as int),
                e@,
                path@,
                done@,
                base@,
                cv,
                cur as nat,
            ),
        decreases n - i,
    {
        let name = props.key_at(i);
        let p = props.value_at(i);
        proof {
            lemma_msize_entries_skip(props@, i as int);
            assert(props@.skip(i as int)[0] == props@[i as int]);
            assert(props@.skip(i as int).drop_first() =~= props@.skip(i + 1));
        }
        let mut at = concat_str(path, "/properties/");
        at.append(escape_pointer_exec(name.as_str()).as_str());
        let step = if listed_required_exec(e, name.as_str()) || allows_null_exec(p) {
            normalize_value(p, at.as_str(), base, chain, cur)
        } else {
            let at0 = concat_str(at.as_str(), "/anyOf/0");
            match normalize_value(p, at0.as_str(), base, chain, cur) {
                Ok((q, left)) => Ok((nullable_wrap_exec(q), left)),
                Err(err) => Err(err),
            }
        };
        match step {
            Ok((q, left)) => {
                done.push_member(name.clone(), q);
                cur = if left <= cur {
                    left
                } else {
                    cur
                };
            },
            Err(err) => {
                return Err(err);
            },
        }
        i = i + 1;
    }
    assert(props@.skip(n as int).len() == 0);
    Ok((done, cur))
}

fn normalize_members(
    e: &JsonObject,
    init: JsonObject,
    path: &str,
    base: &JsonValue,
    chain: &Vec<String>,
    rem: usize,
) -> (r: Result<(JsonObject, usize), StructuredError>)
    requires
        rem <= MAX_REF_INLINE_NODES,
    ensures
        object_outcome(r) == norm_members(e@, init@, path@, base@, chain_view(chain@), rem as nat),
        r matches Ok((_, left)) ==> left <= rem,
    decreases rem, msize_entries(e@), 0nat,
{
    let ghost cv = chain_view(chain@);
    let ghost acc0 = init@;
    let mut acc = init;
    let n = e.len();
    let mut cur = rem;
    let mut i: usize = 0;
    assert(e@.skip(0) =~= e@);
    while i < n
        invariant
            acc0 == init@,
            n == e@.len(),
            i <= n,
            cur <= rem,
            rem <= MAX_REF_INLINE_NODES,
            cv == chain_view(chain@),
            norm_members(e@, acc0, path@, base@, cv, rem as nat) == norm_members(
                e@.skip(i as int),
                acc@,
                path@,
                base@,
                cv,
                cur as nat,
            ),
        decreases n - i,
    {
        let key = e.key_at(i);
        let child = e.value_at(i);
        proof {
            lemma_msize_entries_skip(e@, i as int);
            assert(e@.skip(i as int)[0] == e@[i as int]);
            assert(e@.skip(i as int).drop_first() =~= e@.skip(i + 1));
        }
        let ghost acc_before = acc@;
        let step = normalize_member(key, child, acc, path, base, chain, cur);
        assert(norm_members(e@.skip(i as int), acc_before, path@, base@, cv, cur as nat) == match member_step(key@, child@, acc_before, path@, base@, cv, cur as nat) {
            Err(err) => Err(err),
            Ok((acc2, r)) => norm_members(e@.skip(i + 1), acc2, path@, base@, cv, min_nat(r, cur as nat)),
        });
        match step {
            Ok((next, left)) => {
                acc = next;
                cur = if left <= cur {
                    left
                } else {
                    cur
                };
            },
            Err(err) => {
                assert(member_step(key@, child@, acc_before, path@, base@, cv, cur as nat) == Err::<
                    (Seq<(Seq<char>, Json)>, nat),
                    SchemaError,
                >(err@));
                assert(norm_members(e@, acc0, path@, base@, cv, rem as nat) == Err::<
                    (Seq<(Seq<char>, Json)>, nat),
                    SchemaError,
                >(err@));
                return Err(err);
            },
        }
        i = i + 1;
    }
    assert(e@.skip(n as int).len() == 0);
    Ok((acc, cur))
}

fn normalize_member(
    key: &String,
    child: &JsonValue,
    acc: JsonObject,
    path: &str,
    base: &JsonValue,
    chain: &Vec<String>,
    rem: usize,
) -> (r: Result<(JsonObject, usize), StructuredError>)
    requires
        rem <= MAX_REF_INLINE_NODES,
    ensures
        object_outcome(r) == member_step(key@, child@, acc@, path@, base@, chain_view(chain@), rem as nat),
        r matches Ok((_, left)) ==> left <= rem,
    decreases rem, msize(child@), 2nat,
{
    let mut acc = acc;
    if chars_eq(key.as_str(), "$defs") || chars_eq(key.as_str(), "definitions") {
        match child {
            JsonValue::Object(defs) => {
                let mut prefix = path.to_owned();
                prefix.push('/');
                prefix.append(escape_pointer_exec(key.as_str()).as_str());
                assert(prefix@ =~= path@ + seq!['/'] + escape_pointer(key@));
                match normalize_defs(defs, prefix.as_str(), base, chain, rem) {
                    Ok((d, left)) => {
                        acc.insert(key.clone(), JsonValue::Object(d));
                        Ok((acc, left))
                    },
                    Err(err) => Err(err),
                }
            },
            _ => Ok((acc, rem)),
        }
    } else if chars_eq(key.as_str(), "anyOf") {
        match child {
            JsonValue::Array(items) => {
                let prefix = concat_str(path, "/anyOf");
                match normalize_items(items, prefix.as_str(), base, chain, rem) {
                    Ok((d, left)) => {
                        acc.insert(key.clone(), JsonValue::Array(d));
                        Ok((acc, left))
                    },
                    Err(err) => Err(err),
                }
            },
            _ => Ok((acc, rem)),
        }
    } else if chars_eq(key.as_str(), "items") {
        match child {
            JsonValue::Object(_) | JsonValue::Bool(_) => {
                let at = concat_str(path, "/items");
                match normalize_value(child, at.as_str(), base, chain, rem) {
                    Ok((c, left)) => {
                        acc.insert(key.clone(), c);
                        Ok((acc, left))
                    },
                    Err(err) => Err(err),
                }
            },
            _ => Ok((acc, rem)),
        }
    } else {
        Ok((acc, rem))
    }
}

fn normalize_defs(
    defs: &JsonObject,
    prefix: &str,
    base: &JsonValue,
    chain: &Vec<String>,
    rem: usize,
) -> (r: Result<(JsonObject, usize), StructuredError>)
    requires
        rem <= MAX_REF_INLINE_NODES,
    ensures
        object_outcome(r) == norm_defs(defs@, prefix@, Seq::empty(), base@, chain_view(chain@), rem as nat),
        r matches Ok((_, left)) ==> left <= rem,
    decreases rem, msize_entries(defs@), 0nat,
{
    let ghost cv = chain_view(chain@);
    let n = defs.len();
    let mut done = JsonObject::new();
    let mut cur = rem;
    let mut i: usize = 0;
    assert(defs@.skip(0) =~= defs@);
    while i < n
        invariant
            n == defs@.len(),
            i <= n,
            cur <= rem,
            rem <= MAX_REF_INLINE_NODES,
            cv == chain_view(chain@),
            norm_defs(defs@, prefix@, Seq::empty(), base@, cv, rem as nat) == norm_defs(
                defs@.skip(i as int),
                prefix@,
                done@,
                base@,
                cv,
                cur as nat,
            ),
        decreases n - i,
    {
        let name = defs.key_at(i);
        proof {
            lemma_msize_entries_skip(defs@, i as int);
            assert(defs@.skip(i as int)[0] == defs@[i as int]);
            assert(defs@.skip(i as int).drop_first() =~= defs@.skip(i + 1));
        }
        let mut at = prefix.to_owned();
        at.push('/');
        at.append(escape_pointer_exec(name.as_str()).as_str());
        assert(at@ =~= prefix@ + seq!['/'] + escape_pointer(name@));
        match normalize_value(defs.value_at(i), at.as_str(), base, chain, cur) {
            Ok((q, left)) => {
                done.push_member(name.clone(), q);
                cur = if left <= cur {
                    left
                } else {
                    cur
                };
            },
            Err(err) => {
                return Err(err);
            },
        }
        i = i + 1;
    }
    assert(defs@.skip(n as int).len() == 0);
    Ok((done, cur))
}

fn normalize_items(
    items: &Vec<JsonValue>,
    prefix: &str,
    base: &JsonValue,
    chain: &Vec<String>,
    rem: usize,
) -> (r: Result<(Vec<JsonValue>, usize), StructuredError>)
    requires
        rem <= MAX_REF_INLINE_NODES,
    ensures
        items_outcome(r) == norm_items(items_view(items@), prefix@, 0, Seq::empty(), base@, chain_view(chain@), rem as nat),
        r matches Ok((_, left)) ==> left <= rem,
    decreases rem, msize_items(items_view(items@)), 0nat,
{
    proof {
        lemma_items_view(items@);
    }
    let ghost cv = chain_view(chain@);
    let ghost view = items_view(items@);
    let n = items.len();
    let mut done: Vec<JsonValue> = Vec::new();
    let mut cur = rem;
    let mut i: usize = 0;
    proof {
        lemma_items_view(done@);
        assert(view.skip(0) =~= view);
        assert(items_view(done@) =~= Seq::<Json>::empty());
    }
    while i < n
        invariant
            n == items@.len(),
            i <= n,
            cur <= rem,
            rem <= MAX_REF_INLINE_NODES,
            cv == chain_view(chain@),
            view == items_view(items@),
            view.len() == n,
            forall|j: int| 0 <= j < n ==> #[trigger] view[j] == items@[j]@,
            norm_items(view, prefix@, 0, Seq::empty(), base@, cv, rem as nat) == norm_items(
                view.skip(i as int),
                prefix@,
                i as nat,
                items_view(done@),
                base@,
                cv,
                cur as nat,
            ),
        decreases n - i,
    {
        proof {
            lemma_msize_items_skip(view, i as int);
            assert(view.skip(i as int)[0] == view[i as int]);
            assert(view.skip(i as int).drop_first() =~= view.skip(i + 1));
        }
        let mut at = prefix.to_owned();
        at.push('/');
        push_decimal(i, &mut at);
        assert(at@ =~= prefix@ + seq!['/'] + nat_text(i as nat));
        match normalize_value(&items[i], at.as_str(), base, chain, cur) {
            Ok((q, left)) => {
                let ghost before = done@;
                done.push(q);
                proof {
                    lemma_items_view(before);
                    lemma_items_view(done@);
                    assert(items_view(done@) =~= items_view(before).push(q@));
                }
                cur = if left <= cur {
                    left
                } else {
                    cur
                };
            },
            Err(err) => {
                return Err(err);
            },
        }
        i = i + 1;
    }
    assert(view.skip(n as int).len() == 0);
    Ok((done, cur))
}

/// Rewrites a JSON Schema document into the strict subset: objects get
/// `additionalProperties: false` and list every property as required,
/// optional properties become nullable, and `$ref`s with sibling keys are
/// inlined.  On failure the document is left as it was.
pub fn normalize_strict_schema(schema: &mut JsonValue) -> (r: Result<(), StructuredError>)
    ensures
        match strict_schema(old(schema)@) {
            Ok(w) => r is Ok && final(schema)@ == w,
            Err(err) => r matches Err(x) && x@ == err && final(schema)@ == old(schema)@,
        },
{
    let base = schema.duplicate();
    let path = String::from_str("#");
    let chain: Vec<String> = Vec::new();
    proof {
        assert(chain_view(chain@) =~= Seq::<Seq<char>>::empty());
    }
    match normalize_value(&base, path.as_str(), &base, &chain, MAX_REF_INLINE_NODES) {
        Err(err) => Err(err),
        Ok((w, _)) => {
            let is_object = match &w {
                JsonValue::Object(o) => is_object_schema_exec(o),
                _ => false,
            };
            if is_object {
                *schema = w;
                Ok(())
            } else {
                Err(StructuredError::RootMustBeObject)
            }
        },
    }
}

/// The keys whose members hold nested schemas that normalization rewrites.
pub open spec fn is_nested_key(k: Seq<char>) -> bool {
    k == "$defs"@ || k == "definitions"@ || k == "anyOf"@ || k == "items"@
}

proof fn lemma_keys_distinct()
    ensures
        !is_nested_key("additionalProperties"@),
        !is_nested_key("required"@),
        !is_nested_key("properties"@),
        !is_nested_key("type"@),
        "$ref"@ != "properties"@,
        "$ref"@ != "type"@,
        "additionalProperties"@ != "properties"@,
        "additionalProperties"@ != "required"@,
        "additionalProperties"@ != "type"@,
        "required"@ != "properties"@,
        "required"@ != "type"@,
        "properties"@ != "type"@,
{
    reveal_strlit("$defs");
    reveal_strlit("definitions");
    reveal_strlit("anyOf");
    reveal_strlit("items");
    reveal_strlit("additionalProperties");
    reveal_strlit("required");
    reveal_strlit("properties");
    reveal_strlit("type");
    reveal_strlit("$ref");
    assert("additionalProperties"@.len() != "$defs"@.len());
    assert("additionalProperties"@.len() != "definitions"@.len());
    assert("additionalProperties"@.len() != "anyOf"@.len());
    assert("additionalProperties"@.len() != "items"@.len());
    assert("required"@[0] != "$defs"@[0]);
    assert("required"@[0] != "definitions"@[0]);
    assert("required"@.len() != "anyOf"@.len());
    assert("required"@.len() != "items"@.len());
    assert("properties"@.len() != "$defs"@.len());
    assert("properties"@.len() != "definitions"@.len());
    assert("properties"@.len() != "anyOf"@.len());
    assert("properties"@.len() != "items"@.len());
    assert("type"@.len() != "$defs"@.len());
    assert("type"@.len() != "definitions"@.len());
    assert("type"@.len() != "anyOf"@.len());
    assert("type"@.len() != "items"@.len());
    assert("$ref"@.len() != "properties"@.len());
    assert("$ref"@[0] != "type"@[0]);
    assert("additionalProperties"@.len() != "properties"@.len());
    assert("additionalProperties"@.len() != "required"@.len());
    assert("additionalProperties"@.len() != "type"@.len());
    assert("required"@.len() != "properties"@.len());
    assert("required"@.len() != "type"@.len());
    assert("properties"@.len() != "type"@.len());
}

/// A member step stores into `acc` under nested-schema keys only.
proof fn lemma_member_step_keeps(
    key: Seq<char>,
    child: Json,
    acc: Seq<(Seq<char>, Json)>,
    path: Seq<char>,
    base: Json,
    chain: Seq<Seq<char>>,
    rem: nat,
    k: Seq<char>,
)
    requires
        !is_nested_key(k),
        member_step(key, child, acc, path, base, chain, rem) is Ok,
    ensures
        obj_get(member_step(key, child, acc, path, base, chain, rem)->Ok_0.0, k) == obj_get(acc, k),
{
    let r = member_step(key, child, acc, path, base, chain, rem);
    if key == "$defs"@ || key == "definitions"@ || key == "anyOf"@ || key == "items"@ {
        if r->Ok_0.0 != acc {
            lemma_obj_get_insert(acc, key, obj_get(r->Ok_0.0, key)->0, k);
        }
    }
    if key == "$defs"@ || key == "definitions"@ {
        match child {
            Json::Object(defs) => {
                let d = norm_defs(defs, path + seq!['/'] + escape_pointer(key), Seq::empty(), base, chain, rem);
                lemma_obj_get_insert(acc, key, Json::Object(d->Ok_0.0), k);
            },
            _ => {},
        }
    } else if key == "anyOf"@ {
        match child {
            Json::Array(items) => {
                let d = norm_items(items, path + "/anyOf"@, 0, Seq::empty(), base, chain, rem);
                lemma_obj_get_insert(acc, key, Json::Array(d->Ok_0.0), k);
            },
            _ => {},
        }
    } else if key == "items"@ && (child is Object || child is Bool) {
        let c = norm(child, path + "/items"@, base, chain, rem);
        lemma_obj_get_insert(acc, key, c->Ok_0.0, k);
    }
}

/// Normalizing the nested schemas of an object keeps every other member.
proof fn lemma_norm_members_keeps(
    rest: Seq<(Seq<char>, Json)>,
    acc: Seq<(Seq<char>, Json)>,
    path: Seq<char>,
    base: Json,
    chain: Seq<Seq<char>>,
    rem: nat,
    k: Seq<char>,
)
    requires
        !is_nested_key(k),
        norm_members(rest, acc, path, base, chain, rem) is Ok,
    ensures
        obj_get(norm_members(rest, acc, path, base, chain, rem)->Ok_0.0, k) == obj_get(acc, k),
    decreases rest.len(),
{
    if rest.len() > 0 {
        let step = member_step(rest[0].0, rest[0].1, acc, path, base, chain, rem);
        lemma_member_step_keeps(rest[0].0, rest[0].1, acc, path, base, chain, rem, k);
        let (acc2, r) = step->Ok_0;
        lemma_norm_members_keeps(rest.drop_first(), acc2, path, base, chain, min_nat(r, rem), k);
    }
}

/// Normalizing properties keeps their names and their order.
proof fn lemma_norm_props_names(
    rest: Seq<(Seq<char>, Json)>,
    e: Seq<(Seq<char>, Json)>,
    path: Seq<char>,
    done: Seq<(Seq<char>, Json)>,
    base: Json,
    chain: Seq<Seq<char>>,
    rem: nat,
)
    requires
        norm_props(rest, e, path, done, base, chain, rem) is Ok,
    ensures
        property_names(norm_props(rest, e, path, done, base, chain, rem)->Ok_0.0) == property_names(
            done,
        ) + property_names(rest),
    decreases rest.len(),
{
    if rest.len() == 0 {
        assert(property_names(rest) =~= Seq::<Json>::empty());
        assert(property_names(done) + property_names(rest) =~= property_names(done));
    } else {
        let name = rest[0].0;
        let p = rest[0].1;
        let at = path + "/properties/"@ + escape_pointer(name);
        let step = if listed_required(e, name) || allows_null(p) {
            norm(p, at, base, chain, rem)
        } else {
            match norm(p, at + "/anyOf/0"@, base, chain, rem) {
                Err(err) => Err(err),
                Ok((q, r)) => Ok((nullable_wrap(q), r)),
            }
        };
        let (q, r) = step->Ok_0;
        lemma_norm_props_names(rest.drop_first(), e, path, done.push((name, q)), base, chain, min_nat(r, rem));
        assert(property_names(done.push((name, q))) + property_names(rest.drop_first())
            =~= property_names(done) + property_names(rest));
    }
}

/// A normalized schema that describes an object has `additionalProperties:
/// false`, and its `required` lists the names of its properties in order.
proof fn lemma_norm_object_shape(
    v: Json,
    path: Seq<char>,
    base: Json,
    chain: Seq<Seq<char>>,
    rem: nat,
)
    requires
        norm(v, path, base, chain, rem) matches Ok((Json::Object(e2), _)) && is_object_schema(e2),
    ensures
        norm(v, path, base, chain, rem) matches Ok((Json::Object(e2), _)) && strict_object_shape(e2),
    decreases rem, msize(v),
{
    lemma_keys_distinct();
    let e = v->Object_0;
    if obj_get(e, "$ref"@) is Some {
        let node = obj_get(e, "$ref"@)->0;
        let r = node->Str_0;
        if e.len() == 1 {
            assert(e.drop_first().len() == 0);
            assert(obj_get(e.drop_first(), "$ref"@) is None);
            assert(e[0].0 == "$ref"@);
            assert(obj_get(e.drop_first(), "properties"@) is None);
            assert(obj_get(e.drop_first(), "type"@) is None);
        } else {
            let target = resolve_ref(base, r)->0->Object_0;
            let merged = overlay(obj_remove(target, "$ref"@), e);
            let n = count_nodes(Json::Object(merged));
            lemma_norm_object_shape(Json::Object(merged), path, base, chain.push(r), (rem - n) as nat);
        }
    } else {
        let first = if is_object_schema(e) {
            norm_object(e, path, base, chain, rem)
        } else {
            Ok((e, rem))
        };
        let (e1, rem1) = first->Ok_0;
        let e2 = norm_members(e, e1, path, base, chain, min_nat(rem1, rem))->Ok_0.0;
        lemma_norm_members_keeps(e, e1, path, base, chain, min_nat(rem1, rem), "additionalProperties"@);
        lemma_norm_members_keeps(e, e1, path, base, chain, min_nat(rem1, rem), "required"@);
        lemma_norm_members_keeps(e, e1, path, base, chain, min_nat(rem1, rem), "properties"@);
        lemma_norm_members_keeps(e, e1, path, base, chain, min_nat(rem1, rem), "type"@);
        if is_object_schema(e) {
            let ap = obj_get(e, "additionalProperties"@);
            let ea = if ap is None {
                obj_insert(e, "additionalProperties"@, Json::Bool(false))
            } else {
                e
            };
            lemma_obj_get_insert(e, "additionalProperties"@, Json::Bool(false), "additionalProperties"@);
            lemma_obj_get_insert(e, "additionalProperties"@, Json::Bool(false), "properties"@);
            match obj_get(e, "properties"@) {
                Some(Json::Object(props)) => {
                    let done = norm_props(props, e, path, Seq::empty(), base, chain, rem)->Ok_0.0;
                    let ep = obj_insert(ea, "properties"@, Json::Object(done));
                    lemma_obj_get_insert(ea, "properties"@, Json::Object(done), "additionalProperties"@);
                    lemma_obj_get_insert(ea, "properties"@, Json::Object(done), "properties"@);
                    lemma_obj_get_insert(ep, "required"@, Json::Array(property_names(props)), "additionalProperties"@);
                    lemma_obj_get_insert(ep, "required"@, Json::Array(property_names(props)), "properties"@);
                    lemma_obj_get_insert(ep, "required"@, Json::Array(property_names(props)), "required"@);
                    lemma_norm_props_names(props, e, path, Seq::empty(), base, chain, rem);
                    assert(property_names(Seq::<(Seq<char>, Json)>::empty()) + property_names(props)
                        =~= property_names(props));
                },
                _ => {
                    lemma_obj_get_insert(ea, "required"@, Json::Array(Seq::empty()), "additionalProperties"@);
                    lemma_obj_get_insert(ea, "required"@, Json::Array(Seq::empty()), "properties"@);
                    lemma_obj_get_insert(ea, "required"@, Json::Array(Seq::empty()), "required"@);
                },
            }
        }
    }
}

/// An object schema in strict form: `additionalProperties` is `false` and
/// `required` lists every property name, in order.
pub open spec fn strict_object_shape(e: Seq<(Seq<char>, Json)>) -> bool {
    &&& obj_get(e, "additionalProperties"@) == Some(Json::Bool(false))
    &&& match obj_get(e, "properties"@) {
        Some(Json::Object(p)) => obj_get(e, "required"@) == Some(Json::Array(property_names(p))),
        _ => obj_get(e, "required"@) == Some(Json::Array(Seq::empty())),
    }
}

/// A document in strict form is an object schema that forbids properties
/// other than its own and lists every one of them as required.
pub proof fn law_strict_schema_shape(v: Json)
    requires
        strict_schema(v) is Ok,
    ensures
        strict_schema(v)->Ok_0 matches Json::Object(e) && is_object_schema(e) && strict_object_shape(e),
{
    lemma_norm_object_shape(v, "#"@, v, Seq::empty(), MAX_REF_INLINE_NODES as nat);
}

/// Whether every schema that normalization rewrites inside `v` is in strict
/// form: each object schema, and the schemas under its `properties`,
/// `$defs`, `definitions`, `anyOf` and `items`, at any depth.
pub open spec fn strict_everywhere(v: Json) -> bool
    decreases msize(v), 1nat,
{
    match v {
        Json::Object(e) => {
            proof {
                lemma_obj_get_smaller(e, "properties"@);
                lemma_obj_get_smaller(e, "$defs"@);
                lemma_obj_get_smaller(e, "definitions"@);
                lemma_obj_get_smaller(e, "anyOf"@);
                lemma_obj_get_smaller(e, "items"@);
            }
            &&& (is_object_schema(e) ==> strict_object_shape(e))
            &&& match obj_get(e, "properties"@) {
                Some(Json::Object(p)) => strict_entries(p),
                _ => true,
            }
            &&& match obj_get(e, "$defs"@) {
                Some(Json::Object(d)) => strict_entries(d),
                _ => true,
            }
            &&& match obj_get(e, "definitions"@) {
                Some(Json::Object(d)) => strict_entries(d),
                _ => true,
            }
            &&& match obj_get(e, "anyOf"@) {
                Some(Json::Array(xs)) => strict_items(xs),
                _ => true,
            }
            &&& match obj_get(e, "items"@) {
                Some(x) => strict_everywhere(x),
                None => true,
            }
        },
        _ => true,
    }
}

/// Whether every member value of `p` is [`strict_everywhere`].
pub open spec fn strict_entries(p: Seq<(Seq<char>, Json)>) -> bool
    decreases msize_entries(p), 0nat,
{
    if p.len() == 0 {
        true
    } else {
        strict_everywhere(p[0].1) && strict_entries(p.drop_first())
    }
}

/// Whether every item of `xs` is [`strict_everywhere`].
pub open spec fn strict_items(xs: Seq<Json>) -> bool
    decreases msize_items(xs), 0nat,
{
    if xs.len() == 0 {
        true
    } else {
        strict_everywhere(xs[0]) && strict_items(xs.drop_first())
    }
}

proof fn lemma_strict_entries_all(p: Seq<(Seq<char>, Json)>)
    ensures
        strict_entries(p) <==> forall|i: int| 0 <= i < p.len() ==> strict_everywhere(#[trigger] p[i].1),
    decreases p.len(),
{
    if p.len() > 0 {
        lemma_strict_entries_all(p.drop_first());
        if forall|i: int| 0 <= i < p.len() ==> strict_everywhere(#[trigger] p[i].1) {
            assert forall|i: int| 0 <= i < p.drop_first().len() implies strict_everywhere(
                #[trigger] p.drop_first()[i].1,
            ) by {
                assert(p.drop_first()[i] == p[i + 1]);
            }
        }
        if strict_entries(p) {
            assert forall|i: int| 0 <= i < p.len() implies strict_everywhere(#[trigger] p[i].1) by {
                if i > 0 {
                    assert(p[i] == p.drop_first()[i - 1]);
                }
            }
        }
    }
}

proof fn lemma_strict_items_all(xs: Seq<Json>)
    ensures
        strict_items(xs) <==> forall|i: int| 0 <= i < xs.len() ==> strict_everywhere(#[trigger] xs[i]),
    decreases xs.len(),
{
    if xs.len() > 0 {
        lemma_strict_items_all(xs.drop_first());
        if forall|i: int| 0 <= i < xs.len() ==> strict_everywhere(#[trigger] xs[i]) {
            assert forall|i: int| 0 <= i < xs.drop_first().len() implies strict_everywhere(
                #[trigger] xs.drop_first()[i],
            ) by {
                assert(xs.drop_first()[i] == xs[i + 1]);
            }
        }
        if strict_items(xs) {
            assert forall|i: int| 0 <= i < xs.len() implies strict_everywhere(#[trigger] xs[i]) by {
                if i > 0 {
                    assert(xs[i] == xs.drop_first()[i - 1]);
                }
            }
        }
    }
}

proof fn lemma_nested_keys_distinct()
    ensures
        "$defs"@ != "definitions"@,
        "$defs"@ != "anyOf"@,
        "$defs"@ != "items"@,
        "definitions"@ != "anyOf"@,
        "definitions"@ != "items"@,
        "anyOf"@ != "items"@,
        !is_nested_key("$ref"@),
        "$ref"@ != "additionalProperties"@,
        "$ref"@ != "required"@,
        "null"@ != "object"@,
{
    reveal_strlit("$defs");
    reveal_strlit("definitions");
    reveal_strlit("anyOf");
    reveal_strlit("items");
    reveal_strlit("$ref");
    reveal_strlit("additionalProperties");
    reveal_strlit("required");
    reveal_strlit("null");
    reveal_strlit("object");
    assert("$defs"@.len() != "definitions"@.len());
    assert("$defs"@[0] != "anyOf"@[0]);
    assert("$defs"@[0] != "items"@[0]);
    assert("definitions"@.len() != "anyOf"@.len());
    assert("definitions"@.len() != "items"@.len());
    assert("anyOf"@[0] != "items"@[0]);
    assert("$ref"@.len() != "$defs"@.len());
    assert("$ref"@.len() != "definitions"@.len());
    assert("$ref"@.len() != "anyOf"@.len());
    assert("$ref"@.len() != "items"@.len());
    assert("$ref"@.len() != "additionalProperties"@.len());
    assert("$ref"@.len() != "required"@.len());
    assert("null"@.len() != "object"@.len());
}

/// A schema with only an `anyOf` member is in strict form when its
/// alternatives are.
proof fn lemma_only_any_of_strict(xs: Seq<Json>)
    requires
        strict_items(xs),
    ensures
        strict_everywhere(Json::Object(seq![("anyOf"@, Json::Array(xs))])),
{
    lemma_keys_distinct();
    lemma_nested_keys_distinct();
    let e = seq![("anyOf"@, Json::Array(xs))];
    assert(e.drop_first().len() == 0);
    assert(obj_get(e, "anyOf"@) == Some(Json::Array(xs)));
    assert(obj_get(e.drop_first(), "properties"@) is None);
    assert(obj_get(e.drop_first(), "type"@) is None);
    assert(obj_get(e.drop_first(), "$defs"@) is None);
    assert(obj_get(e.drop_first(), "definitions"@) is None);
    assert(obj_get(e.drop_first(), "items"@) is None);
}

/// A nullable wrapper is in strict form when the wrapped schema is.
proof fn lemma_nullable_wrap_strict(q: Json)
    requires
        strict_everywhere(q),
    ensures
        strict_everywhere(nullable_wrap(q)),
{
    lemma_keys_distinct();
    lemma_nested_keys_distinct();
    let ne = seq![("type"@, Json::Str("null"@))];
    assert(ne.drop_first().len() == 0);
    assert(obj_get(ne, "type"@) == Some(Json::Str("null"@)));
    assert(obj_get(ne.drop_first(), "properties"@) is None);
    assert(obj_get(ne.drop_first(), "$defs"@) is None);
    assert(obj_get(ne.drop_first(), "definitions"@) is None);
    assert(obj_get(ne.drop_first(), "anyOf"@) is None);
    assert(obj_get(ne.drop_first(), "items"@) is None);
    assert(strict_everywhere(null_schema()));
    let xs = seq![q, null_schema()];
    assert(xs.drop_first() =~= seq![null_schema()]);
    assert(xs.drop_first().drop_first().len() == 0);
    assert(strict_items(xs.drop_first().drop_first()));
    assert(strict_items(xs.drop_first()));
    assert(strict_items(xs));
    lemma_only_any_of_strict(xs);
}

/// Whether the member of `e` under the nested-schema key `k` is in strict
/// form, as far as normalization reaches into it.
spec fn nested_strict_at(e: Seq<(Seq<char>, Json)>, k: Seq<char>) -> bool {
    match obj_get(e, k) {
        Some(Json::Object(d)) => if k == "items"@ {
            strict_everywhere(Json::Object(d))
        } else if k == "anyOf"@ {
            true
        } else {
            strict_entries(d)
        },
        Some(Json::Array(xs)) => k == "anyOf"@ ==> strict_items(xs),
        _ => true,
    }
}

/// The member under `k` is in strict form, or is still the one that the
/// remaining members `rest` will rewrite.
spec fn nested_pending(
    acc: Seq<(Seq<char>, Json)>,
    rest: Seq<(Seq<char>, Json)>,
    k: Seq<char>,
) -> bool {
    nested_strict_at(acc, k) || obj_get(acc, k) == obj_get(rest, k)
}

/// Whether normalization rewrites the member `key: child`.
spec fn rewritten_member(key: Seq<char>, child: Json) -> bool {
    ||| (key == "$defs"@ || key == "definitions"@) && child is Object
    ||| key == "anyOf"@ && child is Array
    ||| key == "items"@ && (child is Object || child is Bool)
}

proof fn lemma_norm_strict(v: Json, path: Seq<char>, base: Json, chain: Seq<Seq<char>>, rem: nat)
    requires
        norm(v, path, base, chain, rem) is Ok,
    ensures
        strict_everywhere(norm(v, path, base, chain, rem)->Ok_0.0),
    decreases rem, msize(v), 1nat,
{
    lemma_keys_distinct();
    lemma_nested_keys_distinct();
    if let Json::Object(e) = v {
        if obj_get(e, "$ref"@) is Some {
            let node = obj_get(e, "$ref"@)->0;
            let r = node->Str_0;
            if e.len() == 1 {
                assert(e.drop_first().len() == 0);
                assert(obj_get(e.drop_first(), "$ref"@) is None);
                assert(e[0].0 == "$ref"@);
                assert(obj_get(e.drop_first(), "properties"@) is None);
                assert(obj_get(e.drop_first(), "type"@) is None);
                assert(obj_get(e.drop_first(), "$defs"@) is None);
                assert(obj_get(e.drop_first(), "definitions"@) is None);
                assert(obj_get(e.drop_first(), "anyOf"@) is None);
                assert(obj_get(e.drop_first(), "items"@) is None);
            } else {
                let target = resolve_ref(base, r)->0->Object_0;
                let merged = overlay(obj_remove(target, "$ref"@), e);
                let n = count_nodes(Json::Object(merged));
                lemma_norm_strict(Json::Object(merged), path, base, chain.push(r), (rem - n) as nat);
            }
        } else {
            let first = if is_object_schema(e) {
                norm_object(e, path, base, chain, rem)
            } else {
                Ok((e, rem))
            };
            let (e1, rem1) = first->Ok_0;
            let m = min_nat(rem1, rem);
            let e2 = norm_members(e, e1, path, base, chain, m)->Ok_0.0;
            lemma_obj_get_smaller(e, "properties"@);
            if is_object_schema(e) {
                let ap = obj_get(e, "additionalProperties"@);
                let ea = if ap is None {
                    obj_insert(e, "additionalProperties"@, Json::Bool(false))
                } else {
                    e
                };
                lemma_obj_get_insert(e, "additionalProperties"@, Json::Bool(false), "$defs"@);
                lemma_obj_get_insert(e, "additionalProperties"@, Json::Bool(false), "definitions"@);
                lemma_obj_get_insert(e, "additionalProperties"@, Json::Bool(false), "anyOf"@);
                lemma_obj_get_insert(e, "additionalProperties"@, Json::Bool(false), "items"@);
                lemma_obj_get_insert(e, "additionalProperties"@, Json::Bool(false), "properties"@);
                match obj_get(e, "properties"@) {
                    Some(Json::Object(props)) => {
                        let done = norm_props(props, e, path, Seq::empty(), base, chain, rem)->Ok_0.0;
                        lemma_props_strict(props, e, path, Seq::empty(), base, chain, rem);
                        lemma_strict_entries_all(done);
                        let ep = obj_insert(ea, "properties"@, Json::Object(done));
                        let names = Json::Array(property_names(props));
                        lemma_obj_get_insert(ea, "properties"@, Json::Object(done), "$defs"@);
                        lemma_obj_get_insert(ea, "properties"@, Json::Object(done), "definitions"@);
                        lemma_obj_get_insert(ea, "properties"@, Json::Object(done), "anyOf"@);
                        lemma_obj_get_insert(ea, "properties"@, Json::Object(done), "items"@);
                        lemma_obj_get_insert(ea, "properties"@, Json::Object(done), "properties"@);
                        lemma_obj_get_insert(ep, "required"@, names, "$defs"@);
                        lemma_obj_get_insert(ep, "required"@, names, "definitions"@);
                        lemma_obj_get_insert(ep, "required"@, names, "anyOf"@);
                        lemma_obj_get_insert(ep, "required"@, names, "items"@);
                        lemma_obj_get_insert(ep, "required"@, names, "properties"@);
                    },
                    _ => {
                        let empty = Json::Array(Seq::empty());
                        lemma_obj_get_insert(ea, "required"@, empty, "$defs"@);
                        lemma_obj_get_insert(ea, "required"@, empty, "definitions"@);
                        lemma_obj_get_insert(ea, "required"@, empty, "anyOf"@);
                        lemma_obj_get_insert(ea, "required"@, empty, "items"@);
                        lemma_obj_get_insert(ea, "required"@, empty, "properties"@);
                    },
                }
            }
            assert(nested_pending(e1, e, "$defs"@));
            assert(nested_pending(e1, e, "definitions"@));
            assert(nested_pending(e1, e, "anyOf"@));
            assert(nested_pending(e1, e, "items"@));
            lemma_members_strict(e, e1, path, base, chain, m);
            lemma_norm_members_keeps(e, e1, path, base, chain, m, "properties"@);
            if is_object_schema(e2) {
                lemma_norm_object_shape(v, path, base, chain, rem);
            }
            assert(nested_strict_at(e2, "$defs"@));
            assert(nested_strict_at(e2, "definitions"@));
            assert(nested_strict_at(e2, "anyOf"@));
            assert(nested_strict_at(e2, "items"@));
            assert(is_object_schema(e2) ==> strict_object_shape(e2));
            assert(match obj_get(e2, "properties"@) {
                Some(Json::Object(p)) => strict_entries(p),
                _ => true,
            });
            if let Some(x) = obj_get(e2, "items"@) {
                assert(strict_everywhere(x));
            }
            assert(strict_everywhere(Json::Object(e2)));
        }
    }
}

proof fn lemma_props_strict(
    rest: Seq<(Seq<char>, Json)>,
    e: Seq<(Seq<char>, Json)>,
    path: Seq<char>,
    done: Seq<(Seq<char>, Json)>,
    base: Json,
    chain: Seq<Seq<char>>,
    rem: nat,
)
    requires
        norm_props(rest, e, path, done, base, chain, rem) is Ok,
        forall|i: int| 0 <= i < done.len() ==> strict_everywhere(#[trigger] done[i].1),
    ensures
        forall|i: int|
            0 <= i < norm_props(rest, e, path, done, base, chain, rem)->Ok_0.0.len()
                ==> strict_everywhere(
                #[trigger] norm_props(rest, e, path, done, base, chain, rem)->Ok_0.0[i].1,
            ),
    decreases rem, msize_entries(rest), 0nat,
{
    if rest.len() > 0 {
        let name = rest[0].0;
        let p = rest[0].1;
        let at = path + "/properties/"@ + escape_pointer(name);
        let q;
        let r;
        if listed_required(e, name) || allows_null(p) {
            lemma_norm_strict(p, at, base, chain, rem);
            q = norm(p, at, base, chain, rem)->Ok_0.0;
            r = norm(p, at, base, chain, rem)->Ok_0.1;
        } else {
            lemma_norm_strict(p, at + "/anyOf/0"@, base, chain, rem);
            let q0 = norm(p, at + "/anyOf/0"@, base, chain, rem)->Ok_0.0;
            lemma_nullable_wrap_strict(q0);
            q = nullable_wrap(q0);
            r = norm(p, at + "/anyOf/0"@, base, chain, rem)->Ok_0.1;
        }
        let done2 = done.push((name, q));
        assert forall|i: int| 0 <= i < done2.len() implies strict_everywhere(#[trigger] done2[i].1) by {
            if i < done.len() {
                assert(done2[i] == done[i]);
            }
        }
        lemma_props_strict(rest.drop_first(), e, path, done2, base, chain, min_nat(r, rem));
    }
}

proof fn lemma_defs_strict(
    rest: Seq<(Seq<char>, Json)>,
    prefix: Seq<char>,
    done: Seq<(Seq<char>, Json)>,
    base: Json,
    chain: Seq<Seq<char>>,
    rem: nat,
)
    requires
        norm_defs(rest, prefix, done, base, chain, rem) is Ok,
        forall|i: int| 0 <= i < done.len() ==> strict_everywhere(#[trigger] done[i].1),
    ensures
        forall|i: int|
            0 <= i < norm_defs(rest, prefix, done, base, chain, rem)->Ok_0.0.len()
                ==> strict_everywhere(#[trigger] norm_defs(rest, prefix, done, base, chain, rem)->Ok_0.0[i].1),
    decreases rem, msize_entries(rest), 0nat,
{
    if rest.len() > 0 {
        let at = prefix + seq!['/'] + escape_pointer(rest[0].0);
        lemma_norm_strict(rest[0].1, at, base, chain, rem);
        let (q, r) = norm(rest[0].1, at, base, chain, rem)->Ok_0;
        let done2 = done.push((rest[0].0, q));
        assert forall|i: int| 0 <= i < done2.len() implies strict_everywhere(#[trigger] done2[i].1) by {
            if i < done.len() {
                assert(done2[i] == done[i]);
            }
        }
        lemma_defs_strict(rest.drop_first(), prefix, done2, base, chain, min_nat(r, rem));
    }
}

proof fn lemma_items_strict(
    rest: Seq<Json>,
    prefix: Seq<char>,
    index: nat,
    done: Seq<Json>,
    base: Json,
    chain: Seq<Seq<char>>,
    rem: nat,
)
    requires
        norm_items(rest, prefix, index, done, base, chain, rem) is Ok,
        forall|i: int| 0 <= i < done.len() ==> strict_everywhere(#[trigger] done[i]),
    ensures
        forall|i: int|
            0 <= i < norm_items(rest, prefix, index, done, base, chain, rem)->Ok_0.0.len()
                ==> strict_everywhere(#[trigger] norm_items(rest, prefix, index, done, base, chain, rem)->Ok_0.0[i]),
    decreases rem, msize_items(rest), 0nat,
{
    if rest.len() > 0 {
        let at = prefix + seq!['/'] + nat_text(index);
        lemma_norm_strict(rest[0], at, base, chain, rem);
        let (q, r) = norm(rest[0], at, base, chain, rem)->Ok_0;
        let done2 = done.push(q);
        assert forall|i: int| 0 <= i < done2.len() implies strict_everywhere(#[trigger] done2[i]) by {
            if i < done.len() {
                assert(done2[i] == done[i]);
            }
        }
        lemma_items_strict(rest.drop_first(), prefix, index + 1, done2, base, chain, min_nat(r, rem));
    }
}

proof fn lemma_member_step_strict(
    key: Seq<char>,
    child: Json,
    acc: Seq<(Seq<char>, Json)>,
    path: Seq<char>,
    base: Json,
    chain: Seq<Seq<char>>,
    rem: nat,
    k: Seq<char>,
)
    requires
        member_step(key, child, acc, path, base, chain, rem) is Ok,
    ensures
        ({
            let acc2 = member_step(key, child, acc, path, base, chain, rem)->Ok_0.0;
            &&& k != key ==> obj_get(acc2, k) == obj_get(acc, k)
            &&& !rewritten_member(key, child) ==> acc2 == acc
            &&& rewritten_member(key, child) && k == key ==> nested_strict_at(acc2, key)
        }),
    decreases rem, msize(child), 2nat,
{
    lemma_nested_keys_distinct();
    if key == "$defs"@ || key == "definitions"@ {
        if let Json::Object(defs) = child {
            let prefix = path + seq!['/'] + escape_pointer(key);
            lemma_defs_strict(defs, prefix, Seq::empty(), base, chain, rem);
            let d = norm_defs(defs, prefix, Seq::empty(), base, chain, rem)->Ok_0.0;
            lemma_strict_entries_all(d);
            lemma_obj_get_insert(acc, key, Json::Object(d), k);
        }
    } else if key == "anyOf"@ {
        if let Json::Array(items) = child {
            assert(msize(child) == 1 + msize_items(items));
            lemma_items_strict(items, path + "/anyOf"@, 0, Seq::empty(), base, chain, rem);
            let d = norm_items(items, path + "/anyOf"@, 0, Seq::empty(), base, chain, rem)->Ok_0.0;
            lemma_strict_items_all(d);
            lemma_obj_get_insert(acc, key, Json::Array(d), k);
        }
    } else if key == "items"@ && (child is Object || child is Bool) {
        lemma_norm_strict(child, path + "/items"@, base, chain, rem);
        let c = norm(child, path + "/items"@, base, chain, rem)->Ok_0.0;
        lemma_obj_get_insert(acc, key, c, k);
    }
}

proof fn lemma_members_strict(
    rest: Seq<(Seq<char>, Json)>,
    acc: Seq<(Seq<char>, Json)>,
    path: Seq<char>,
    base: Json,
    chain: Seq<Seq<char>>,
    rem: nat,
)
    requires
        norm_members(rest, acc, path, base, chain, rem) is Ok,
        nested_pending(acc, rest, "$defs"@),
        nested_pending(acc, rest, "definitions"@),
        nested_pending(acc, rest, "anyOf"@),
        nested_pending(acc, rest, "items"@),
    ensures
        ({
            let res = norm_members(rest, acc, path, base, chain, rem)->Ok_0.0;
            &&& nested_strict_at(res, "$defs"@)
            &&& nested_strict_at(res, "definitions"@)
            &&& nested_strict_at(res, "anyOf"@)
            &&& nested_strict_at(res, "items"@)
        }),
    decreases rem, msize_entries(rest), 0nat,
{
    lemma_nested_keys_distinct();
    if rest.len() == 0 {
    } else {
        let key = rest[0].0;
        let child = rest[0].1;
        let (acc2, r) = member_step(key, child, acc, path, base, chain, rem)->Ok_0;
        lemma_member_step_strict(key, child, acc, path, base, chain, rem, "$defs"@);
        lemma_member_step_strict(key, child, acc, path, base, chain, rem, "definitions"@);
        lemma_member_step_strict(key, child, acc, path, base, chain, rem, "anyOf"@);
        lemma_member_step_strict(key, child, acc, path, base, chain, rem, "items"@);
        assert(nested_pending(acc2, rest.drop_first(), "$defs"@));
        assert(nested_pending(acc2, rest.drop_first(), "definitions"@));
        assert(nested_pending(acc2, rest.drop_first(), "anyOf"@));
        assert(nested_pending(acc2, rest.drop_first(), "items"@));
        lemma_members_strict(rest.drop_first(), acc2, path, base, chain, min_nat(r, rem));
    }
}

/// Every schema that normalization reaches comes out in strict form: the
/// document, and at any depth each object schema under `properties`,
/// `$defs`, `definitions`, `anyOf` and `items`, forbids properties other
/// than its own and lists every one of them as required.
pub proof fn law_strict_schema_nested(v: Json)
    requires
        strict_schema(v) is Ok,
    ensures
        strict_everywhere(strict_schema(v)->Ok_0),
{
    lemma_norm_strict(v, "#"@, v, Seq::empty(), MAX_REF_INLINE_NODES as nat);
}

/// Normalizing a schema object without `$ref` keeps its `type`.
proof fn lemma_norm_keeps_type(e: Seq<(Seq<char>, Json)>, path: Seq<char>, base: Json, chain: Seq<Seq<char>>, rem: nat)
    requires
        norm(Json::Object(e), path, base, chain, rem) is Ok,
        obj_get(e, "$ref"@) is None,
    ensures
        norm(Json::Object(e), path, base, chain, rem)->Ok_0.0 matches Json::Object(e2) && obj_get(e2, "type"@)
            == obj_get(e, "type"@),
{
    lemma_keys_distinct();
    let first = if is_object_schema(e) {
        norm_object(e, path, base, chain, rem)
    } else {
        Ok((e, rem))
    };
    let (e1, rem1) = first->Ok_0;
    lemma_norm_members_keeps(e, e1, path, base, chain, min_nat(rem1, rem), "type"@);
    if is_object_schema(e) {
        let ap = obj_get(e, "additionalProperties"@);
        let ea = if ap is None {
            obj_insert(e, "additionalProperties"@, Json::Bool(false))
        } else {
            e
        };
        lemma_obj_get_insert(e, "additionalProperties"@, Json::Bool(false), "type"@);
        match obj_get(e, "properties"@) {
            Some(Json::Object(props)) => {
                let done = norm_props(props, e, path, Seq::empty(), base, chain, rem)->Ok_0.0;
                let ep = obj_insert(ea, "properties"@, Json::Object(done));
                lemma_obj_get_insert(ea, "properties"@, Json::Object(done), "type"@);
                lemma_obj_get_insert(ep, "required"@, Json::Array(property_names(props)), "type"@);
            },
            _ => {
                lemma_obj_get_insert(ea, "required"@, Json::Array(Seq::empty()), "type"@);
            },
        }
    }
}

proof fn lemma_props_nullable(
    rest: Seq<(Seq<char>, Json)>,
    e: Seq<(Seq<char>, Json)>,
    path: Seq<char>,
    done: Seq<(Seq<char>, Json)>,
    base: Json,
    chain: Seq<Seq<char>>,
    rem: nat,
)
    requires
        norm_props(rest, e, path, done, base, chain, rem) is Ok,
    ensures
        ({
            let out = norm_props(rest, e, path, done, base, chain, rem)->Ok_0.0;
            &&& out.len() == done.len() + rest.len()
            &&& forall|i: int| 0 <= i < done.len() ==> #[trigger] out[i] == done[i]
            &&& forall|j: int|
                0 <= j < rest.len() ==> {
                    let name = rest[j].0;
                    let p = rest[j].1;
                    let q = #[trigger] out[done.len() + j];
                    &&& q.0 == name
                    &&& !listed_required(e, name) && !allows_null(p) ==> allows_null(q.1) && exists|w: Json|
                        q.1 == nullable_wrap(w)
                    &&& !listed_required(e, name) && keeps_null(p) ==> allows_null(q.1)
                }
        }),
    decreases rest.len(),
{
    if rest.len() > 0 {
        let name = rest[0].0;
        let p = rest[0].1;
        let at = path + "/properties/"@ + escape_pointer(name);
        let q;
        let r;
        if listed_required(e, name) || allows_null(p) {
            q = norm(p, at, base, chain, rem)->Ok_0.0;
            r = norm(p, at, base, chain, rem)->Ok_0.1;
            if !listed_required(e, name) && keeps_null(p) {
                lemma_norm_keeps_null(p, at, base, chain, rem);
            }
        } else {
            let q0 = norm(p, at + "/anyOf/0"@, base, chain, rem)->Ok_0.0;
            law_made_nullable(q0);
            q = nullable_wrap(q0);
            r = norm(p, at + "/anyOf/0"@, base, chain, rem)->Ok_0.1;
            assert(allows_null(q));
        }
        let done2 = done.push((name, q));
        lemma_props_nullable(rest.drop_first(), e, path, done2, base, chain, min_nat(r, rem));
        let out = norm_props(rest, e, path, done, base, chain, rem)->Ok_0.0;
        assert(out == norm_props(rest.drop_first(), e, path, done2, base, chain, min_nat(r, rem))->Ok_0.0);
        assert(out[done.len() as int] == done2[done.len() as int]);
        assert forall|i: int| 0 <= i < done.len() implies #[trigger] out[i] == done[i] by {
            assert(out[i] == done2[i]);
        }
        assert forall|j: int| 1 <= j < rest.len() implies #[trigger] out[done.len() + j] == out[
            done2.len() + (j - 1)] && rest[j] == rest.drop_first()[j - 1] by {}
    }
}

/// Every property of an object schema keeps its name and place.  A property
/// that `required` does not list and that does not admit `null` comes out
/// wrapped as `{"anyOf": [schema, {"type": "null"}]}`, so that it admits
/// `null`; one that admits `null` in a way normalization keeps (see
/// [`keeps_null`]) still admits it after normalization.
pub proof fn law_optional_properties_nullable(
    props: Seq<(Seq<char>, Json)>,
    e: Seq<(Seq<char>, Json)>,
    path: Seq<char>,
    base: Json,
    chain: Seq<Seq<char>>,
    rem: nat,
)
    requires
        norm_props(props, e, path, Seq::empty(), base, chain, rem) is Ok,
    ensures
        ({
            let out = norm_props(props, e, path, Seq::empty(), base, chain, rem)->Ok_0.0;
            &&& out.len() == props.len()
            &&& forall|i: int|
                0 <= i < props.len() ==> {
                    let name = props[i].0;
                    let p = props[i].1;
                    &&& (#[trigger] out[i]).0 == name
                    &&& !listed_required(e, name) && !allows_null(p) ==> allows_null(out[i].1) && exists|w: Json|
                        out[i].1 == nullable_wrap(w)
                    &&& !listed_required(e, name) && keeps_null(p) ==> allows_null(out[i].1)
                }
        }),
{
    lemma_props_nullable(props, e, path, Seq::empty(), base, chain, rem);
    let out = norm_props(props, e, path, Seq::empty(), base, chain, rem)->Ok_0.0;
    assert forall|i: int| 0 <= i < props.len() implies #[trigger] out[i] == out[Seq::<(Seq<char>, Json)>::empty().len() + i] by {}
}

/// Whether no two members of `e` share a key.
pub open spec fn keys_unique(e: Seq<(Seq<char>, Json)>) -> bool {
    forall|i: int, j: int| 0 <= i < j < e.len() ==> e[i].0 != e[j].0
}

/// Whether a schema admits `null` in a way that normalization keeps: it is
/// `true`; or it is a schema object without `$ref` whose `type` admits
/// `null`; or one without `$ref`, with distinct keys, whose `anyOf` holds
/// such a schema, or which has no `anyOf` and whose `oneOf` holds a schema
/// that admits `null`.
pub open spec fn keeps_null(v: Json) -> bool
    decreases msize(v), 1nat,
{
    match v {
        Json::Bool(b) => b,
        Json::Object(e) => {
            proof {
                lemma_obj_get_smaller(e, "anyOf"@);
            }
            &&& obj_get(e, "$ref"@) is None
            &&& type_allows_null(e) || keys_unique(e) && match obj_get(e, "anyOf"@) {
                Some(Json::Array(xs)) => some_keeps_null(xs),
                Some(_) => false,
                None => match obj_get(e, "oneOf"@) {
                    Some(Json::Array(xs)) => any_allows_null(xs),
                    _ => false,
                },
            }
        },
        _ => false,
    }
}

/// Whether some item of `xs` is [`keeps_null`].
pub open spec fn some_keeps_null(xs: Seq<Json>) -> bool
    decreases msize_items(xs), 0nat,
{
    if xs.len() == 0 {
        false
    } else {
        keeps_null(xs[0]) || some_keeps_null(xs.drop_first())
    }
}

/// The first pass of normalization over a schema object without `$ref`.
spec fn first_pass(
    e: Seq<(Seq<char>, Json)>,
    path: Seq<char>,
    base: Json,
    chain: Seq<Seq<char>>,
    rem: nat,
) -> Result<(Seq<(Seq<char>, Json)>, nat), SchemaError> {
    if is_object_schema(e) {
        norm_object(e, path, base, chain, rem)
    } else {
        Ok((e, rem))
    }
}

proof fn lemma_one_of_distinct()
    ensures
        !is_nested_key("oneOf"@),
        "oneOf"@ != "additionalProperties"@,
        "oneOf"@ != "properties"@,
        "oneOf"@ != "required"@,
        "anyOf"@ != "additionalProperties"@,
        "anyOf"@ != "properties"@,
        "anyOf"@ != "required"@,
{
    lemma_keys_distinct();
    reveal_strlit("oneOf");
    reveal_strlit("$defs");
    reveal_strlit("definitions");
    reveal_strlit("anyOf");
    reveal_strlit("items");
    reveal_strlit("additionalProperties");
    reveal_strlit("properties");
    reveal_strlit("required");
    assert("oneOf"@[0] != "$defs"@[0]);
    assert("oneOf"@.len() != "definitions"@.len());
    assert("oneOf"@[0] != "anyOf"@[0]);
    assert("oneOf"@[0] != "items"@[0]);
    assert("oneOf"@.len() != "additionalProperties"@.len());
    assert("oneOf"@.len() != "properties"@.len());
    assert("oneOf"@.len() != "required"@.len());
}

/// The first pass only stores `additionalProperties`, `properties` and
/// `required`.
proof fn lemma_first_pass_keeps(
    e: Seq<(Seq<char>, Json)>,
    path: Seq<char>,
    base: Json,
    chain: Seq<Seq<char>>,
    rem: nat,
    k: Seq<char>,
)
    requires
        first_pass(e, path, base, chain, rem) is Ok,
        k != "additionalProperties"@,
        k != "properties"@,
        k != "required"@,
    ensures
        obj_get(first_pass(e, path, base, chain, rem)->Ok_0.0, k) == obj_get(e, k),
{
    if is_object_schema(e) {
        let ap = obj_get(e, "additionalProperties"@);
        let ea = if ap is None {
            obj_insert(e, "additionalProperties"@, Json::Bool(false))
        } else {
            e
        };
        lemma_obj_get_insert(e, "additionalProperties"@, Json::Bool(false), k);
        match obj_get(e, "properties"@) {
            Some(Json::Object(props)) => {
                let done = norm_props(props, e, path, Seq::empty(), base, chain, rem)->Ok_0.0;
                let ep = obj_insert(ea, "properties"@, Json::Object(done));
                lemma_obj_get_insert(ea, "properties"@, Json::Object(done), k);
                lemma_obj_get_insert(ep, "required"@, Json::Array(property_names(props)), k);
            },
            _ => {
                lemma_obj_get_insert(ea, "required"@, Json::Array(Seq::empty()), k);
            },
        }
    }
}

proof fn lemma_obj_get_none(e: Seq<(Seq<char>, Json)>, k: Seq<char>)
    ensures
        obj_get(e, k) is None <==> forall|i: int| 0 <= i < e.len() ==> #[trigger] e[i].0 != k,
    decreases e.len(),
{
    if e.len() > 0 {
        lemma_obj_get_none(e.drop_first(), k);
        if obj_get(e, k) is None {
            assert forall|i: int| 0 <= i < e.len() implies #[trigger] e[i].0 != k by {
                if i > 0 {
                    assert(e[i] == e.drop_first()[i - 1]);
                }
            }
        }
        if forall|i: int| 0 <= i < e.len() ==> #[trigger] e[i].0 != k {
            assert(e[0].0 != k);
            assert forall|i: int| 0 <= i < e.drop_first().len() implies #[trigger] e.drop_first()[i].0 != k by {
                assert(e.drop_first()[i] == e[i + 1]);
            }
        }
    }
}

/// Normalizing the nested schemas of an object leaves a key that no
/// remaining member has as it was.
proof fn lemma_members_untouched(
    rest: Seq<(Seq<char>, Json)>,
    acc: Seq<(Seq<char>, Json)>,
    path: Seq<char>,
    base: Json,
    chain: Seq<Seq<char>>,
    rem: nat,
    k: Seq<char>,
)
    requires
        norm_members(rest, acc, path, base, chain, rem) is Ok,
        forall|i: int| 0 <= i < rest.len() ==> #[trigger] rest[i].0 != k,
    ensures
        obj_get(norm_members(rest, acc, path, base, chain, rem)->Ok_0.0, k) == obj_get(acc, k),
    decreases rest.len(),
{
    if rest.len() > 0 {
        let (acc2, r) = member_step(rest[0].0, rest[0].1, acc, path, base, chain, rem)->Ok_0;
        lemma_member_step_strict(rest[0].0, rest[0].1, acc, path, base, chain, rem, k);
        assert(rest[0].0 != k);
        assert forall|i: int| 0 <= i < rest.drop_first().len() implies #[trigger] rest.drop_first()[i].0 != k by {
            assert(rest.drop_first()[i] == rest[i + 1]);
        }
        lemma_members_untouched(rest.drop_first(), acc2, path, base, chain, min_nat(r, rem), k);
    }
}

/// With distinct keys, the `anyOf` of a normalized object is its normalized
/// `anyOf` alternatives.
proof fn lemma_members_any_of(
    rest: Seq<(Seq<char>, Json)>,
    acc: Seq<(Seq<char>, Json)>,
    path: Seq<char>,
    base: Json,
    chain: Seq<Seq<char>>,
    rem: nat,
    xs: Seq<Json>,
)
    requires
        norm_members(rest, acc, path, base, chain, rem) is Ok,
        keys_unique(rest),
        obj_get(rest, "anyOf"@) == Some(Json::Array(xs)),
    ensures
        exists|r: nat|
            norm_items(xs, path + "/anyOf"@, 0, Seq::empty(), base, chain, r) is Ok && obj_get(
                norm_members(rest, acc, path, base, chain, rem)->Ok_0.0,
                "anyOf"@,
            ) == Some(Json::Array(#[trigger] norm_items(xs, path + "/anyOf"@, 0, Seq::empty(), base, chain, r)->Ok_0.0)),
    decreases rest.len(),
{
    lemma_nested_keys_distinct();
    let (acc2, r) = member_step(rest[0].0, rest[0].1, acc, path, base, chain, rem)->Ok_0;
    if rest[0].0 == "anyOf"@ {
        assert(rest[0].1 == Json::Array(xs));
        let d = norm_items(xs, path + "/anyOf"@, 0, Seq::empty(), base, chain, rem)->Ok_0.0;
        lemma_obj_get_insert(acc, "anyOf"@, Json::Array(d), "anyOf"@);
        assert forall|i: int| 0 <= i < rest.drop_first().len() implies #[trigger] rest.drop_first()[i].0
            != "anyOf"@ by {
            assert(rest.drop_first()[i] == rest[i + 1]);
        }
        lemma_members_untouched(rest.drop_first(), acc2, path, base, chain, min_nat(r, rem), "anyOf"@);
        assert(norm_items(xs, path + "/anyOf"@, 0, Seq::empty(), base, chain, rem) is Ok);
    } else {
        assert forall|i: int, j: int| 0 <= i < j < rest.drop_first().len() implies rest.drop_first()[i].0
            != rest.drop_first()[j].0 by {
            assert(rest.drop_first()[i] == rest[i + 1]);
            assert(rest.drop_first()[j] == rest[j + 1]);
        }
        lemma_members_any_of(rest.drop_first(), acc2, path, base, chain, min_nat(r, rem), xs);
    }
}

proof fn lemma_any_allows_null_witness(vs: Seq<Json>, i: int)
    requires
        0 <= i < vs.len(),
        allows_null(vs[i]),
    ensures
        any_allows_null(vs),
    decreases vs.len(),
{
    if i > 0 {
        assert(vs.drop_first()[i - 1] == vs[i]);
        lemma_any_allows_null_witness(vs.drop_first(), i - 1);
    }
}

proof fn lemma_norm_keeps_null(v: Json, path: Seq<char>, base: Json, chain: Seq<Seq<char>>, rem: nat)
    requires
        norm(v, path, base, chain, rem) is Ok,
        keeps_null(v),
    ensures
        allows_null(norm(v, path, base, chain, rem)->Ok_0.0),
    decreases msize(v), 1nat,
{
    lemma_keys_distinct();
    lemma_one_of_distinct();
    if let Json::Object(e) = v {
        if type_allows_null(e) {
            lemma_norm_keeps_type(e, path, base, chain, rem);
        } else {
            let (e1, rem1) = first_pass(e, path, base, chain, rem)->Ok_0;
            let m = min_nat(rem1, rem);
            let e2 = norm_members(e, e1, path, base, chain, m)->Ok_0.0;
            assert(norm(v, path, base, chain, rem)->Ok_0.0 == Json::Object(e2));
            lemma_obj_get_smaller(e, "anyOf"@);
            match obj_get(e, "anyOf"@) {
                Some(Json::Array(xs)) => {
                    lemma_members_any_of(e, e1, path, base, chain, m, xs);
                    let r = choose|r: nat|
                        norm_items(xs, path + "/anyOf"@, 0, Seq::empty(), base, chain, r) is Ok && obj_get(e2, "anyOf"@)
                            == Some(Json::Array(#[trigger] norm_items(xs, path + "/anyOf"@, 0, Seq::empty(), base, chain, r)->Ok_0.0));
                    let ys = norm_items(xs, path + "/anyOf"@, 0, Seq::empty(), base, chain, r)->Ok_0.0;
                    assert(msize(Json::Array(xs)) == 1 + msize_items(xs));
                    lemma_items_keep_null(xs, path + "/anyOf"@, 0, Seq::empty(), base, chain, r);
                    let i = choose|i: int| 0 <= i < ys.len() && allows_null(#[trigger] ys[i]);
                    lemma_any_allows_null_witness(ys, i);
                },
                _ => {
                    lemma_obj_get_none(e, "anyOf"@);
                    lemma_first_pass_keeps(e, path, base, chain, rem, "anyOf"@);
                    lemma_first_pass_keeps(e, path, base, chain, rem, "oneOf"@);
                    lemma_members_untouched(e, e1, path, base, chain, m, "anyOf"@);
                    lemma_norm_members_keeps(e, e1, path, base, chain, m, "oneOf"@);
                },
            }
        }
    }
}

proof fn lemma_items_keep_null(
    rest: Seq<Json>,
    prefix: Seq<char>,
    index: nat,
    done: Seq<Json>,
    base: Json,
    chain: Seq<Seq<char>>,
    rem: nat,
)
    requires
        norm_items(rest, prefix, index, done, base, chain, rem) is Ok,
    ensures
        ({
            let out = norm_items(rest, prefix, index, done, base, chain, rem)->Ok_0.0;
            &&& out.len() >= done.len()
            &&& forall|i: int| 0 <= i < done.len() ==> #[trigger] out[i] == done[i]
            &&& some_keeps_null(rest) ==> exists|i: int| 0 <= i < out.len() && allows_null(#[trigger] out[i])
        }),
    decreases msize_items(rest), 0nat,
{
    if rest.len() > 0 {
        let at = prefix + seq!['/'] + nat_text(index);
        let (q, r) = norm(rest[0], at, base, chain, rem)->Ok_0;
        let done2 = done.push(q);
        lemma_items_keep_null(rest.drop_first(), prefix, index + 1, done2, base, chain, min_nat(r, rem));
        let out = norm_items(rest, prefix, index, done, base, chain, rem)->Ok_0.0;
        assert forall|i: int| 0 <= i < done.len() implies #[trigger] out[i] == done[i] by {
            assert(out[i] == done2[i]);
        }
        if keeps_null(rest[0]) {
            lemma_norm_keeps_null(rest[0], at, base, chain, rem);
            assert(out[done.len() as int] == done2[done.len() as int]);
            assert(allows_null(out[done.len() as int]));
        }
    }
}

/// A schema object that already holds an `additionalProperties` other than
/// `false` is reported at that key instead of being overwritten.
pub proof fn law_additional_properties_reported(
    e: Seq<(Seq<char>, Json)>,
    path: Seq<char>,
    base: Json,
    chain: Seq<Seq<char>>,
    rem: nat,
)
    requires
        first_unsupported(e, 0) is None,
        obj_get(e, "$ref"@) is None,
        is_object_schema(e),
        obj_get(e, "additionalProperties"@) matches Some(x) && x != Json::Bool(false),
    ensures
        norm(Json::Object(e), path, base, chain, rem) == Err::<(Json, nat), SchemaError>(
            SchemaError::UnsupportedKeyword {
                path: path + "/additionalProperties"@,
                keyword: "additionalProperties"@,
            },
        ),
{
}

/// A reference to the document root, `$ref: "#"`, always recurses.
pub proof fn law_root_reference_recursive(
    e: Seq<(Seq<char>, Json)>,
    path: Seq<char>,
    base: Json,
    chain: Seq<Seq<char>>,
    rem: nat,
)
    requires
        first_unsupported(e, 0) is None,
        obj_get(e, "$ref"@) == Some(Json::Str("#"@)),
    ensures
        norm(Json::Object(e), path, base, chain, rem) == Err::<(Json, nat), SchemaError>(
            SchemaError::RecursiveReference { path: path + "/$ref"@, reference: "#"@ },
        ),
{
}

/// A `$ref` that is not a string is never passed through: it is reported
/// with its JSON text.
pub proof fn law_non_string_reference_rejected(
    e: Seq<(Seq<char>, Json)>,
    path: Seq<char>,
    base: Json,
    chain: Seq<Seq<char>>,
    rem: nat,
)
    requires
        first_unsupported(e, 0) is None,
        obj_get(e, "$ref"@) matches Some(node) && !(node is Str),
    ensures
        norm(Json::Object(e), path, base, chain, rem) == Err::<(Json, nat), SchemaError>(
            SchemaError::UnresolvableRef {
                path: path + "/$ref"@,
                reference: json_text(obj_get(e, "$ref"@)->0),
            },
        ),
{
}

/// A reference that does not start with `#/` (and is not `#`) leaves the
/// document and is reported.
pub proof fn law_external_reference_rejected(
    e: Seq<(Seq<char>, Json)>,
    path: Seq<char>,
    base: Json,
    chain: Seq<Seq<char>>,
    rem: nat,
    r: Seq<char>,
)
    requires
        first_unsupported(e, 0) is None,
        obj_get(e, "$ref"@) == Some(Json::Str(r)),
        r != "#"@,
        !has_prefix(r, "#/"@),
    ensures
        norm(Json::Object(e), path, base, chain, rem) == Err::<(Json, nat), SchemaError>(
            SchemaError::ExternalReference { path: path + "/$ref"@, reference: r },
        ),
{
}

/// The characters a response-format or tool name may use.
pub open spec fn is_name_char(c: char) -> bool {
    let v = c as u32;
    (0x61 <= v <= 0x7a) || (0x41 <= v <= 0x5a) || (0x30 <= v <= 0x39) || c == '_' || c == '-'
}

/// A valid response-format or tool name: 1 to 64 characters, each an ASCII
/// letter, digit, `_` or `-`.
pub open spec fn valid_name(s: Seq<char>) -> bool {
    0 < s.len() <= 64 && forall|i: int| 0 <= i < s.len() ==> is_name_char(#[trigger] s[i])
}

/// A name is accepted exactly when it has 1 to 64 characters and each of
/// them is an ASCII letter of either case, an ASCII digit, `_` or `-`.
pub proof fn law_valid_name_characters(s: Seq<char>)
    ensures
        valid_name(s) <==> (1 <= s.len() <= 64 && forall|i: int|
            0 <= i < s.len() ==> {
                let c = (#[trigger] s[i]) as u32;
                ||| 'a' as u32 <= c <= 'z' as u32
                ||| 'A' as u32 <= c <= 'Z' as u32
                ||| '0' as u32 <= c <= '9' as u32
                ||| s[i] == '_'
                ||| s[i] == '-'
            }),
{
    assert('a' as u32 == 0x61 && 'z' as u32 == 0x7a && 'A' as u32 == 0x41 && 'Z' as u32 == 0x5a);
    assert('0' as u32 == 0x30 && '9' as u32 == 0x39);
    assert forall|c: char| #[trigger] is_name_char(c) <==> {
        let v = c as u32;
        ||| 'a' as u32 <= v <= 'z' as u32
        ||| 'A' as u32 <= v <= 'Z' as u32
        ||| '0' as u32 <= v <= '9' as u32
        ||| c == '_'
        ||| c == '-'
    } by {
    }
}

/// Checks a response-format or tool name.
pub fn validate_name(name: &str) -> (r: Result<(), StructuredError>)
    ensures
        r is Ok <==> valid_name(name@),
        r matches Err(err) ==> err@ == SchemaError::InvalidName(name@),
{
    let n = name.unicode_len();
    if n == 0 || n > 64 {
        return Err(StructuredError::InvalidName(name.to_owned()));
    }
    let mut i: usize = 0;
    while i < n
        invariant
            n == name@.len(),
            i <= n,
            forall|j: int| 0 <= j < i ==> is_name_char(#[trigger] name@[j]),
        decreases n - i,
    {
        let c = name.get_char(i);
        let v = c as u32;
        let ok = (0x61 <= v && v <= 0x7a) || (0x41 <= v && v <= 0x5a) || (0x30 <= v && v <= 0x39)
            || c == '_' || c == '-';
        if !ok {
            return Err(StructuredError::InvalidName(name.to_owned()));
        }
        i = i + 1;
    }
    Ok(())
}

/// Context passed to a typed tool handler.
#[derive(Clone, Debug)]
pub struct ToolContext {
    pub call_id: String,
}

impl ToolContext {
    /// Creates a tool invocation context with an opaque call id.
    pub fn new(call_id: &str) -> (r: Self)
        ensures
            r.call_id@ == call_id@,
    {
        ToolContext { call_id: call_id.to_owned() }
    }

    /// Returns the call id of the tool invocation.
    pub fn call_id(&self) -> (r: &str)
        ensures
            r@ == self.call_id@,
    {
        self.call_id.as_str()
    }
}

/// Errors produced during tool handler execution.
#[derive(Clone, Debug)]
pub enum ToolExecutionError {
    /// Handler-level domain or business failure.
    Custom(String),
    /// Invalid arguments provided to the tool.
    InvalidArguments(String),
}

impl ToolExecutionError {
    /// Constructs a custom domain error.
    pub fn custom(message: &str) -> (r: Self)
        ensures
            r matches ToolExecutionError::Custom(m) && m@ == message@,
    {
        ToolExecutionError::Custom(message.to_owned())
    }

    /// The error message: `tool execution failed: ` or `invalid tool
    /// arguments: ` followed by the detail.
    pub open spec fn spec_message(&self) -> Seq<char> {
        match self {
            ToolExecutionError::Custom(m) => "tool execution failed: "@ + m@,
            ToolExecutionError::InvalidArguments(m) => "invalid tool arguments: "@ + m@,
        }
    }

    /// The error message: `tool execution failed: ` or `invalid tool
    /// arguments: ` followed by the detail.
    pub fn message(&self) -> (r: String)
        ensures
            r@ == self.spec_message(),
    {
        match self {
            ToolExecutionError::Custom(m) => concat_str("tool execution failed: ", m.as_str()),
            ToolExecutionError::InvalidArguments(m) => concat_str(
                "invalid tool arguments: ",
                m.as_str(),
            ),
        }
    }
}


/// The documented limits of strict schema normalization.
pub proof fn law_structured_limits()
    ensures
        MAX_REF_INLINE_NODES == 100000,
{
}

} // verus!
