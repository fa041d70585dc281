//! Events as nested documents: reading and writing a field by its dotted path, the text of a
//! value, and simple expressions over fields.
use vstd::prelude::*;
use vstd::string::*;
use crate::decimal;
use crate::json;
use crate::json::{Doc, Json};
use crate::order;
use crate::product;
use crate::product::{Figure, FigureView};
use crate::text;

verus! {

// ---------------------------------------------------------------------------
// Fields
// ---------------------------------------------------------------------------

/// The parts of a dotted path.
pub open spec fn parts(path: Seq<char>) -> Seq<Seq<char>> {
    text::pieces(path, "."@)
}

/// The value that the path leads to from its `i`-th part on.
pub open spec fn at_path(d: Doc, path: Seq<Seq<char>>, i: int) -> Option<Doc>
    decreases path.len() - i,
{
    if i >= path.len() {
        Some(d)
    } else {
        match d.get(path[i]) {
            Some(inner) => at_path(inner, path, i + 1),
            None => None,
        }
    }
}

/// The value of a field.
pub open spec fn field(event: Doc, name: Seq<char>) -> Option<Doc> {
    at_path(event, parts(name), 0)
}

/// The text of a field, where it is one.
pub open spec fn field_text(event: Doc, name: Seq<char>) -> Option<Seq<char>> {
    match field(event, name) {
        Some(d) => d.as_text(),
        None => None,
    }
}

/// The members with `key` bound to `value`: in place where the key is there, else before the
/// first whose name comes after it.
pub open spec fn ordered_put(
    members: Seq<(Seq<char>, Doc)>,
    key: Seq<char>,
    value: Doc,
) -> Seq<(Seq<char>, Doc)>
    decreases members.len(),
{
    if members.len() == 0 {
        seq![(key, value)]
    } else if members[0].0 == key {
        seq![(key, value)] + members.skip(1)
    } else if order::name_le(members[0].0, key) {
        seq![members[0]] + ordered_put(members.skip(1), key, value)
    } else {
        seq![(key, value)] + members
    }
}

proof fn put_is_found(members: Seq<(Seq<char>, Doc)>, key: Seq<char>, value: Doc)
    ensures
        json::lookup(ordered_put(members, key, value), key) == Some(value),
    decreases members.len(),
{
    let r = ordered_put(members, key, value);
    if members.len() > 0 && members[0].0 != key && order::name_le(members[0].0, key) {
        put_is_found(members.skip(1), key, value);
        assert(r.skip(1) =~= ordered_put(members.skip(1), key, value));
        assert(r[0] == members[0]);
    }
}

proof fn put_keeps_others(
    members: Seq<(Seq<char>, Doc)>,
    key: Seq<char>,
    value: Doc,
    other: Seq<char>,
)
    requires
        other != key,
    ensures
        json::lookup(ordered_put(members, key, value), other) == json::lookup(members, other),
    decreases members.len(),
{
    let r = ordered_put(members, key, value);
    if members.len() == 0 {
        assert(r.skip(1) =~= Seq::empty());
        assert(json::lookup(r.skip(1), other) is None);
    } else if members[0].0 == key {
        assert(r.skip(1) =~= members.skip(1));
    } else if order::name_le(members[0].0, key) {
        put_keeps_others(members.skip(1), key, value, other);
        assert(r.skip(1) =~= ordered_put(members.skip(1), key, value));
        assert(r[0] == members[0]);
    } else {
        assert(r.skip(1) =~= members);
    }
}

/// Putting a value among members whose names ascend keeps them ascending.
pub proof fn puts_keep_the_order(members: Seq<(Seq<char>, Doc)>, key: Seq<char>, value: Doc)
    requires
        order::names_ascend(members),
    ensures
        order::names_ascend(ordered_put(members, key, value)),
    decreases members.len(),
{
    let r = ordered_put(members, key, value);
    if members.len() > 0 {
        let rest = members.skip(1);
        assert(order::names_ascend(rest)) by {
            assert forall|i: int, j: int| 0 <= i < j < rest.len() implies order::name_le(
                (#[trigger] rest[i]).0,
                (#[trigger] rest[j]).0,
            ) by {
                assert(rest[i] == members[i + 1] && rest[j] == members[j + 1]);
            }
        }
        puts_keep_the_order(rest, key, value);
        let later = ordered_put(rest, key, value);
        ordered_put_holds(rest, key, value);
        order::name_le_total(members[0].0, key);
        assert forall|i: int, j: int| 0 <= i < j < r.len() implies order::name_le(
            (#[trigger] r[i]).0,
            (#[trigger] r[j]).0,
        ) by {
            if members[0].0 == key {
                assert(r[i].0 == members[i].0 && r[j].0 == members[j].0);
            } else if order::name_le(members[0].0, key) {
                if i > 0 {
                    assert(r[i] == later[i - 1] && r[j] == later[j - 1]);
                } else {
                    assert(r[j] == later[j - 1]);
                    if later[j - 1].0 != key {
                        let k = choose|k: int|
                            0 <= k < rest.len() && (#[trigger] rest[k]).0 == later[j - 1].0;
                        assert(rest[k] == members[k + 1]);
                        assert(order::name_le(members[0].0, members[k + 1].0));
                    }
                }
            } else {
                if i > 0 {
                    assert(r[i] == members[i - 1] && r[j] == members[j - 1]);
                } else {
                    assert(r[j] == members[j - 1]);
                    if j > 1 {
                        assert(order::name_le(members[0].0, members[j - 1].0));
                    } else {
                        order::name_le_total(members[0].0, members[0].0);
                    }
                    order::name_le_trans(key, members[0].0, members[j - 1].0);
                }
            }
        }
    }
}

proof fn ordered_put_holds(members: Seq<(Seq<char>, Doc)>, key: Seq<char>, value: Doc)
    ensures
        forall|j: int|
            0 <= j < ordered_put(members, key, value).len() ==> {
                let name = (#[trigger] ordered_put(members, key, value)[j]).0;
                name == key || exists|k: int|
                    0 <= k < members.len() && (#[trigger] members[k]).0 == name
            },
    decreases members.len(),
{
    let r = ordered_put(members, key, value);
    if members.len() > 0 {
        let rest = members.skip(1);
        ordered_put_holds(rest, key, value);
        let later = ordered_put(rest, key, value);
        assert forall|j: int| 0 <= j < r.len() implies {
            let name = (#[trigger] r[j]).0;
            name == key || exists|k: int|
                0 <= k < members.len() && (#[trigger] members[k]).0 == name
        } by {
            let name = r[j].0;
            if members[0].0 == key {
                if j > 0 {
                    assert(members[j].0 == name);
                }
            } else if order::name_le(members[0].0, key) {
                if j == 0 {
                    assert(members[0].0 == name);
                } else {
                    assert(r[j] == later[j - 1]);
                    if name != key {
                        let k = choose|k: int|
                            0 <= k < rest.len() && (#[trigger] rest[k]).0 == name;
                        assert(members[k + 1].0 == name);
                    }
                }
            } else if j > 0 {
                assert(members[j - 1].0 == name);
            }
        }
    }
}

fn put_in_order(m: &mut Vec<(String, Json)>, key: &str, value: Json)
    ensures
        json::members_of(final(m)@) == ordered_put(json::members_of(old(m)@), key@, value.doc()),
{
    let ghost all = json::members_of(m@);
    let ghost bound = (key@, value.doc());
    let ghost want = ordered_put(all, key@, value.doc());
    let mut i: usize = 0;
    assert(all.skip(0) =~= all);
    assert(all.take(0) + ordered_put(all.skip(0), key@, value.doc()) =~= want);
    while i < m.len() && !text::same(m[i].0.as_str(), key) && order::not_after(
        m[i].0.as_str(),
        key,
    )
        invariant
            i <= m@.len(),
            m@ == old(m)@,
            all == json::members_of(m@),
            all.take(i as int) + ordered_put(all.skip(i as int), key@, value.doc()) == want,
        decreases m@.len() - i,
    {
        proof {
            assert(all.skip(i as int)[0] == all[i as int]);
            assert(all.skip(i as int).skip(1) =~= all.skip(i + 1));
            assert(all.take(i as int) + (seq![all[i as int]] + ordered_put(
                all.skip(i + 1),
                key@,
                value.doc(),
            )) =~= all.take(i + 1) + ordered_put(all.skip(i + 1), key@, value.doc()));
        }
        i += 1;
    }
    proof {
        if i < m@.len() {
            assert(all.skip(i as int)[0] == all[i as int]);
            assert(all.skip(i as int).skip(1) =~= all.skip(i + 1));
        } else {
            assert(all.skip(i as int) =~= Seq::empty());
        }
    }
    if i < m.len() && text::same(m[i].0.as_str(), key) {
        m.set(i, (text::owned(key), value));
        assert(json::members_of(m@) =~= all.take(i as int) + (seq![bound] + all.skip(i + 1)));
    } else {
        m.insert(i, (text::owned(key), value));
        assert(json::members_of(m@) =~= all.take(i as int) + (seq![bound] + all.skip(i as int)));
    }
}

/// The document with a value at the place that the path from its `i`-th part on leads to;
/// objects on the way are made where nothing stands, and members keep the order of their
/// names. Nothing where something else than an object stands in the way.
pub open spec fn placed(d: Doc, path: Seq<Seq<char>>, i: int, value: Doc) -> Option<Doc>
    decreases path.len() - i,
{
    match d {
        Doc::Object(m) => if i + 1 >= path.len() {
            Some(Doc::Object(ordered_put(m, path[i], value)))
        } else {
            let inner = match json::lookup(m, path[i]) {
                Some(x) => x,
                None => Doc::object(),
            };
            match placed(inner, path, i + 1, value) {
                Some(x) => Some(Doc::Object(ordered_put(m, path[i], x))),
                None => None,
            }
        },
        _ => None,
    }
}

fn walk<'a>(d: &'a Json, path: &Vec<String>, i: usize) -> (r: Option<&'a Json>)
    requires
        i <= path@.len(),
    ensures
        match r {
            Some(x) => at_path(d.doc(), text::views(path@), i as int) == Some(x.doc()),
            None => at_path(d.doc(), text::views(path@), i as int) is None,
        },
    decreases path@.len() - i,
{
    if i == path.len() {
        return Some(d);
    }
    assert(text::views(path@)[i as int] == path@[i as int]@);
    match d.get(path[i].as_str()) {
        Some(inner) => walk(inner, path, i + 1),
        None => None,
    }
}

/// The value of a field.
pub fn get_field_value<'a>(event: &'a Json, name: &str) -> (r: Option<&'a Json>)
    ensures
        match r {
            Some(x) => field(event.doc(), name@) == Some(x.doc()),
            None => field(event.doc(), name@) is None,
        },
{
    proof {
        reveal_strlit(".");
    }
    let path = text::split(name, ".");
    walk(event, &path, 0)
}

/// The text of a field, where it is one.
pub fn get_field_str<'a>(event: &'a Json, name: &str) -> (r: Option<&'a str>)
    ensures
        match r {
            Some(x) => field_text(event.doc(), name@) == Some(x@),
            None => field_text(event.doc(), name@) is None,
        },
{
    match get_field_value(event, name) {
        Some(v) => v.as_text(),
        None => None,
    }
}

fn place(d: Json, path: &Vec<String>, i: usize, value: Json) -> (r: Option<Json>)
    requires
        i < path@.len(),
    ensures
        match r {
            Some(x) => placed(d.doc(), text::views(path@), i as int, value.doc()) == Some(x.doc()),
            None => placed(d.doc(), text::views(path@), i as int, value.doc()) is None,
        },
    decreases path@.len() - i,
{
    assert(text::views(path@)[i as int] == path@[i as int]@);
    match d {
        Json::Object(m) => {
            proof {
                Json::doc_of_object(m);
            }
            let mut m = m;
            let what = if i >= path.len() - 1 {
                value
            } else {
                let inner = match json::find_member(&m, path[i].as_str()) {
                    Some(x) => x.copy(),
                    None => Json::object(),
                };
                match place(inner, path, i + 1, value) {
                    Some(x) => x,
                    None => {
                        return None;
                    },
                }
            };
            put_in_order(&mut m, path[i].as_str(), what);
            proof {
                Json::doc_of_object(m);
            }
            Some(Json::Object(m))
        },
        _ => None,
    }
}

/// The event with a value in the field; nothing where something else than an object stands
/// in the way.
pub fn set_nested_field(event: Json, name: &str, value: Json) -> (r: Option<Json>)
    ensures
        match r {
            Some(x) => placed(event.doc(), parts(name@), 0, value.doc()) == Some(x.doc()),
            None => placed(event.doc(), parts(name@), 0, value.doc()) is None,
        },
{
    proof {
        reveal_strlit(".");
        pieces_not_empty(name@, "."@);
    }
    let path = text::split(name, ".");
    place(event, &path, 0, value)
}

proof fn pieces_not_empty(s: Seq<char>, sep: Seq<char>)
    ensures
        text::pieces(s, sep).len() > 0,
{
}

/// What was put into a field is read from it.
pub proof fn what_is_set_is_read(d: Doc, path: Seq<Seq<char>>, i: int, value: Doc)
    requires
        0 <= i < path.len(),
        placed(d, path, i, value) is Some,
    ensures
        at_path(placed(d, path, i, value)->0, path, i) == Some(value),
    decreases path.len() - i,
{
    let m = d->Object_0;
    if i + 1 >= path.len() {
        put_is_found(m, path[i], value);
        assert(at_path(value, path, i + 1) == Some(value));
    } else {
        let inner = match json::lookup(m, path[i]) {
            Some(x) => x,
            None => Doc::object(),
        };
        what_is_set_is_read(inner, path, i + 1, value);
        put_is_found(m, path[i], placed(inner, path, i + 1, value)->0);
    }
}

/// Two paths part at some place from the `i`-th on: neither begins with the other.
pub open spec fn parted(a: Seq<Seq<char>>, b: Seq<Seq<char>>, i: int) -> bool {
    exists|k: int| i <= k < a.len() && k < b.len() && #[trigger] a[k] != b[k]
}

/// Setting a field leaves every other field as it was: each whose path is neither the beginning
/// of the field's path nor begins with it.
pub proof fn other_fields_stay(
    d: Doc,
    path: Seq<Seq<char>>,
    i: int,
    value: Doc,
    other: Seq<Seq<char>>,
)
    requires
        0 <= i,
        parted(path, other, i),
        placed(d, path, i, value) is Some,
    ensures
        at_path(placed(d, path, i, value)->0, other, i) == at_path(d, other, i),
    decreases path.len() - i,
{
    let m = d->Object_0;
    let k = choose|k: int| i <= k < path.len() && k < other.len() && #[trigger] path[k] != other[k];
    let inner = match json::lookup(m, path[i]) {
        Some(x) => x,
        None => Doc::object(),
    };
    if path[i] != other[i] {
        if i + 1 >= path.len() {
            put_keeps_others(m, path[i], value, other[i]);
        } else {
            put_keeps_others(m, path[i], placed(inner, path, i + 1, value)->0, other[i]);
        }
    } else {
        assert(k > i);
        assert(path[k] != other[k]);
        other_fields_stay(inner, path, i + 1, value, other);
        put_is_found(m, path[i], placed(inner, path, i + 1, value)->0);
    }
}

// ---------------------------------------------------------------------------
// The text of a value
// ---------------------------------------------------------------------------

/// The text that `serde_json::to_string` writes for a text.
pub uninterp spec fn quoted(s: Seq<char>) -> Seq<char>;

/// Calls `serde_json::to_string` for a text, which cannot fail. What is written follows from
/// the text: it stands between two quotes, and as no escape has a slash in it, two slashes
/// stand together in it only where they do in the text.
#[verifier::external_body]
pub(crate) fn quote(s: &str) -> (r: String)
    ensures
        r@ == quoted(s@),
        r@.len() >= 2,
        r@[0] == '"',
        r@.last() == '"',
        text::names_no_host(s@) ==> text::names_no_host(r@),
{
    serde_json::to_string(s).unwrap()
}

/// How many decimals of a quotient are written.
pub const QUOTIENT_PLACES: u32 = 18;

/// A value in JSON, without white space. A quotient is a decimal number, or nothing
/// where it has no value.
pub open spec fn rendered(d: Doc) -> Seq<char>
    decreases d, 1int, 0int,
{
    match d {
        Doc::Null => "null"@,
        Doc::Bool(b) => if b {
            "true"@
        } else {
            "false"@
        },
        Doc::Uint(n) => text::decimal(n),
        Doc::Int(n) => text::signed_decimal(n),
        Doc::Quotient { num, den } => if den == 0 {
            "null"@
        } else {
            decimal::written(num, den, QUOTIENT_PLACES as nat)
        },
        Doc::Number(t) => t,
        Doc::Text(t) => quoted(t),
        Doc::Array(v) => seq!['['] + rendered_items(d, v.len() as int) + seq![']'],
        Doc::Object(m) => seq!['{'] + rendered_members(d, m.len() as int) + seq!['}'],
    }
}

/// The first `n` items of an array, between commas.
pub open spec fn rendered_items(d: Doc, n: int) -> Seq<char>
    decreases d, 0int, n,
{
    match d {
        Doc::Array(v) => if n <= 0 || n > v.len() {
            Seq::empty()
        } else if n == 1 {
            rendered(v[0])
        } else {
            rendered_items(d, n - 1) + seq![','] + rendered(v[n - 1])
        },
        _ => Seq::empty(),
    }
}

/// The first `n` members of an object, between commas.
pub open spec fn rendered_members(d: Doc, n: int) -> Seq<char>
    decreases d, 0int, n,
{
    match d {
        Doc::Object(m) => if n <= 0 || n > m.len() {
            Seq::empty()
        } else if n == 1 {
            quoted(m[0].0) + seq![':'] + rendered(m[0].1)
        } else {
            rendered_members(d, n - 1) + seq![','] + (quoted(m[n - 1].0) + seq![':'] + rendered(
                m[n - 1].1,
            ))
        },
        _ => Seq::empty(),
    }
}

/// A value in JSON, without white space.
pub fn render(d: &Json) -> (r: String)
    ensures
        r@ == rendered(d.doc()),
    decreases *d,
{
    match d {
        Json::Null => text::owned("null"),
        Json::Bool(b) => if *b {
            text::owned("true")
        } else {
            text::owned("false")
        },
        Json::Uint(n) => text::decimal_u64(*n),
        Json::Int(n) => text::decimal_i64(*n),
        Json::Quotient { num, den } => if *den == 0 {
            text::owned("null")
        } else {
            decimal::written_of(*num, *den, QUOTIENT_PLACES)
        },
        Json::Number(t) => t.clone(),
        Json::Text(t) => quote(t.as_str()),
        Json::Array(v) => {
            proof {
                Json::doc_of_array(*v);
            }
            let ghost doc = d.doc();
            let mut out = String::new();
            out.push('[');
            let mut i: usize = 0;
            assert(out@ =~= seq!['['] + rendered_items(doc, 0));
            while i < v.len()
                invariant
                    i <= v@.len(),
                    *d is Array,
                    d->Array_0 == *v,
                    doc == Doc::Array(Seq::new(v@.len(), |i: int| v@[i].doc())),
                    out@ == seq!['['] + rendered_items(doc, i as int),
                decreases v@.len() - i,
            {
                if i > 0 {
                    out.push(',');
                }
                assert(decreases_to!(*d => *v));
                assert(decreases_to!(*v => v@[i as int]));
                let item = render(&v[i]);
                out.append(item.as_str());
                i += 1;
                assert(out@ =~= seq!['['] + rendered_items(doc, i as int));
            }
            out.push(']');
            assert(out@ =~= rendered(doc));
            out
        },
        Json::Object(m) => {
            proof {
                Json::doc_of_object(*m);
            }
            let ghost doc = d.doc();
            let mut out = String::new();
            out.push('{');
            let mut i: usize = 0;
            assert(out@ =~= seq!['{'] + rendered_members(doc, 0));
            while i < m.len()
                invariant
                    i <= m@.len(),
                    *d is Object,
                    d->Object_0 == *m,
                    doc == Doc::Object(json::members_of(m@)),
                    out@ == seq!['{'] + rendered_members(doc, i as int),
                decreases m@.len() - i,
            {
                if i > 0 {
                    out.push(',');
                }
                out.append(quote(m[i].0.as_str()).as_str());
                out.push(':');
                assert(decreases_to!(*d => *m));
                assert(decreases_to!(*m => m@[i as int]));
                let item = render(&m[i].1);
                out.append(item.as_str());
                i += 1;
                assert(out@ =~= seq!['{'] + rendered_members(doc, i as int));
            }
            out.push('}');
            assert(out@ =~= rendered(doc));
            out
        },
    }
}

/// What a value reads like in the middle of a text: a text as it is, anything else in JSON.
pub open spec fn plain(d: Doc) -> Seq<char> {
    match d {
        Doc::Text(t) => t,
        _ => rendered(d),
    }
}

/// What a value reads like in the middle of a text.
pub fn plain_text(d: &Json) -> (r: String)
    ensures
        r@ == plain(d.doc()),
{
    match d {
        Json::Text(t) => t.clone(),
        _ => render(d),
    }
}

// ---------------------------------------------------------------------------
// Expressions
// ---------------------------------------------------------------------------

/// A quotient without its fraction.
pub open spec fn cut(num: int, den: int) -> int {
    if num >= 0 {
        num / den
    } else {
        -((-num) / den)
    }
}

/// The nearest number of 64 bits with a sign.
pub open spec fn held64(n: int) -> int {
    if n > i64::MAX {
        i64::MAX as int
    } else if n < i64::MIN {
        i64::MIN as int
    } else {
        n
    }
}

/// The number that a value is, where it is one.
pub open spec fn figure(d: Doc) -> Option<FigureView> {
    match d {
        Doc::Uint(n) => Some(product::whole(n as int)),
        Doc::Int(n) => Some(product::whole(n)),
        Doc::Number(t) => product::figure(t),
        _ => None,
    }
}

/// The value of an expression `field * number`, where it is one and the field is a number.
pub open spec fn evaluated(expression: Seq<char>, event: Doc) -> Option<int> {
    match text::first_at(expression, " * "@, 0) {
        None => None,
        Some(at) => match product::factor(text::trimmed(expression.skip(at + 3))) {
            None => None,
            Some(by) => match field(event, text::trimmed(expression.take(at))) {
                None => None,
                Some(d) => match figure(d) {
                    None => None,
                    Some(n) => Some(product::multiple(n, by)),
                },
            },
        },
    }
}

/// The nearest number of 64 bits with a sign.
pub fn hold(n: i128) -> (r: i64)
    ensures
        r == held64(n as int),
{
    if n > i64::MAX as i128 {
        i64::MAX
    } else if n < i64::MIN as i128 {
        i64::MIN
    } else {
        n as i64
    }
}

/// A quotient without its fraction.
pub fn cut_of(num: i128, den: i128) -> (r: i128)
    requires
        den > 0,
        num > i128::MIN,
    ensures
        r == cut(num as int, den as int),
{
    if num >= 0 {
        num / den
    } else {
        -((-num) / den)
    }
}

fn figure_in(d: &Json) -> (r: Option<Figure>)
    ensures
        product::opt_figure(r) == figure(d.doc()),
        r matches Some(f) ==> f@.wf(),
{
    match d {
        Json::Uint(n) => Some(product::whole_of(*n as i128)),
        Json::Int(n) => Some(product::whole_of(*n as i128)),
        Json::Number(t) => product::parse_figure(t.as_str()),
        _ => None,
    }
}

/// The value of an expression `field * number`.
pub fn evaluate_expression(expression: &str, event: &Json) -> (r: Option<i64>)
    ensures
        match r {
            Some(n) => evaluated(expression@, event.doc()) == Some(n as int),
            None => evaluated(expression@, event.doc()) is None,
        },
{
    proof {
        reveal_strlit(" * ");
    }
    match text::split_once(expression, " * ") {
        None => None,
        Some((name, number)) => match product::parse_factor(text::trim(number.as_str()).as_str()) {
            None => None,
            Some(by) => match get_field_value(event, text::trim(name.as_str()).as_str()) {
                None => None,
                Some(d) => match figure_in(d) {
                    None => None,
                    Some(n) => Some(product::multiple_of(&n, &by)),
                },
            },
        },
    }
}

} // verus!
