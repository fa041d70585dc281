//! JSON documents: the value that requests, manifests, patches and reports are
//! built as, and the mathematical document that each stands for.
use vstd::prelude::*;
use crate::text;

verus! {

/// A JSON value. An object keeps its members in the order in which they were put in.
pub enum Json {
    Null,
    Bool(bool),
    Uint(u64),
    Int(i64),
    /// The number `num / den`, for whoever writes the document to divide.
    Quotient { num: u128, den: u128 },
    /// The number that a decimal text denotes.
    Number(String),
    Text(String),
    Array(Vec<Json>),
    Object(Vec<(String, Json)>),
}

/// The document that a [`Json`] value stands for.
pub enum Doc {
    Null,
    Bool(bool),
    Uint(nat),
    Int(int),
    Quotient { num: nat, den: nat },
    Number(Seq<char>),
    Text(Seq<char>),
    Array(Seq<Doc>),
    Object(Seq<(Seq<char>, Doc)>),
}

impl Doc {
    /// An object without members.
    pub open spec fn object() -> Doc {
        Doc::Object(Seq::empty())
    }

    /// An array without items.
    pub open spec fn array() -> Doc {
        Doc::Array(Seq::empty())
    }

    /// The object with one more member behind those it has.
    pub open spec fn with(self, key: Seq<char>, value: Doc) -> Doc {
        match self {
            Doc::Object(m) => Doc::Object(m.push((key, value))),
            _ => self,
        }
    }

    /// The array with one more item behind those it has.
    pub open spec fn item(self, value: Doc) -> Doc {
        match self {
            Doc::Array(m) => Doc::Array(m.push(value)),
            _ => self,
        }
    }

    /// The value of the first member of that name.
    pub open spec fn get(self, key: Seq<char>) -> Option<Doc> {
        match self {
            Doc::Object(m) => lookup(m, key),
            _ => None,
        }
    }

    /// The text that the value is, if it is one.
    pub open spec fn as_text(self) -> Option<Seq<char>> {
        match self {
            Doc::Text(t) => Some(t),
            _ => None,
        }
    }

    /// The natural number that the value is, if it is one.
    pub open spec fn as_uint(self) -> Option<nat> {
        match self {
            Doc::Uint(n) => Some(n),
            Doc::Int(n) => if n >= 0 {
                Some(n as nat)
            } else {
                None
            },
            _ => None,
        }
    }
}

/// The value of the first member named `key`.
pub open spec fn lookup(members: Seq<(Seq<char>, Doc)>, key: Seq<char>) -> Option<Doc>
    decreases members.len(),
{
    if members.len() == 0 {
        None
    } else if members[0].0 == key {
        Some(members[0].1)
    } else {
        lookup(members.skip(1), key)
    }
}

/// The members with `key` bound to `value`: in place where the key is there, else
/// behind all others.
pub open spec fn put(members: Seq<(Seq<char>, Doc)>, key: Seq<char>, value: Doc) -> Seq<
    (Seq<char>, Doc),
>
    decreases members.len(),
{
    if members.len() == 0 {
        seq![(key, value)]
    } else if members[0].0 == key {
        seq![(key, value)] + members.skip(1)
    } else {
        seq![members[0]] + put(members.skip(1), key, value)
    }
}

/// What was put under a key is found there.
pub proof fn put_then_lookup(members: Seq<(Seq<char>, Doc)>, key: Seq<char>, value: Doc)
    ensures
        lookup(put(members, key, value), key) == Some(value),
    decreases members.len(),
{
    let r = put(members, key, value);
    if members.len() == 0 {
    } else if members[0].0 == key {
    } else {
        put_then_lookup(members.skip(1), key, value);
        assert(r.skip(1) =~= put(members.skip(1), key, value));
        assert(r[0] == members[0]);
    }
}

/// Putting a value under one key leaves what every other key is bound to.
pub proof fn put_keeps_others(
    members: Seq<(Seq<char>, Doc)>,
    key: Seq<char>,
    value: Doc,
    other: Seq<char>,
)
    requires
        other != key,
    ensures
        lookup(put(members, key, value), other) == lookup(members, other),
    decreases members.len(),
{
    let r = put(members, key, value);
    if members.len() == 0 {
        assert(r.skip(1) =~= Seq::empty());
        assert(lookup(r.skip(1), other) is None);
    } else if members[0].0 == key {
        assert(r.skip(1) =~= members.skip(1));
    } else {
        put_keeps_others(members.skip(1), key, value, other);
        assert(r.skip(1) =~= put(members.skip(1), key, value));
        assert(r[0] == members[0]);
    }
}

proof fn push_then_lookup(
    members: Seq<(Seq<char>, Doc)>,
    key: Seq<char>,
    value: Doc,
    other: Seq<char>,
)
    ensures
        lookup(members.push((key, value)), other) == match lookup(members, other) {
            Some(d) => Some(d),
            None => if other == key {
                Some(value)
            } else {
                None
            },
        },
    decreases members.len(),
{
    let r = members.push((key, value));
    if members.len() == 0 {
        assert(r.skip(1) =~= Seq::empty());
        assert(lookup(r.skip(1), other) is None);
    } else {
        push_then_lookup(members.skip(1), key, value, other);
        assert(r.skip(1) =~= members.skip(1).push((key, value)));
        assert(r[0] == members[0]);
    }
}

/// What an object is given under a new key is found there; everything else stays.
pub broadcast proof fn with_then_get(d: Doc, key: Seq<char>, value: Doc, other: Seq<char>)
    requires
        d is Object,
    ensures
        #[trigger] d.with(key, value).get(other) == match d.get(other) {
            Some(x) => Some(x),
            None => if other == key {
                Some(value)
            } else {
                None
            },
        },
        d.with(key, value) is Object,
{
    push_then_lookup(d->Object_0, key, value, other);
}

/// The members that a list of pairs stands for.
pub open spec fn members_of(m: Seq<(String, Json)>) -> Seq<(Seq<char>, Doc)> {
    Seq::new(m.len(), |i: int| (m[i].0@, m[i].1.doc()))
}

impl View for Json {
    type V = Doc;

    open spec fn view(&self) -> Doc {
        self.doc()
    }
}

impl Json {
    /// The document that this value stands for.
    pub open spec fn doc(self) -> Doc
        decreases self,
    {
        match self {
            Json::Null => Doc::Null,
            Json::Bool(b) => Doc::Bool(b),
            Json::Uint(n) => Doc::Uint(n as nat),
            Json::Int(n) => Doc::Int(n as int),
            Json::Quotient { num, den } => Doc::Quotient { num: num as nat, den: den as nat },
            Json::Number(t) => Doc::Number(t@),
            Json::Text(t) => Doc::Text(t@),
            Json::Array(v) => Doc::Array(
                Seq::new(
                    v@.len(),
                    |i: int|
                        if 0 <= i < v@.len() {
                            v@[i].doc()
                        } else {
                            Doc::Null
                        },
                ),
            ),
            Json::Object(m) => Doc::Object(
                Seq::new(
                    m@.len(),
                    |i: int|
                        if 0 <= i < m@.len() {
                            (m@[i].0@, m@[i].1.doc())
                        } else {
                            (Seq::empty(), Doc::Null)
                        },
                ),
            ),
        }
    }

    /// An object's document is made of its members.
    pub proof fn doc_of_object(m: Vec<(String, Json)>)
        ensures
            Json::Object(m).doc() == Doc::Object(members_of(m@)),
    {
        let d = Json::Object(m).doc();
        assert(d->Object_0 =~= members_of(m@));
    }

    /// An array's document is made of its items.
    pub proof fn doc_of_array(v: Vec<Json>)
        ensures
            Json::Array(v).doc() == Doc::Array(Seq::new(v@.len(), |i: int| v@[i].doc())),
    {
        let d = Json::Array(v).doc();
        assert(d->Array_0 =~= Seq::new(v@.len(), |i: int| v@[i].doc()));
    }

    /// An object without members.
    pub fn object() -> (r: Json)
        ensures
            r.doc() == Doc::object(),
    {
        let m: Vec<(String, Json)> = Vec::new();
        proof {
            Json::doc_of_object(m);
            assert(members_of(m@) =~= Seq::empty());
        }
        Json::Object(m)
    }

    /// An array without items.
    pub fn array() -> (r: Json)
        ensures
            r.doc() == Doc::array(),
    {
        let v: Vec<Json> = Vec::new();
        proof {
            Json::doc_of_array(v);
            assert(Seq::new(v@.len(), |i: int| v@[i].doc()) =~= Seq::empty());
        }
        Json::Array(v)
    }

    /// The object with one more member behind those it has; another value as it is.
    pub fn with(self, key: &str, value: Json) -> (r: Json)
        ensures
            r.doc() == self.doc().with(key@, value.doc()),
    {
        match self {
            Json::Object(m) => {
                let ghost before = m;
                let mut m = m;
                m.push((text::owned(key), value));
                proof {
                    Json::doc_of_object(before);
                    Json::doc_of_object(m);
                    assert(members_of(m@) =~= members_of(before@).push((key@, value.doc())));
                }
                Json::Object(m)
            },
            other => other,
        }
    }

    /// The array with one more item behind those it has; another value as it is.
    pub fn item(self, value: Json) -> (r: Json)
        ensures
            r.doc() == self.doc().item(value.doc()),
    {
        match self {
            Json::Array(v) => {
                let ghost before = v;
                let mut v = v;
                v.push(value);
                proof {
                    Json::doc_of_array(before);
                    Json::doc_of_array(v);
                    assert(Seq::new(v@.len(), |i: int| v@[i].doc()) =~= Seq::new(
                        before@.len(),
                        |i: int| before@[i].doc(),
                    ).push(value.doc()));
                }
                Json::Array(v)
            },
            other => other,
        }
    }

    /// A text.
    pub fn text(s: &str) -> (r: Json)
        ensures
            r.doc() == Doc::Text(s@),
    {
        Json::Text(text::owned(s))
    }

    /// A text, or nothing.
    pub fn opt_text(s: &Option<String>) -> (r: Json)
        ensures
            r.doc() == (match *s {
                Some(t) => Doc::Text(t@),
                None => Doc::Null,
            }),
    {
        match s {
            Some(t) => Json::Text(t.clone()),
            None => Json::Null,
        }
    }

    /// A natural number.
    pub fn uint(n: u64) -> (r: Json)
        ensures
            r.doc() == Doc::Uint(n as nat),
    {
        Json::Uint(n)
    }

    /// A deep copy.
    pub fn copy(&self) -> (r: Json)
        ensures
            r.doc() == self.doc(),
        decreases *self,
    {
        match self {
            Json::Null => Json::Null,
            Json::Bool(b) => Json::Bool(*b),
            Json::Uint(n) => Json::Uint(*n),
            Json::Int(n) => Json::Int(*n),
            Json::Quotient { num, den } => Json::Quotient { num: *num, den: *den },
            Json::Number(t) => Json::Number(t.clone()),
            Json::Text(t) => Json::Text(t.clone()),
            Json::Array(v) => {
                let mut out: Vec<Json> = Vec::new();
                let mut i: usize = 0;
                while i < v.len()
                    invariant
                        i <= v@.len(),
                        *self is Array,
                        self->Array_0 == *v,
                        out@.len() == i,
                        forall|k: int| 0 <= k < i ==> (#[trigger] out@[k]).doc() == v@[k].doc(),
                    decreases v@.len() - i,
                {
                    assert(decreases_to!(*self => *v));
                    assert(decreases_to!(*v => v@[i as int]));
                    out.push(v[i].copy());
                    i += 1;
                }
                proof {
                    Json::doc_of_array(*v);
                    Json::doc_of_array(out);
                    assert(Seq::new(out@.len(), |i: int| out@[i].doc()) =~= Seq::new(
                        v@.len(),
                        |i: int| v@[i].doc(),
                    ));
                }
                Json::Array(out)
            },
            Json::Object(m) => {
                let mut out: Vec<(String, Json)> = Vec::new();
                let mut i: usize = 0;
                while i < m.len()
                    invariant
                        i <= m@.len(),
                        *self is Object,
                        self->Object_0 == *m,
                        out@.len() == i,
                        forall|k: int|
                            0 <= k < i ==> (#[trigger] out@[k]).0@ == m@[k].0@ && out@[k].1.doc()
                                == m@[k].1.doc(),
                    decreases m@.len() - i,
                {
                    assert(decreases_to!(*self => *m));
                    assert(decreases_to!(*m => m@[i as int]));
                    out.push((m[i].0.clone(), m[i].1.copy()));
                    i += 1;
                }
                proof {
                    Json::doc_of_object(*m);
                    Json::doc_of_object(out);
                    assert(members_of(out@) =~= members_of(m@));
                }
                Json::Object(out)
            },
        }
    }

    /// The value of the first member of that name, where this is an object that has one.
    pub fn get(&self, key: &str) -> (r: Option<&Json>)
        ensures
            r is Some <==> self.doc().get(key@) is Some,
            r is Some ==> self.doc().get(key@) == Some(r->0.doc()),
    {
        match self {
            Json::Object(m) => {
                proof {
                    Json::doc_of_object(*m);
                }
                find_member(m, key)
            },
            _ => None,
        }
    }

    /// The text that the value is, if it is one.
    pub fn as_text(&self) -> (r: Option<&str>)
        ensures
            r is Some <==> self.doc().as_text() is Some,
            r is Some ==> self.doc().as_text() == Some(r->0@),
    {
        match self {
            Json::Text(t) => Some(t.as_str()),
            _ => None,
        }
    }

    /// The natural number that the value is, if it is one.
    pub fn as_uint(&self) -> (r: Option<u64>)
        ensures
            r is Some <==> self.doc().as_uint() is Some,
            r is Some ==> self.doc().as_uint() == Some(r->0 as nat),
    {
        match self {
            Json::Uint(n) => Some(*n),
            Json::Int(n) => if *n >= 0 {
                Some(*n as u64)
            } else {
                None
            },
            _ => None,
        }
    }
}

/// The value of the first member of that name.
pub fn find_member<'a>(m: &'a Vec<(String, Json)>, key: &str) -> (r: Option<&'a Json>)
    ensures
        r is Some <==> lookup(members_of(m@), key@) is Some,
        r is Some ==> lookup(members_of(m@), key@) == Some(r->0.doc()),
{
    assert(members_of(m@).skip(0) =~= members_of(m@));
    let mut i: usize = 0;
    while i < m.len()
        invariant
            i <= m@.len(),
            lookup(members_of(m@), key@) == lookup(members_of(m@).skip(i as int), key@),
        decreases m@.len() - i,
    {
        proof {
            assert(members_of(m@).skip(i as int)[0] == members_of(m@)[i as int]);
            assert(members_of(m@).skip(i as int).skip(1) =~= members_of(m@).skip(i + 1));
        }
        if text::same(m[i].0.as_str(), key) {
            return Some(&m[i].1);
        }
        i += 1;
    }
    None
}

/// Binds `key` to `value` among the members: in place where the key is there, else
/// behind all others.
pub fn put_member(m: &mut Vec<(String, Json)>, key: &str, value: Json)
    ensures
        members_of(final(m)@) == put(members_of(old(m)@), key@, value.doc()),
{
    let ghost before = m@;
    let ghost all = members_of(before);
    let mut i: usize = 0;
    assert(all.skip(0) =~= all);
    assert(all.take(0) + put(all.skip(0), key@, value.doc()) =~= put(all, key@, value.doc()));
    while i < m.len()
        invariant
            i <= m@.len(),
            m@ == before,
            before == old(m)@,
            all == members_of(before),
            all.take(i as int) + put(all.skip(i as int), key@, value.doc()) == put(
                all,
                key@,
                value.doc(),
            ),
        decreases m@.len() - i,
    {
        proof {
            assert(all.skip(i as int)[0] == all[i as int]);
            assert(all.skip(i as int).skip(1) =~= all.skip(i + 1));
        }
        if text::same(m[i].0.as_str(), key) {
            m.set(i, (text::owned(key), value));
            proof {
                assert(all[i as int].0 == key@);
                assert(put(all.skip(i as int), key@, value.doc()) == seq![(key@, value.doc())]
                    + all.skip(i + 1));
                assert(members_of(m@) =~= all.take(i as int) + (seq![(key@, value.doc())] + all.skip(
                    i + 1,
                )));
            }
            return ;
        }
        proof {
            assert(all.take(i as int) + (seq![all[i as int]] + put(
                all.skip(i + 1),
                key@,
                value.doc(),
            )) =~= all.take(i + 1) + put(all.skip(i + 1), key@, value.doc()));
        }
        i += 1;
    }
    m.push((text::owned(key), value));
    proof {
        assert(all.take(i as int) =~= all);
        assert(members_of(m@) =~= all + seq![(key@, value.doc())]);
    }
}

} // verus!
