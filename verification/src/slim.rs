//! Slimming the state JSON before it is sent to the model: the `keywords`
//! members and the members whose value is `null` carry nothing the model
//! decides on but cost tokens, so they are removed at every depth.
use vstd::prelude::*;

use crate::json::{parse_json, render_json, str_eq, json_parse, json_render, Json, JsonValue};
use crate::text::copy_str;

verus! {

/// A member that slimming keeps: not named `keywords`, not `null`.
pub open spec fn member_kept(k: Seq<char>, v: Json) -> bool {
    k != "keywords"@ && !(v is Null)
}

/// The positions, among the first `n`, of the members an object keeps.
pub open spec fn kept_members(ks: Seq<Seq<char>>, vs: Seq<Json>, n: nat) -> Seq<int>
    decreases n,
{
    if n == 0 {
        Seq::empty()
    } else {
        let r = kept_members(ks, vs, (n - 1) as nat);
        if member_kept(ks[n - 1], vs[n - 1]) {
            r.push(n - 1)
        } else {
            r
        }
    }
}

/// A value without `keywords` members and `null` members, at every depth.
pub open spec fn stripped(v: Json) -> Json
    decreases v,
{
    match v {
        Json::Array(items) => Json::Array(
            Seq::new(
                items.len(),
                |i: int|
                    if 0 <= i < items.len() {
                        stripped(items[i])
                    } else {
                        Json::Null
                    },
            ),
        ),
        Json::Object(ks, vs) => {
            let keep = kept_members(ks, vs, vs.len());
            Json::Object(
                Seq::new(keep.len(), |j: int| ks[keep[j]]),
                Seq::new(
                    keep.len(),
                    |j: int|
                        if 0 <= j < keep.len() && 0 <= keep[j] < vs.len() {
                            stripped(vs[keep[j]])
                        } else {
                            Json::Null
                        },
                ),
            )
        },
        _ => v,
    }
}

/// The slimmed text of a state: the compact JSON of the stripped document,
/// or the text as it is when it is not JSON.
pub open spec fn slim_text(text: Seq<char>) -> Seq<char> {
    match json_parse(text) {
        Some(v) => json_render(stripped(v)),
        None => text,
    }
}

proof fn lemma_kept_members_bounds(ks: Seq<Seq<char>>, vs: Seq<Json>, n: nat)
    ensures
        kept_members(ks, vs, n).len() <= n,
        forall|j: int|
            0 <= j < kept_members(ks, vs, n).len() ==> 0 <= #[trigger] kept_members(ks, vs, n)[j]
                < n,
        forall|j: int|
            0 <= j < kept_members(ks, vs, n).len() ==> member_kept(
                ks[#[trigger] kept_members(ks, vs, n)[j]],
                vs[kept_members(ks, vs, n)[j]],
            ),
    decreases n,
{
    if n > 0 {
        lemma_kept_members_bounds(ks, vs, (n - 1) as nat);
    }
}

/// The stripped copy of a value.
pub fn stripped_value(v: &JsonValue) -> (r: JsonValue)
    ensures
        r@ == stripped(v@),
    decreases v,
{
    match v {
        JsonValue::Array(items) => {
            let mut out: Vec<JsonValue> = Vec::new();
            let mut i: usize = 0;
            while i < items.len()
                invariant
                    v is Array,
                    v->Array_0 == *items,
                    i <= items@.len(),
                    out@.len() == i,
                    forall|k: int| 0 <= k < i ==> #[trigger] out@[k]@ == stripped(items@[k]@),
                decreases items@.len() - i,
            {
                proof {
                    assert(decreases_to!(*items => items[i as int]));
                    assert(decreases_to!(v => v->Array_0));
                }
                out.push(stripped_value(&items[i]));
                i = i + 1;
            }
            let r = JsonValue::Array(out);
            assert(r@ == stripped(v@)) by {
                let a = r@->Array_0;
                let b = stripped(v@)->Array_0;
                assert forall|k: int| 0 <= k < a.len() implies a[k] == b[k] by {
                    assert(a[k] == out@[k]@);
                    assert(v@->Array_0[k] == items@[k]@);
                }
                assert(a =~= b);
            }
            r
        },
        JsonValue::Object(members) => {
            let ghost ks = v@->Object_0;
            let ghost vs = v@->Object_1;
            let mut out: Vec<(String, JsonValue)> = Vec::new();
            let mut i: usize = 0;
            while i < members.len()
                invariant
                    v is Object,
                    v->Object_0 == *members,
                    ks == v@->Object_0,
                    vs == v@->Object_1,
                    ks.len() == members@.len(),
                    vs.len() == members@.len(),
                    forall|k: int| 0 <= k < members@.len() ==> #[trigger] ks[k] == members@[k].0@,
                    forall|k: int| 0 <= k < members@.len() ==> #[trigger] vs[k] == members@[k].1@,
                    i <= members@.len(),
                    out@.len() == kept_members(ks, vs, i as nat).len(),
                    forall|j: int|
                        #![trigger out@[j]]
                        0 <= j < out@.len() ==> out@[j].0@ == ks[kept_members(ks, vs, i as nat)[j]]
                            && out@[j].1@ == stripped(vs[kept_members(ks, vs, i as nat)[j]]),
                decreases members@.len() - i,
            {
                let (k, x) = &members[i];
                proof {
                    assert(decreases_to!(*members => members[i as int]));
                    assert(decreases_to!(v => v->Object_0));
                    assert(decreases_to!(members[i as int] => members[i as int].1));
                    assert(ks[i as int] == k@);
                    assert(vs[i as int] == x@);
                }
                if !str_eq(k.as_str(), "keywords") && !x.is_null() {
                    let ghost before = out@;
                    out.push((copy_str(k.as_str()), stripped_value(x)));
                    proof {
                        let kk = kept_members(ks, vs, (i + 1) as nat);
                        assert(kk == kept_members(ks, vs, i as nat).push(i as int));
                        assert forall|j: int| 0 <= j < out@.len() implies out@[j].0@ == ks[kk[j]]
                            && out@[j].1@ == stripped(vs[kk[j]]) by {
                            if j < before.len() {
                                assert(out@[j] == before[j]);
                            }
                        }
                    }
                }
                i = i + 1;
            }
            let r = JsonValue::Object(out);
            proof {
                lemma_kept_members_bounds(ks, vs, vs.len());
                let keep = kept_members(ks, vs, vs.len());
                let s = stripped(v@);
                let a = r@->Object_0;
                let b = s->Object_0;
                let c = r@->Object_1;
                let d = s->Object_1;
                assert forall|j: int| 0 <= j < a.len() implies a[j] == b[j] by {
                    assert(a[j] == out@[j].0@);
                }
                assert forall|j: int| 0 <= j < c.len() implies c[j] == d[j] by {
                    assert(c[j] == out@[j].1@);
                }
                assert(a =~= b);
                assert(c =~= d);
            }
            r
        },
        JsonValue::Null => JsonValue::Null,
        JsonValue::Bool(b) => JsonValue::Bool(*b),
        JsonValue::Int(n) => JsonValue::Int(*n),
        JsonValue::Float(s) => JsonValue::Float(copy_str(s.as_str())),
        JsonValue::Str(s) => JsonValue::Str(copy_str(s.as_str())),
    }
}

/// Removes the `keywords` members and the `null` members of every object,
/// at every depth.
pub fn strip_keys(v: &mut JsonValue)
    ensures
        final(v)@ == stripped(old(v)@),
{
    let s = stripped_value(v);
    *v = s;
}

/// Slims a state JSON text; a text that is not JSON comes back unchanged.
pub fn slim_state_json(state_json: &str) -> (r: String)
    ensures
        r@ == slim_text(state_json@),
{
    match parse_json(state_json) {
        Some(v) => {
            let mut v = v;
            strip_keys(&mut v);
            render_json(&v)
        },
        None => copy_str(state_json),
    }
}


// ---------------------------------------------------------------------------
// What slimming leaves
// ---------------------------------------------------------------------------

/// No `keywords` member and no `null` member, at any depth, and every object
/// has as many keys as values.
pub open spec fn is_slim(v: Json) -> bool
    decreases v, 0nat,
{
    match v {
        Json::Array(items) => all_slim(items, items.len()),
        Json::Object(ks, vs) => ks.len() == vs.len() && members_slim(ks, vs, vs.len()),
        _ => true,
    }
}

/// The first `n` items are slim.
pub open spec fn all_slim(items: Seq<Json>, n: nat) -> bool
    decreases items, n,
{
    if n == 0 || n > items.len() {
        n == 0
    } else {
        all_slim(items, (n - 1) as nat) && is_slim(items[n - 1])
    }
}

/// The first `n` members are kept by slimming and slim themselves.
pub open spec fn members_slim(ks: Seq<Seq<char>>, vs: Seq<Json>, n: nat) -> bool
    decreases vs, n,
{
    if n == 0 || n > vs.len() {
        n == 0
    } else {
        members_slim(ks, vs, (n - 1) as nat) && member_kept(ks[n - 1], vs[n - 1]) && is_slim(
            vs[n - 1],
        )
    }
}

proof fn lemma_all_slim(items: Seq<Json>, n: nat)
    requires
        n <= items.len(),
    ensures
        all_slim(items, n) <==> (forall|i: int| 0 <= i < n ==> #[trigger] is_slim(items[i])),
    decreases n,
{
    if n > 0 {
        lemma_all_slim(items, (n - 1) as nat);
        assert(all_slim(items, n) == (all_slim(items, (n - 1) as nat) && is_slim(items[n - 1])));
    }
}

proof fn lemma_members_slim_intro(ks: Seq<Seq<char>>, vs: Seq<Json>, n: nat)
    requires
        n <= vs.len(),
        forall|i: int| #![trigger vs[i]] 0 <= i < n ==> member_kept(ks[i], vs[i]) && is_slim(vs[i]),
    ensures
        members_slim(ks, vs, n),
    decreases n,
{
    if n > 0 {
        let m = (n - 1) as nat;
        lemma_members_slim_intro(ks, vs, m);
        assert(is_slim(vs[m as int]));
    }
}

proof fn lemma_members_slim_elim(ks: Seq<Seq<char>>, vs: Seq<Json>, n: nat, i: int)
    requires
        n <= vs.len(),
        members_slim(ks, vs, n),
        0 <= i < n,
    ensures
        member_kept(ks[i], vs[i]) && is_slim(vs[i]),
    decreases n,
{
    if i < n - 1 {
        lemma_members_slim_elim(ks, vs, (n - 1) as nat, i);
    }
}

/// Slimming leaves no `keywords` member and no `null` member anywhere.
pub proof fn lemma_stripped_is_slim(v: Json)
    ensures
        is_slim(stripped(v)),
    decreases v,
{
    match v {
        Json::Array(items) => {
            let s = stripped(v)->Array_0;
            assert forall|i: int| 0 <= i < s.len() implies #[trigger] is_slim(s[i]) by {
                lemma_stripped_is_slim(items[i]);
            }
            lemma_all_slim(s, s.len());
            assert(stripped(v) == Json::Array(s));
        },
        Json::Object(ks, vs) => {
            lemma_kept_members_bounds(ks, vs, vs.len());
            let keep = kept_members(ks, vs, vs.len());
            let sk = stripped(v)->Object_0;
            let sv = stripped(v)->Object_1;
            assert forall|j: int| #![trigger sv[j]] 0 <= j < sv.len() implies member_kept(sk[j], sv[j])
                && is_slim(sv[j]) by {
                assert(0 <= keep[j] < vs.len());
                assert(member_kept(ks[keep[j]], vs[keep[j]]));
                lemma_stripped_is_slim(vs[keep[j]]);
                if sv[j] is Null {
                    lemma_stripped_null(vs[keep[j]]);
                }
            }
            lemma_members_slim_intro(sk, sv, sv.len());
            assert(stripped(v) == Json::Object(sk, sv));
        },
        _ => {},
    }
}

proof fn lemma_stripped_null(v: Json)
    ensures
        stripped(v) is Null ==> v is Null,
{
}

proof fn lemma_kept_all(ks: Seq<Seq<char>>, vs: Seq<Json>, n: nat)
    requires
        n <= vs.len(),
        forall|i: int| 0 <= i < n ==> #[trigger] member_kept(ks[i], vs[i]),
    ensures
        kept_members(ks, vs, n) == Seq::new(n, |i: int| i),
    decreases n,
{
    if n > 0 {
        lemma_kept_all(ks, vs, (n - 1) as nat);
        assert(member_kept(ks[n - 1], vs[n - 1]));
        assert(kept_members(ks, vs, n) =~= Seq::new(n, |i: int| i));
    }
}

/// A slim value is left as it is.
pub proof fn lemma_slim_unchanged(v: Json)
    requires
        is_slim(v),
    ensures
        stripped(v) == v,
    decreases v,
{
    match v {
        Json::Array(items) => {
            let s = stripped(v)->Array_0;
            lemma_all_slim(items, items.len());
            assert forall|i: int| 0 <= i < items.len() implies s[i] == items[i] by {
                assert(is_slim(items[i]));
                lemma_slim_unchanged(items[i]);
            }
            assert(s =~= items);
        },
        Json::Object(ks, vs) => {
            assert forall|i: int| 0 <= i < vs.len() implies #[trigger] member_kept(ks[i], vs[i]) by {
                lemma_members_slim_elim(ks, vs, vs.len(), i);
            }
            lemma_kept_all(ks, vs, vs.len());
            let sk = stripped(v)->Object_0;
            let sv = stripped(v)->Object_1;
            assert forall|i: int| 0 <= i < vs.len() implies sv[i] == vs[i] by {
                lemma_members_slim_elim(ks, vs, vs.len(), i);
                lemma_slim_unchanged(vs[i]);
            }
            assert(sk =~= ks);
            assert(sv =~= vs);
        },
        _ => {},
    }
}

/// Slimming twice is slimming once.
pub proof fn lemma_strip_idempotent(v: Json)
    ensures
        stripped(stripped(v)) == stripped(v),
{
    lemma_stripped_is_slim(v);
    lemma_slim_unchanged(stripped(v));
}

} // verus!
