use vstd::prelude::*;

use crate::json::{
    member_text, obj_text, str_text, string_from_chars, write_obj, write_str_text, JsonValue,
};

verus! {

/// The key under which the operation document travels in the request body.
pub open spec fn query_key() -> Seq<char> {
    "query"@
}

/// The key under which the variables travel in the request body.
pub open spec fn variables_key() -> Seq<char> {
    "variables"@
}

/// The named variables of one GraphQL operation: a mapping from variable name
/// to JSON value, kept in insertion order.
pub struct Variables {
    entries: Vec<(String, JsonValue)>,
}

impl Variables {
    /// The mapping's entries, in order.
    pub closed spec fn entries_seq(self) -> Seq<(String, JsonValue)> {
        self.entries@
    }

    /// Whether some entry carries this name.
    pub open spec fn has_key(self, key: Seq<char>) -> bool {
        exists|i: int|
            0 <= i < self.entries_seq().len() && self.entries_seq()[i].0@ == key
    }

    /// Well-formedness: no two entries carry the same name.
    pub open spec fn keys_unique(self) -> bool {
        forall|i: int, j: int|
            0 <= i < j < self.entries_seq().len() ==> self.entries_seq()[i].0@
                != self.entries_seq()[j].0@
    }

    /// An empty mapping.
    pub fn new() -> (r: Variables)
        ensures
            r.entries_seq() == Seq::<(String, JsonValue)>::empty(),
    {
        Variables { entries: Vec::new() }
    }

    /// How many variables the mapping holds.
    pub fn len(&self) -> (n: usize)
        ensures
            n == self.entries_seq().len(),
    {
        self.entries.len()
    }

    /// Binds `key` to `value`: replaces the value of the first entry already
    /// named `key`, or appends a new entry when none is.
    pub fn insert(&mut self, key: String, value: JsonValue)
        ensures
            !old(self).has_key(key@) ==> final(self).entries_seq() == old(
                self,
            ).entries_seq().push((key, value)),
            old(self).has_key(key@) ==> exists|i: int|
                0 <= i < old(self).entries_seq().len() && old(self).entries_seq()[i].0@ == key@
                    && (forall|j: int| 0 <= j < i ==> old(self).entries_seq()[j].0@ != key@)
                    && final(self).entries_seq() == old(self).entries_seq().update(
                    i,
                    (key, value),
                ),
            old(self).keys_unique() ==> final(self).keys_unique(),
    {
        let ghost entries0 = self.entries@;
        let n: usize = self.entries.len();
        let mut i: usize = 0;
        while i < n
            invariant
                old(self).entries_seq() == entries0,
                self.entries@ == entries0,
                n == entries0.len(),
                i <= n,
                forall|j: int| 0 <= j < i ==> entries0[j].0@ != key@,
            decreases n - i,
        {
            if self.entries[i].0 == key {
                let ghost i0 = i as int;
                self.entries[i] = (key, value);
                proof {
                    assert(old(self).entries_seq() == entries0);
                    assert(entries0[i0].0@ == key@);
                    assert(old(self).has_key(key@));
                    assert(self.entries@ == entries0.update(i0, (key, value)));
                    if old(self).keys_unique() {
                        assert forall|p: int, q: int|
                            0 <= p < q < self.entries@.len() implies self.entries@[p].0@
                            != self.entries@[q].0@ by {
                            assert(old(self).entries_seq()[p].0@ != old(self).entries_seq()[q].0@);
                        }
                    }
                }
                return ;
            }
            i += 1;
        }
        self.entries.push((key, value));
        proof {
            assert(old(self).entries_seq() == entries0);
            assert(!old(self).has_key(key@));
            if old(self).keys_unique() {
                assert forall|p: int, q: int|
                    0 <= p < q < self.entries@.len() implies self.entries@[p].0@
                    != self.entries@[q].0@ by {
                    if q < entries0.len() {
                        assert(old(self).entries_seq()[p].0@ != old(self).entries_seq()[q].0@);
                    } else {
                        assert(entries0[p].0@ != key@);
                    }
                }
            }
        }
    }
}

/// The text of the request body: a JSON object with a `query` member holding
/// the operation document, and — exactly when a mapping was supplied — a
/// `variables` member holding that mapping re-encoded as a JSON object.
pub open spec fn envelope_text(
    query: Seq<char>,
    vars: Option<Seq<(String, JsonValue)>>,
) -> Seq<char> {
    match vars {
        Option::None => seq!['{'] + member_text(query_key(), str_text(query)) + seq!['}'],
        Option::Some(fs) => seq!['{'] + member_text(query_key(), str_text(query)) + seq![',']
            + member_text(variables_key(), obj_text(fs)) + seq!['}'],
    }
}

/// The serialized request body for one operation.
pub fn build_body(query: &str, variables: Option<&Variables>) -> (r: String)
    ensures
        variables is None ==> r@ == envelope_text(query@, Option::None),
        variables matches Some(vs) ==> r@ == envelope_text(
            query@,
            Option::Some(vs.entries_seq()),
        ),
{
    let mut out: Vec<char> = Vec::new();
    out.push('{');
    write_str_text("query", &mut out);
    out.push(':');
    write_str_text(query, &mut out);
    match variables {
        Option::None => {
            out.push('}');
            assert(out@ =~= envelope_text(query@, Option::None));
        },
        Option::Some(vs) => {
            out.push(',');
            write_str_text("variables", &mut out);
            out.push(':');
            write_obj(&vs.entries, &mut out);
            out.push('}');
            assert(out@ =~= envelope_text(query@, Option::Some(vs.entries_seq())));
        },
    }
    string_from_chars(&out)
}

/// The text of a JSON object built from the given (key, value text) members.
pub open spec fn members_join_from(ms: Seq<(Seq<char>, Seq<char>)>, i: int) -> Seq<char>
    decreases ms.len() - i,
{
    if i < 0 || i >= ms.len() {
        Seq::empty()
    } else {
        (if i == 0 {
            Seq::<char>::empty()
        } else {
            seq![',']
        }) + member_text(ms[i].0, ms[i].1) + members_join_from(ms, i + 1)
    }
}

/// A JSON object whose members are exactly `ms`, in order.
pub open spec fn object_text(ms: Seq<(Seq<char>, Seq<char>)>) -> Seq<char> {
    seq!['{'] + members_join_from(ms, 0) + seq!['}']
}

/// Law: the request body is the serialization of a JSON object whose members
/// are exactly a `query` member holding the operation document — and nothing
/// else — when no variables were supplied, and exactly that member followed by
/// a `variables` member holding the supplied mapping re-encoded as a JSON
/// object, when they were.
pub proof fn lemma_envelope_members(query: Seq<char>, vars: Option<Seq<(String, JsonValue)>>)
    ensures
        vars is None ==> envelope_text(query, vars) == object_text(
            seq![(query_key(), str_text(query))],
        ),
        vars matches Some(fs) ==> envelope_text(query, vars) == object_text(
            seq![(query_key(), str_text(query)), (variables_key(), obj_text(fs))],
        ),
{
    match vars {
        Option::None => {
            let ms = seq![(query_key(), str_text(query))];
            assert(members_join_from(ms, 1) == Seq::<char>::empty());
            assert(envelope_text(query, vars) =~= object_text(ms));
        },
        Option::Some(fs) => {
            let ms = seq![(query_key(), str_text(query)), (variables_key(), obj_text(fs))];
            assert(members_join_from(ms, 2) == Seq::<char>::empty());
            assert(members_join_from(ms, 1) == seq![','] + member_text(
                variables_key(),
                obj_text(fs),
            ) + members_join_from(ms, 2));
            assert(envelope_text(query, vars) =~= object_text(ms));
        },
    }
}

} // verus!

