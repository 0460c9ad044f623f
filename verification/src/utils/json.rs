//! A JSON document model and the pruning that patch bodies go through.

use vstd::prelude::*;

verus! {

/// The mathematical model of a JSON value.
///
/// An object is the sequence of its members in document order; a number is
/// kept as its decimal text.
pub enum Json {
    Null,
    Bool(bool),
    Number(Seq<char>),
    Text(Seq<char>),
    Array(Seq<Json>),
    Object(Seq<(Seq<char>, Json)>),
}

/// A JSON value as the library holds it.
#[derive(Debug, PartialEq, Eq)]
pub enum JsonValue {
    Null,
    Bool(bool),
    Number(String),
    Text(String),
    Array(Vec<JsonValue>),
    Object(Vec<(String, JsonValue)>),
}

/// The model of each item of a list, in order.
pub open spec fn items_view(items: Seq<JsonValue>) -> Seq<Json>
    decreases items,
{
    if items.len() == 0 {
        Seq::empty()
    } else {
        items_view(items.drop_last()).push(items.last().view())
    }
}

/// The model of each member of an object, in order: its name and the model
/// of its value.
pub open spec fn members_view(members: Seq<(String, JsonValue)>) -> Seq<(Seq<char>, Json)>
    decreases members,
{
    if members.len() == 0 {
        Seq::empty()
    } else {
        members_view(members.drop_last()).push((members.last().0@, members.last().1.view()))
    }
}

impl View for JsonValue {
    type V = Json;

    open spec fn view(&self) -> Json
        decreases self,
    {
        match self {
            JsonValue::Null => Json::Null,
            JsonValue::Bool(b) => Json::Bool(*b),
            JsonValue::Number(n) => Json::Number(n@),
            JsonValue::Text(s) => Json::Text(s@),
            JsonValue::Array(items) => Json::Array(items_view(items@)),
            JsonValue::Object(members) => Json::Object(members_view(members@)),
        }
    }
}

/// Whether a member's value counts as unset: null, an empty string, an empty
/// list or an empty object.
pub open spec fn is_unset(v: Json) -> bool {
    match v {
        Json::Null => true,
        Json::Text(s) => s.len() == 0,
        Json::Array(items) => items.len() == 0,
        Json::Object(members) => members.len() == 0,
        _ => false,
    }
}

/// The name of the member that carries the identifier.
pub open spec fn id_key() -> Seq<char> {
    seq!['i', 'd']
}

/// Whether pruning keeps a member: it is not the identifier and it is set.
pub open spec fn survives(member: (Seq<char>, Json)) -> bool {
    member.0 != id_key() && !is_unset(member.1)
}

/// The pruned form of a value. An object loses its identifier and its unset
/// members, and each member that stays is pruned in turn; any other value is
/// left as it is.
pub open spec fn pruned(v: Json) -> Json
    decreases v,
{
    match v {
        Json::Object(members) => Json::Object(pruned_members(members)),
        _ => v,
    }
}

/// The members of an object that survive, each with its value pruned, in
/// the order they had.
pub open spec fn pruned_members(members: Seq<(Seq<char>, Json)>) -> Seq<(Seq<char>, Json)>
    decreases members,
{
    if members.len() == 0 {
        Seq::empty()
    } else if survives(members.last()) {
        pruned_members(members.drop_last()).push((members.last().0, pruned(members.last().1)))
    } else {
        pruned_members(members.drop_last())
    }
}

/// Whether `key` is the two letters `id`.
fn is_id_key(key: &String) -> (r: bool)
    ensures
        r == (key@ == id_key()),
{
    let s = key.as_str();
    let n = s.unicode_len();
    if n != 2 {
        false
    } else {
        let c0 = s.get_char(0);
        let c1 = s.get_char(1);
        proof {
            if c0 == 'i' && c1 == 'd' {
                assert(key@ =~= id_key());
            }
        }
        c0 == 'i' && c1 == 'd'
    }
}

/// Whether a value is null, an empty string, an empty list or an empty
/// object.
fn value_is_unset(v: &JsonValue) -> (r: bool)
    ensures
        r == is_unset(v@),
{
    match v {
        JsonValue::Null => true,
        JsonValue::Text(s) => s.as_str().unicode_len() == 0,
        JsonValue::Array(items) => {
            proof {
                lemma_items_view(items@);
            }
            items.len() == 0
        },
        JsonValue::Object(members) => {
            proof {
                lemma_members_view(members@);
            }
            members.len() == 0
        },
        _ => false,
    }
}

/// The model of a list holds the model of each item at the item's place.
pub proof fn lemma_items_view(items: Seq<JsonValue>)
    ensures
        items_view(items).len() == items.len(),
        forall|i: int| 0 <= i < items.len() ==> #[trigger] items_view(items)[i] == items[i]@,
    decreases items.len(),
{
    if items.len() > 0 {
        lemma_items_view(items.drop_last());
        assert(items_view(items) == items_view(items.drop_last()).push(items.last().view()));
    }
}

/// The model of an object holds the model of each member at the member's
/// place.
pub proof fn lemma_members_view(members: Seq<(String, JsonValue)>)
    ensures
        members_view(members).len() == members.len(),
        forall|i: int|
            0 <= i < members.len() ==> #[trigger] members_view(members)[i] == (
                members[i].0@,
                members[i].1@,
            ),
    decreases members.len(),
{
    if members.len() > 0 {
        lemma_members_view(members.drop_last());
        assert(members_view(members) == members_view(members.drop_last()).push(
            (members.last().0@, members.last().1.view()),
        ));
    }
}

/// Prunes a patch body: removes from every object the member `id` and the
/// members whose value is null or empty, and prunes the members that stay.
pub fn filter_empty_fields(value: JsonValue) -> (out: JsonValue)
    ensures
        out@ == pruned(value@),
    decreases value,
{
    match value {
        JsonValue::Object(members) => {
            let ghost all = members@;
            let mut rest = members;
            let mut kept_rev: Vec<(String, JsonValue)> = Vec::new();
            assert forall|i: int| 0 <= i < all.len() implies decreases_to!(value => all[i].1) by {
                assert(decreases_to!(rest => rest[i]));
            }
            assert(members_view(Seq::<(String, JsonValue)>::empty().reverse()) =~= Seq::empty());
            while rest.len() > 0
                invariant
                    rest@.len() <= all.len(),
                    forall|i: int| 0 <= i < rest@.len() ==> rest@[i] == all[i],
                    forall|i: int| 0 <= i < all.len() ==> decreases_to!(value => all[i].1),
                    pruned_members(members_view(all)) =~= pruned_members(members_view(rest@))
                        + members_view(kept_rev@.reverse()),
                decreases rest@.len(),
            {
                let ghost before = rest@;
                let ghost kept_before = kept_rev@;
                let (key, child) = rest.pop().unwrap();
                let ghost member = (key@, child@);
                proof {
                    assert(rest@ =~= before.drop_last());
                    assert(before.last() == (key, child));
                    assert(before.last() == all[before.len() - 1]);
                    let mv = members_view(before);
                    assert(mv == members_view(before.drop_last()).push(member));
                    assert(mv.drop_last() =~= members_view(rest@));
                    assert(mv.last() == member);
                    assert(pruned_members(mv) == if survives(member) {
                        pruned_members(mv.drop_last()).push((member.0, pruned(member.1)))
                    } else {
                        pruned_members(mv.drop_last())
                    });
                }
                let drop = is_id_key(&key) || value_is_unset(&child);
                if !drop {
                    let pruned_child = filter_empty_fields(child);
                    let ghost entry = (key, pruned_child);
                    kept_rev.push((key, pruned_child));
                    proof {
                        assert(kept_rev@.reverse() =~= seq![entry] + kept_before.reverse());
                        lemma_members_view_concat(seq![entry], kept_before.reverse());
                        let one = seq![entry];
                        assert(one.last() == entry);
                        assert(members_view(one) == members_view(one.drop_last()).push(
                            (entry.0@, entry.1@),
                        ));
                        assert(members_view(one.drop_last()) =~= Seq::empty());
                        assert(members_view(one) =~= seq![(member.0, pruned(member.1))]);
                    }
                }
            }
            assert(rest@ =~= Seq::<(String, JsonValue)>::empty());
            let ghost kept = kept_rev@;
            let mut kept_fwd: Vec<(String, JsonValue)> = Vec::new();
            while kept_rev.len() > 0
                invariant
                    kept_rev@.len() <= kept.len(),
                    kept_rev@ =~= kept.subrange(0, kept_rev@.len() as int),
                    kept_fwd@ =~= kept.subrange(kept_rev@.len() as int, kept.len() as int).reverse(),
                decreases kept_rev@.len(),
            {
                let entry = kept_rev.pop().unwrap();
                kept_fwd.push(entry);
            }
            assert(kept_fwd@ =~= kept.reverse());
            assert(members_view(kept_fwd@) =~= pruned_members(members_view(all)));
            JsonValue::Object(kept_fwd)
        },
        other => other,
    }
}

/// The model of two member lists joined is the join of their models.
pub proof fn lemma_members_view_concat(a: Seq<(String, JsonValue)>, b: Seq<(String, JsonValue)>)
    ensures
        members_view(a + b) =~= members_view(a) + members_view(b),
    decreases b.len(),
{
    if b.len() == 0 {
        assert(a + b =~= a);
    } else {
        lemma_members_view_concat(a, b.drop_last());
        assert((a + b).drop_last() =~= a + b.drop_last());
        assert((a + b).last() == b.last());
        assert(members_view(a + b) == members_view((a + b).drop_last()).push(
            ((a + b).last().0@, (a + b).last().1.view()),
        ));
        assert(members_view(b) == members_view(b.drop_last()).push(
            (b.last().0@, b.last().1.view()),
        ));
    }
}


/// After pruning, no member of the object is named `id`, and every member
/// is one that survived, with its value pruned.
pub proof fn lemma_pruned_members_survived(members: Seq<(Seq<char>, Json)>)
    ensures
        forall|i: int|
            0 <= i < pruned_members(members).len() ==> {
                &&& (#[trigger] pruned_members(members)[i]).0 != id_key()
                &&& exists|j: int|
                    0 <= j < members.len() && survives(members[j]) && pruned_members(members)[i]
                        == (members[j].0, pruned(members[j].1))
            },
    decreases members.len(),
{
    if members.len() > 0 {
        let head = members.drop_last();
        lemma_pruned_members_survived(head);
        let out = pruned_members(members);
        assert(out == if survives(members.last()) {
            pruned_members(head).push((members.last().0, pruned(members.last().1)))
        } else {
            pruned_members(head)
        });
        assert forall|i: int| 0 <= i < out.len() implies {
            &&& (#[trigger] out[i]).0 != id_key()
            &&& exists|j: int|
                0 <= j < members.len() && survives(members[j]) && out[i] == (
                    members[j].0,
                    pruned(members[j].1),
                )
        } by {
            if i < pruned_members(head).len() {
                let j = choose|j: int|
                    0 <= j < head.len() && survives(head[j]) && pruned_members(head)[i] == (
                        head[j].0,
                        pruned(head[j].1),
                    );
                assert(members[j] == head[j]);
            } else {
                assert(out[i] == (members.last().0, pruned(members.last().1)));
                assert(members[members.len() - 1] == members.last());
            }
        }
    }
}

/// Whether pruning `v` once is final: no object kept inside `v` is emptied by
/// its own pruning.
pub open spec fn settles(v: Json) -> bool
    decreases v,
{
    match v {
        Json::Object(members) => members_settle(members),
        _ => true,
    }
}

/// Whether every surviving member keeps a set value after pruning, and
/// settles in turn.
pub open spec fn members_settle(members: Seq<(Seq<char>, Json)>) -> bool
    decreases members,
{
    if members.len() == 0 {
        true
    } else {
        &&& members_settle(members.drop_last())
        &&& survives(members.last()) ==> {
            &&& !is_unset(pruned(members.last().1))
            &&& settles(members.last().1)
        }
    }
}

/// Pruning never adds a member.
pub proof fn lemma_pruned_members_len(members: Seq<(Seq<char>, Json)>)
    ensures
        pruned_members(members).len() <= members.len(),
    decreases members.len(),
{
    if members.len() > 0 {
        lemma_pruned_members_len(members.drop_last());
        assert(pruned_members(members) == if survives(members.last()) {
            pruned_members(members.drop_last()).push(
                (members.last().0, pruned(members.last().1)),
            )
        } else {
            pruned_members(members.drop_last())
        });
    }
}

/// Pruning a pruned value gives the same value exactly when the value
/// settles.
pub proof fn lemma_pruned_twice(v: Json)
    ensures
        (pruned(pruned(v)) == pruned(v)) == settles(v),
    decreases v, 1int,
{
    match v {
        Json::Object(members) => {
            lemma_pruned_members_twice(members);
        },
        _ => {},
    }
}

/// The same, for the members of one object.
pub proof fn lemma_pruned_members_twice(members: Seq<(Seq<char>, Json)>)
    ensures
        (pruned_members(pruned_members(members)) == pruned_members(members)) == members_settle(
            members,
        ),
    decreases members, 0int,
{
    if members.len() > 0 {
        let head = members.drop_last();
        let last = members.last();
        let once = pruned_members(members);
        lemma_pruned_members_twice(head);
        assert(once == if survives(last) {
            pruned_members(head).push((last.0, pruned(last.1)))
        } else {
            pruned_members(head)
        });
        if survives(last) {
            let kept = (last.0, pruned(last.1));
            lemma_pruned_twice(last.1);
            assert(once.last() == kept);
            assert(once.drop_last() =~= pruned_members(head));
            assert(pruned_members(once) == if survives(kept) {
                pruned_members(once.drop_last()).push((kept.0, pruned(kept.1)))
            } else {
                pruned_members(once.drop_last())
            });
            if survives(kept) {
                let twice = pruned_members(once);
                assert(twice.last() == (kept.0, pruned(kept.1)));
                assert(twice.drop_last() =~= pruned_members(pruned_members(head)));
                if pruned_members(pruned_members(head)) == pruned_members(head) && pruned(kept.1)
                    == kept.1 {
                    assert(twice =~= once);
                }
            } else {
                lemma_pruned_members_len(pruned_members(head));
            }
        }
    } else {
        assert(pruned_members(members) =~= Seq::empty());
    }
}

/// Pruning is idempotent on every value that settles: pruning the result
/// again gives the same result.
pub proof fn lemma_pruning_is_idempotent(v: Json)
    requires
        settles(v),
    ensures
        pruned(pruned(v)) == pruned(v),
{
    lemma_pruned_twice(v);
}

/// A value that does not settle is changed by a second pruning.
pub proof fn lemma_unsettled_value_is_pruned_further(v: Json)
    requires
        !settles(v),
    ensures
        pruned(pruned(v)) != pruned(v),
{
    lemma_pruned_twice(v);
}

} // verus!
