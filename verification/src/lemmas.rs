use vstd::prelude::*;
use crate::item::ItemModel;
use crate::store::count_name;
use crate::store::delete_models;
use crate::store::update_models;

verus! {

/// A name is absent from a sequence of records exactly when no record
/// carries it.
pub proof fn lemma_count_name_zero(s: Seq<ItemModel>, n: Seq<char>)
    ensures
        count_name(s, n) == 0 <==> (forall|j: int| 0 <= j < s.len() ==> s[j].name != n),
    decreases s.len(),
{
    if s.len() > 0 {
        lemma_count_name_zero(s.drop_last(), n);
        assert(forall|j: int| 0 <= j < s.len() - 1 ==> s.drop_last()[j] == s[j]);
        assert(s.last() == s[s.len() - 1]);
    }
}

/// Appending one record raises the count of its own name by one and
/// leaves every other count unchanged.
proof fn lemma_count_name_push(s: Seq<ItemModel>, x: ItemModel, n: Seq<char>)
    ensures
        x.name == n ==> count_name(s.push(x), n) == count_name(s, n) + 1,
        x.name != n ==> count_name(s.push(x), n) == count_name(s, n),
{
    assert(s.push(x).drop_last() =~= s);
    assert(s.push(x).last() == x);
}

/// Appending one record commutes with deletion: a matching record is
/// dropped, any other is kept at the end.
proof fn lemma_delete_models_push(s: Seq<ItemModel>, x: ItemModel, n: Seq<char>)
    ensures
        x.name == n ==> delete_models(s.push(x), n) == delete_models(s, n),
        x.name != n ==> delete_models(s.push(x), n) == delete_models(s, n).push(x),
{
    assert(s.push(x).drop_last() =~= s);
    assert(s.push(x).last() == x);
}

/// A created record is included in a subsequent listing: after appending
/// `i` to the collection, the collection contains `i`.
pub proof fn lemma_create_then_list_includes(s: Seq<ItemModel>, i: ItemModel)
    ensures
        s.push(i).contains(i),
{
    assert(s.push(i)[s.len() as int] == i);
}

/// After an update of name `n` to description `d`, a listing shows every
/// record named `n` carrying description `d`, and every other record
/// unchanged, in unchanged order.
pub proof fn lemma_update_then_list(s: Seq<ItemModel>, n: Seq<char>, d: Seq<char>)
    ensures
        update_models(s, n, d).len() == s.len(),
        forall|j: int| 0 <= j < s.len() && s[j].name == n
            ==> update_models(s, n, d)[j] == (ItemModel { name: n, description: d }),
        forall|j: int| 0 <= j < s.len() && s[j].name != n ==> update_models(s, n, d)[j] == s[j],
{
}

/// A deletion of name `n` removes all and only the records with that
/// exact name: a subsequent listing excludes every record named `n`,
/// still includes every record with another name, and every other name
/// keeps its multiplicity.
pub proof fn lemma_delete_removes_exactly(s: Seq<ItemModel>, n: Seq<char>)
    ensures
        forall|j: int| 0 <= j < delete_models(s, n).len() ==> delete_models(s, n)[j].name != n,
        forall|x: ItemModel| s.contains(x) && x.name != n ==> delete_models(s, n).contains(x),
        forall|m: Seq<char>| m != n ==> count_name(delete_models(s, n), m) == count_name(s, m),
    decreases s.len(),
{
    if s.len() > 0 {
        let s0 = s.drop_last();
        let x = s.last();
        lemma_delete_removes_exactly(s0, n);
        assert forall|y: ItemModel| s.contains(y) && y.name != n
            implies delete_models(s, n).contains(y) by {
            let k = choose|k: int| 0 <= k < s.len() && s[k] == y;
            if k < s.len() - 1 {
                assert(s0[k] == y);
                assert(s0.contains(y));
            } else {
                assert(y == x);
            }
            if x.name == n {
                assert(delete_models(s, n) == delete_models(s0, n));
            } else {
                broadcast use vstd::seq_lib::lemma_seq_contains_after_push;
                assert(delete_models(s, n) == delete_models(s0, n).push(x));
            }
        };
        assert forall|m: Seq<char>| m != n
            implies count_name(delete_models(s, n), m) == count_name(s, m) by {
            lemma_count_name_push(s0, x, m);
            assert(s0.push(x) =~= s);
            if x.name != n {
                lemma_count_name_push(delete_models(s0, n), x, m);
            }
        };
    }
}

/// Deletion is idempotent: after a deletion of name `n` no record named
/// `n` remains, and a second deletion of `n` leaves the collection
/// unchanged (and, finding nothing, reports zero matches).
pub proof fn lemma_delete_idempotent(s: Seq<ItemModel>, n: Seq<char>)
    ensures
        count_name(delete_models(s, n), n) == 0,
        delete_models(delete_models(s, n), n) == delete_models(s, n),
    decreases s.len(),
{
    lemma_delete_removes_exactly(s, n);
    lemma_count_name_zero(delete_models(s, n), n);
    if s.len() > 0 {
        let s0 = s.drop_last();
        let x = s.last();
        lemma_delete_idempotent(s0, n);
        if x.name != n {
            assert(delete_models(s, n) == delete_models(s0, n).push(x));
            lemma_delete_models_push(delete_models(s0, n), x, n);
        }
    }
}

} // verus!
