use vstd::prelude::*;
use crate::item::Item;
use crate::item::ItemModel;

verus! {

/// The models of a sequence of records.
pub open spec fn models_of(s: Seq<Item>) -> Seq<ItemModel> {
    s.map_values(|i: Item| i@)
}

/// Number of records in `s` whose name is exactly `n`.
pub open spec fn count_name(s: Seq<ItemModel>, n: Seq<char>) -> nat
    decreases s.len(),
{
    if s.len() == 0 {
        0
    } else {
        count_name(s.drop_last(), n) + (if s.last().name == n {
            1nat
        } else {
            0nat
        })
    }
}

/// The sequence after setting the description of every record named `n`
/// to `d`; all other records are unchanged, and order is kept.
pub open spec fn update_models(s: Seq<ItemModel>, n: Seq<char>, d: Seq<char>) -> Seq<ItemModel> {
    Seq::new(s.len(), |j: int| if s[j].name == n {
        ItemModel { name: n, description: d }
    } else {
        s[j]
    })
}

/// The sequence after removing every record named `n`; the order of the
/// remaining records is kept.
pub open spec fn delete_models(s: Seq<ItemModel>, n: Seq<char>) -> Seq<ItemModel>
    decreases s.len(),
{
    if s.len() == 0 {
        Seq::empty()
    } else if s.last().name == n {
        delete_models(s.drop_last(), n)
    } else {
        delete_models(s.drop_last(), n).push(s.last())
    }
}

/// The document collection, modelled as the sequence of its records in
/// insertion order. The persistence layer is the sole source of truth:
/// every operation reads or rewrites this one collection.
pub struct Store {
    items: Vec<Item>,
}

impl View for Store {
    type V = Seq<ItemModel>;

    closed spec fn view(&self) -> Seq<ItemModel> {
        models_of(self.items@)
    }
}

impl Store {
    /// An empty collection.
    pub fn new() -> (s: Store)
        ensures
            s@ == Seq::<ItemModel>::empty(),
    {
        let s = Store { items: Vec::new() };
        proof {
            assert(s@ =~= Seq::<ItemModel>::empty());
        }
        s
    }

    /// Insert one record at the end of the collection.
    pub fn insert(&mut self, item: Item)
        ensures
            final(self)@ == old(self)@.push(item@),
    {
        self.items.push(item);
        proof {
            broadcast use vstd::prelude::Seq::lemma_push_map_commute;
            assert(self@ =~= old(self)@.push(item@));
        }
    }

    /// Materialize every record, in collection order.
    pub fn find_all(&self) -> (v: Vec<Item>)
        ensures
            models_of(v@) == self@,
    {
        let mut v: Vec<Item> = Vec::new();
        let n = self.items.len();
        let mut i: usize = 0;
        while i < n
            invariant
                n == self.items.len(),
                i <= n,
                v@.len() == i,
                forall|j: int| 0 <= j < i ==> v@[j]@ == self.items@[j]@,
            decreases n - i,
        {
            let it = &self.items[i];
            v.push(it.duplicate());
            i += 1;
        }
        proof {
            assert(models_of(v@) =~= self@);
        }
        v
    }

    /// Set the description of every record whose name equals `name` to
    /// `description`, and report how many records matched.
    pub fn update_by_name(&mut self, name: &String, description: &String) -> (matched: usize)
        ensures
            final(self)@ == update_models(old(self)@, name@, description@),
            matched == count_name(old(self)@, name@),
    {
        let n = self.items.len();
        let mut out: Vec<Item> = Vec::new();
        let mut matched: usize = 0;
        let mut i: usize = 0;
        while i < n
            invariant
                n == self.items.len(),
                i <= n,
                out@.len() == i,
                matched <= i,
                matched == count_name(self@.take(i as int), name@),
                forall|j: int| 0 <= j < i ==> out@[j]@ == update_models(self@, name@, description@)[j],
            decreases n - i,
        {
            let it = &self.items[i];
            if it.name == *name {
                out.push(Item { name: it.name.clone(), description: description.clone() });
                matched = matched + 1;
            } else {
                out.push(it.duplicate());
            }
            proof {
                assert(self@.take(i + 1).drop_last() =~= self@.take(i as int));
                assert(self@.take(i + 1).last() == self@[i as int]);
            }
            i += 1;
        }
        proof {
            assert(self@.take(n as int) =~= self@);
        }
        self.items = out;
        proof {
            assert(self@ =~= update_models(old(self)@, name@, description@));
        }
        matched
    }

    /// Remove every record whose name equals `name`, and report how many
    /// records were deleted.
    pub fn delete_by_name(&mut self, name: &String) -> (deleted: usize)
        ensures
            final(self)@ == delete_models(old(self)@, name@),
            deleted == count_name(old(self)@, name@),
    {
        let n = self.items.len();
        let mut out: Vec<Item> = Vec::new();
        let mut deleted: usize = 0;
        let mut i: usize = 0;
        proof {
            assert(models_of(out@) =~= delete_models(self@.take(0), name@));
        }
        while i < n
            invariant
                n == self.items.len(),
                i <= n,
                deleted <= i,
                deleted == count_name(self@.take(i as int), name@),
                models_of(out@) == delete_models(self@.take(i as int), name@),
            decreases n - i,
        {
            let it = &self.items[i];
            let ghost prev = out@;
            if it.name == *name {
                deleted = deleted + 1;
            } else {
                out.push(it.duplicate());
                proof {
                    broadcast use vstd::prelude::Seq::lemma_push_map_commute;
                    assert(models_of(out@) =~= models_of(prev).push(self@[i as int]));
                }
            }
            proof {
                assert(self@.take(i + 1).drop_last() =~= self@.take(i as int));
                assert(self@.take(i + 1).last() == self@[i as int]);
            }
            i += 1;
        }
        proof {
            assert(self@.take(n as int) =~= self@);
        }
        self.items = out;
        deleted
    }
}

} // verus!
