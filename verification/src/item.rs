use vstd::prelude::*;

verus! {

/// A persisted record. `name` is the business key by which updates and
/// deletions select their targets; `description` is free text.
pub struct Item {
    pub name: String,
    pub description: String,
}

/// The mathematical value of an [`Item`]: both fields as character sequences.
pub ghost struct ItemModel {
    pub name: Seq<char>,
    pub description: Seq<char>,
}

impl View for Item {
    type V = ItemModel;

    open spec fn view(&self) -> ItemModel {
        ItemModel { name: self.name@, description: self.description@ }
    }
}

impl Item {
    /// A field-by-field copy carrying the same model value.
    pub fn duplicate(&self) -> (r: Item)
        ensures
            r@ == self@,
    {
        Item { name: self.name.clone(), description: self.description.clone() }
    }
}

/// Identifies the target of a deletion; carries only the key. Not persisted.
pub struct DeleteRequest {
    pub name: String,
}

impl View for DeleteRequest {
    type V = Seq<char>;

    open spec fn view(&self) -> Seq<char> {
        self.name@
    }
}

} // verus!
