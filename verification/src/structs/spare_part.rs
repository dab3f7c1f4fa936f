use vstd::prelude::*;

verus! {

/// A row of the `spare_part` table.
pub struct SparePartStruct {
    pub id: i32,
    pub name: String,
    pub price: i32,
}

/// The fields a client sends to add or update a spare part.
pub struct SparePartInput {
    pub name: String,
    pub price: i32,
}

impl SparePartStruct {
    /// A copy equal to this one field by field.
    pub fn duplicate(&self) -> (copy: Self)
        ensures
            copy == *self,
    {
        SparePartStruct {
            id: self.id,
            name: self.name.clone(),
            price: self.price,
        }
    }
}

} // verus!
