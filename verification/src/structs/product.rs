use vstd::prelude::*;

verus! {

/// A row of the `product` table.
pub struct ProductStruct {
    pub id: i32,
    pub name: String,
    pub price: i32,
    pub amount: i32,
}

/// The fields a client sends to add or update a product.
pub struct ProductInput {
    pub name: String,
    pub price: i32,
    pub amount: i32,
}

impl ProductStruct {
    /// A copy equal to this one field by field.
    pub fn duplicate(&self) -> (copy: Self)
        ensures
            copy == *self,
    {
        ProductStruct {
            id: self.id,
            name: self.name.clone(),
            price: self.price,
            amount: self.amount,
        }
    }
}

} // verus!
