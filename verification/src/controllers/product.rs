//! The product endpoints.
use vstd::prelude::*;

use crate::helpers::database::Lookup;
use crate::helpers::response::{
    is_database_error_answer, is_missing_fields_answer, is_plain_answer, lemma_status_word_codes,
    plain_answer, product_records, products_to_records, JsonResponse, Record, HTTP_BAD_REQUEST,
    HTTP_INTERNAL_SERVER_ERROR, HTTP_OK,
};
use crate::structs::product::{ProductInput, ProductStruct};

verus! {

/// The next move while adding a product.
pub enum AddProductStep {
    /// Answer with this response; nothing is written.
    Respond(JsonResponse),
    /// Look for a product with the name of this input, then hand the outcome
    /// to `add_product_checked`.
    FindByName(ProductInput),
    /// Insert this product, then answer with `add_product_done` on the
    /// inserted rows.
    Insert(ProductInput),
}

/// The answer to `find`, `update` or `delete` given the rows the query
/// touched: "not found" when there are none.
pub open spec fn is_rows_answer(r: JsonResponse, rows: Seq<ProductStruct>, done: Seq<char>) -> bool {
    if rows.len() == 0 {
        is_plain_answer(r, "failed"@, "Product not found"@, Seq::empty())
    } else {
        is_plain_answer(r, "success"@, done, product_records(rows))
    }
}

fn rows_answer(rows: Vec<ProductStruct>, done: &str) -> (r: JsonResponse)
    ensures
        is_rows_answer(r, rows@, done@),
{
    let data = products_to_records(&rows);
    if data.len() == 0 {
        plain_answer("failed", "Product not found", Vec::new())
    } else {
        plain_answer("success", done, data)
    }
}

/// Get all products: answer with every row.
pub fn get_product(rows: Vec<ProductStruct>) -> (r: JsonResponse)
    ensures
        is_plain_answer(r, "success"@, "Successfully retrieved product"@, product_records(rows@)),
{
    let data = products_to_records(&rows);
    plain_answer("success", "Successfully retrieved product", data)
}

/// Add new product: a product needs a name, then its name is looked up.
pub fn add_product(input: ProductInput) -> (step: AddProductStep)
    ensures
        input.name@.len() == 0 ==> (step matches AddProductStep::Respond(r) && is_missing_fields_answer(r)),
        input.name@.len() > 0 ==> step == AddProductStep::FindByName(input),
{
    if input.name.unicode_len() == 0 {
        AddProductStep::Respond(plain_answer("failed", "Please fill all fields", Vec::new()))
    } else {
        AddProductStep::FindByName(input)
    }
}

/// After looking up the name: a name in use is refused, a failed lookup is
/// an error, a free name is inserted.
pub fn add_product_checked(input: ProductInput, existing: Lookup<ProductStruct>) -> (step: AddProductStep)
    ensures
        match existing {
            Lookup::Found(_) => step matches AddProductStep::Respond(r)
                && is_plain_answer(r, "failed"@, "Product already exists"@, Seq::empty()),
            Lookup::Missing => step == AddProductStep::Insert(input),
            Lookup::Failed => step matches AddProductStep::Respond(r) && is_database_error_answer(r),
        },
{
    match existing {
        Lookup::Found(_) => AddProductStep::Respond(
            plain_answer("failed", "Product already exists", Vec::new()),
        ),
        Lookup::Missing => AddProductStep::Insert(input),
        Lookup::Failed => AddProductStep::Respond(
            plain_answer("error", "Something went wrong", Vec::new()),
        ),
    }
}

/// After the insert: answer with the inserted rows, nested as one array.
pub fn add_product_done(rows: Vec<ProductStruct>) -> (r: JsonResponse)
    ensures
        is_plain_answer(r, "success"@, "Successfully added product"@, seq![Record::ProductBatch(rows)]),
{
    let mut data: Vec<Record> = Vec::new();
    data.push(Record::ProductBatch(rows));
    plain_answer("success", "Successfully added product", data)
}

/// Find product by id, given the rows with that id.
pub fn find_product(rows: Vec<ProductStruct>) -> (r: JsonResponse)
    ensures
        is_rows_answer(r, rows@, "Successfully retrieved product"@),
{
    rows_answer(rows, "Successfully retrieved product")
}

/// Update product by id, given the rows the update changed.
pub fn update_product(rows: Vec<ProductStruct>) -> (r: JsonResponse)
    ensures
        is_rows_answer(r, rows@, "Successfully updated product"@),
{
    rows_answer(rows, "Successfully updated product")
}

/// Delete product by id, given the rows the delete removed.
pub fn delete_product(rows: Vec<ProductStruct>) -> (r: JsonResponse)
    ensures
        is_rows_answer(r, rows@, "Successfully deleted product"@),
{
    rows_answer(rows, "Successfully deleted product")
}

/// Refusals for empty fields are 400 answers and database failures 500
/// answers, both with an empty `data` array; find, update and delete answer
/// 400 with no data when no row matched, and 200 with one element per row
/// otherwise.
pub proof fn law_product_answer_codes(r: JsonResponse, rows: Seq<ProductStruct>, done: Seq<char>)
    ensures
        is_missing_fields_answer(r) ==> r.code == HTTP_BAD_REQUEST && r.body.data@.len() == 0
            && r.body.message@ == "Please fill all fields"@ && r.cookie is None,
        is_database_error_answer(r) ==> r.code == HTTP_INTERNAL_SERVER_ERROR && r.body.data@.len()
            == 0 && r.body.message@ == "Something went wrong"@ && r.cookie is None,
        is_rows_answer(r, rows, done) && rows.len() == 0 ==> r.code == HTTP_BAD_REQUEST
            && r.body.data@.len() == 0 && r.body.message@ == "Product not found"@,
        is_rows_answer(r, rows, done) && rows.len() > 0 ==> r.code == HTTP_OK && r.body.message@
            == done && r.body.data@.len() == rows.len() && forall|i: int|
            0 <= i < rows.len() ==> #[trigger] r.body.data@[i] == Record::Product(rows[i]),
{
    lemma_status_word_codes();
    crate::helpers::response::law_records_are_the_rows(rows, Seq::empty(), Seq::empty());
}

} // verus!
