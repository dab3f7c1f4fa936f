//! The spare part endpoints.
use vstd::prelude::*;

use crate::helpers::response::{
    is_missing_fields_answer, is_plain_answer, lemma_status_word_codes, plain_answer,
    spare_part_records, spare_parts_to_records, JsonResponse, Record, HTTP_BAD_REQUEST, HTTP_OK,
};
use crate::structs::spare_part::{SparePartInput, SparePartStruct};

verus! {

/// The next move while adding a spare part.
pub enum AddSparePartStep {
    /// Answer with this response; nothing is written.
    Respond(JsonResponse),
    /// Insert this spare part, then answer with `add_spare_part_done` on the
    /// inserted rows.
    Insert(SparePartInput),
}

/// The answer to `find`, `update` or `delete` given the rows the query
/// touched: "not found" when there are none.
pub open spec fn is_spare_rows_answer(r: JsonResponse, rows: Seq<SparePartStruct>, done: Seq<char>) -> bool {
    if rows.len() == 0 {
        is_plain_answer(r, "failed"@, "Spare part not found"@, Seq::empty())
    } else {
        is_plain_answer(r, "success"@, done, spare_part_records(rows))
    }
}

fn rows_answer(rows: Vec<SparePartStruct>, done: &str) -> (r: JsonResponse)
    ensures
        is_spare_rows_answer(r, rows@, done@),
{
    let data = spare_parts_to_records(&rows);
    if data.len() == 0 {
        plain_answer("failed", "Spare part not found", Vec::new())
    } else {
        plain_answer("success", done, data)
    }
}

/// Get all spare parts: answer with every row.
pub fn get_spare_part(rows: Vec<SparePartStruct>) -> (r: JsonResponse)
    ensures
        is_plain_answer(r, "success"@, "Successfully retrieved spare part"@, spare_part_records(rows@)),
{
    let data = spare_parts_to_records(&rows);
    plain_answer("success", "Successfully retrieved spare part", data)
}

/// Add new spare part: a spare part needs a name.
pub fn add_spare_part(input: SparePartInput) -> (step: AddSparePartStep)
    ensures
        input.name@.len() == 0 ==> (step matches AddSparePartStep::Respond(r) && is_missing_fields_answer(r)),
        input.name@.len() > 0 ==> step == AddSparePartStep::Insert(input),
{
    if input.name.unicode_len() == 0 {
        AddSparePartStep::Respond(plain_answer("failed", "Please fill all fields", Vec::new()))
    } else {
        AddSparePartStep::Insert(input)
    }
}

/// After the insert: answer with the inserted rows, nested as one array.
pub fn add_spare_part_done(rows: Vec<SparePartStruct>) -> (r: JsonResponse)
    ensures
        is_plain_answer(r, "success"@, "Successfully added spare part"@, seq![Record::SparePartBatch(rows)]),
{
    let mut data: Vec<Record> = Vec::new();
    data.push(Record::SparePartBatch(rows));
    plain_answer("success", "Successfully added spare part", data)
}

/// Find spare part by id, given the rows with that id.
pub fn find_spare_part(rows: Vec<SparePartStruct>) -> (r: JsonResponse)
    ensures
        is_spare_rows_answer(r, rows@, "Successfully retrieved spare part"@),
{
    rows_answer(rows, "Successfully retrieved spare part")
}

/// Update spare part by id, given the rows the update changed.
pub fn update_spare_part(rows: Vec<SparePartStruct>) -> (r: JsonResponse)
    ensures
        is_spare_rows_answer(r, rows@, "Successfully updated spare part"@),
{
    rows_answer(rows, "Successfully updated spare part")
}

/// Delete spare part by id, given the rows the delete removed.
pub fn delete_spare_part(rows: Vec<SparePartStruct>) -> (r: JsonResponse)
    ensures
        is_spare_rows_answer(r, rows@, "Successfully deleted spare part"@),
{
    rows_answer(rows, "Successfully deleted spare part")
}

/// Find, update and delete of spare parts answer 400 with no data when no
/// row matched, and 200 with one element per row otherwise.
pub proof fn law_spare_part_answer_codes(r: JsonResponse, rows: Seq<SparePartStruct>, done: Seq<char>)
    ensures
        is_spare_rows_answer(r, rows, done) && rows.len() == 0 ==> r.code == HTTP_BAD_REQUEST
            && r.body.data@.len() == 0 && r.body.message@ == "Spare part not found"@,
        is_spare_rows_answer(r, rows, done) && rows.len() > 0 ==> r.code == HTTP_OK
            && r.body.message@ == done && r.body.data@.len() == rows.len() && forall|i: int|
            0 <= i < rows.len() ==> #[trigger] r.body.data@[i] == Record::SparePart(rows[i]),
{
    lemma_status_word_codes();
    crate::helpers::response::law_records_are_the_rows(Seq::empty(), rows, Seq::empty());
}

} // verus!
