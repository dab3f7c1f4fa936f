use actix_api::controllers::fallback::fallback;
use actix_api::controllers::product::{
    add_product, add_product_checked, add_product_done, delete_product, find_product, get_product,
    update_product, AddProductStep,
};
use actix_api::controllers::spare_part::{
    add_spare_part, add_spare_part_done, delete_spare_part, find_spare_part, get_spare_part,
    update_spare_part, AddSparePartStep,
};
use actix_api::controllers::user::get_user;
use actix_api::controllers::welcome::welcome;
use actix_api::helpers::database::Lookup;
use actix_api::helpers::response::{JsonResponse, Record};
use actix_api::structs::auth::DetailUserStruct;
use actix_api::structs::product::{ProductInput, ProductStruct};
use actix_api::structs::spare_part::{SparePartInput, SparePartStruct};

fn s(x: &str) -> String {
    x.to_string()
}

fn answer(r: &JsonResponse) -> (u16, &str, &str, usize) {
    (r.code, r.body.status.as_str(), r.body.message.as_str(), r.body.data.len())
}

fn product(id: i32) -> ProductStruct {
    ProductStruct { id, name: format!("p{id}"), price: 10 * id, amount: id }
}

fn part(id: i32) -> SparePartStruct {
    SparePartStruct { id, name: format!("s{id}"), price: id }
}

#[test]
fn products_listed_in_order() {
    let r = get_product(vec![product(1), product(2)]);
    assert_eq!(answer(&r), (200, "success", "Successfully retrieved product", 2));
    assert!(matches!(&r.body.data[1], Record::Product(p) if p.id == 2 && p.name == "p2" && p.price == 20 && p.amount == 2));
    assert_eq!(answer(&get_product(vec![])), (200, "success", "Successfully retrieved product", 0));
}

#[test]
fn adding_a_product_takes_three_steps() {
    let input = || ProductInput { name: s("bolt"), price: 3, amount: 4 };
    match add_product(ProductInput { name: s(""), price: 1, amount: 1 }) {
        AddProductStep::Respond(r) => assert_eq!(answer(&r), (400, "failed", "Please fill all fields", 0)),
        _ => panic!("an empty name is refused"),
    }
    assert!(matches!(add_product(input()), AddProductStep::FindByName(i) if i.name == "bolt"));
    match add_product_checked(input(), Lookup::Found(product(1))) {
        AddProductStep::Respond(r) => assert_eq!(answer(&r), (400, "failed", "Product already exists", 0)),
        _ => panic!("a taken name is refused"),
    }
    match add_product_checked(input(), Lookup::Failed) {
        AddProductStep::Respond(r) => assert_eq!(answer(&r), (500, "error", "Something went wrong", 0)),
        _ => panic!("a failed lookup is an error"),
    }
    assert!(matches!(add_product_checked(input(), Lookup::Missing), AddProductStep::Insert(i) if i.name == "bolt" && i.price == 3 && i.amount == 4));
    let r = add_product_done(vec![product(5)]);
    assert_eq!(answer(&r), (200, "success", "Successfully added product", 1));
    assert!(matches!(&r.body.data[0], Record::ProductBatch(rows) if rows.len() == 1 && rows[0].id == 5));
}

#[test]
fn product_rows_or_not_found() {
    assert_eq!(answer(&find_product(vec![])), (400, "failed", "Product not found", 0));
    assert_eq!(answer(&update_product(vec![])), (400, "failed", "Product not found", 0));
    assert_eq!(answer(&delete_product(vec![])), (400, "failed", "Product not found", 0));
    assert_eq!(answer(&find_product(vec![product(1)])), (200, "success", "Successfully retrieved product", 1));
    assert_eq!(answer(&update_product(vec![product(1)])), (200, "success", "Successfully updated product", 1));
    assert_eq!(answer(&delete_product(vec![product(1)])), (200, "success", "Successfully deleted product", 1));
}

#[test]
fn spare_parts_listed_and_added() {
    let r = get_spare_part(vec![part(1), part(2), part(3)]);
    assert_eq!(answer(&r), (200, "success", "Successfully retrieved spare part", 3));
    assert!(matches!(&r.body.data[2], Record::SparePart(p) if p.id == 3 && p.name == "s3"));
    match add_spare_part(SparePartInput { name: s(""), price: 1 }) {
        AddSparePartStep::Respond(r) => assert_eq!(answer(&r), (400, "failed", "Please fill all fields", 0)),
        _ => panic!("an empty name is refused"),
    }
    assert!(matches!(add_spare_part(SparePartInput { name: s("nut"), price: 1 }), AddSparePartStep::Insert(i) if i.name == "nut"));
    let r = add_spare_part_done(vec![part(4), part(5)]);
    assert_eq!(answer(&r), (200, "success", "Successfully added spare part", 1));
    assert!(matches!(&r.body.data[0], Record::SparePartBatch(rows) if rows.len() == 2));
}

#[test]
fn spare_part_rows_or_not_found() {
    assert_eq!(answer(&find_spare_part(vec![])), (400, "failed", "Spare part not found", 0));
    assert_eq!(answer(&update_spare_part(vec![])), (400, "failed", "Spare part not found", 0));
    assert_eq!(answer(&delete_spare_part(vec![])), (400, "failed", "Spare part not found", 0));
    assert_eq!(answer(&find_spare_part(vec![part(1)])), (200, "success", "Successfully retrieved spare part", 1));
    assert_eq!(answer(&update_spare_part(vec![part(1)])), (200, "success", "Successfully updated spare part", 1));
    assert_eq!(answer(&delete_spare_part(vec![part(1)])), (200, "success", "Successfully deleted spare part", 1));
}

#[test]
fn users_listed() {
    let r = get_user(vec![DetailUserStruct { id: 1, username: s("ann"), role: s("admin") }]);
    assert_eq!(answer(&r), (200, "success", "Successfully retrieved user", 1));
    assert!(matches!(&r.body.data[0], Record::User(u) if u.username == "ann"));
}

#[test]
fn welcome_names_the_api() {
    assert_eq!(answer(&welcome(None)), (200, "success", "welcome to actix-api API", 0));
    assert_eq!(answer(&welcome(Some(s("shop")))), (200, "success", "welcome to shop API", 0));
}

#[test]
fn unknown_routes_echo_the_request() {
    let r = fallback(s("/nowhere"), s("PATCH"));
    assert_eq!(answer(&r), (404, "not found", "Path not found", 1));
    assert!(matches!(&r.body.data[0], Record::Route { path, method } if path == "/nowhere" && method == "PATCH"));
}
