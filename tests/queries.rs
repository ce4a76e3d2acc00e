use rejis::database::{decode_rows, Database, TransformError};
use rejis::filter::{Filter, Operator};
use rejis::query::{FieldKind, Literal, Query, QueryError, Table};
use rejis::transform::Select;
use rusqlite::Connection;
use serde_json::Value;

fn user_table() -> Table {
    Table::new("user").unwrap()
}

fn first_name() -> Query {
    user_table().query().field("first_name", FieldKind::Text).unwrap()
}

fn last_name() -> Query {
    user_table().query().field("last_name", FieldKind::Text).unwrap()
}

fn age() -> Query {
    user_table().query().field("age", FieldKind::Integer).unwrap()
}

fn pets() -> Query {
    user_table()
        .query()
        .field("pets", FieldKind::Array(Box::new(FieldKind::Record)))
        .unwrap()
}

fn pet_name() -> Query {
    pets()
        .elements()
        .unwrap()
        .wildcard()
        .field("name", FieldKind::Text)
        .unwrap()
}

fn text(s: &str) -> Literal {
    Literal::Text(String::from(s))
}

fn user(first: &str, last: &str, age: u8, pets: &[&str]) -> Value {
    let pets: Vec<String> = pets.iter().map(|p| format!("{{\"name\":\"{p}\"}}")).collect();
    serde_json::from_str(&format!(
        "{{\"first_name\":\"{first}\",\"last_name\":\"{last}\",\"age\":{age},\"pets\":[{}]}}",
        pets.join(",")
    ))
    .unwrap()
}

/// A database holding five users.
fn user_database() -> Database {
    let db = Database::new(Connection::open_in_memory().unwrap());
    db.init(&user_table()).unwrap();
    let table = user_table();
    db.insert(&table, &user("John", "Smith", 32, &["Garfield", "Lucky"])).unwrap();
    db.insert(&table, &user("Jane", "Smith", 35, &["Jimmy", "Jimmy"])).unwrap();
    db.insert(&table, &user("Thomas", "Anderson", 24, &[])).unwrap();
    db.insert(&table, &user("John", "Anderson", 48, &["Jimmy"])).unwrap();
    db.insert(&table, &user("Richard", "LaFleur", 36, &[])).unwrap();
    db
}

fn get(db: &Database, f: &Filter) -> Vec<Value> {
    db.get(&Select::from(f.clone())).unwrap()
}

fn johns() -> Filter {
    first_name().cmp(Operator::Equal, text("John")).unwrap()
}

fn jimmy_owners() -> Filter {
    pets().any(&pet_name(), Operator::Equal, text("Jimmy")).unwrap()
}

#[test]
fn single_property_equality() {
    let db = user_database();
    let johns = get(&db, &johns());
    assert_eq!(johns.len(), 2);
    assert!(johns.iter().all(|john| john["first_name"] == "John"));
}

#[test]
fn single_property_inequality() {
    let db = user_database();
    let non_smiths = get(&db, &last_name().cmp(Operator::NotEqual, text("Smith")).unwrap());
    assert_eq!(non_smiths.len(), 3);
    assert!(non_smiths.iter().all(|u| u["last_name"] != "Smith"));
}

#[test]
fn multi_property_equality() {
    let db = user_database();
    let john_smith = get(
        &db,
        &Filter::and(johns(), last_name().cmp(Operator::Equal, text("Smith")).unwrap()),
    );
    assert_eq!(john_smith.len(), 1);
    assert_eq!(john_smith[0]["first_name"], "John");
    assert_eq!(john_smith[0]["last_name"], "Smith");
    assert_eq!(john_smith[0]["age"], 32);
}

#[test]
fn multi_property_inequality() {
    let db = user_database();
    let john_smith = get(
        &db,
        &Filter::and(johns(), last_name().cmp(Operator::NotEqual, text("Smith")).unwrap()),
    );
    println!("{john_smith:?}");
    assert_eq!(john_smith.len(), 1);
    assert_eq!(john_smith[0]["first_name"], "John");
    assert_eq!(john_smith[0]["last_name"], "Anderson");
    assert_eq!(john_smith[0]["age"], 48);
}

#[test]
fn like_matching() {
    let db = user_database();
    let jays = get(&db, &first_name().cmp(Operator::Like, text("J%")).unwrap());
    assert_eq!(jays.len(), 3);
}

#[test]
fn array_matching() {
    let db = user_database();
    let owners = get(
        &db,
        &pets().any(&pet_name(), Operator::Like, text("Jimmy")).unwrap(),
    );
    println!("{:#?}", owners);
    assert_eq!(owners.len(), 2);
}

#[test]
fn simple_filtering_dsl() {
    let db = user_database();
    let johns = get(&db, &johns());
    println!("{:#?}", johns);
    assert_eq!(johns.len(), 2);
}

#[test]
fn multi_filtering_dsl() {
    let db = user_database();
    let johns = get(
        &db,
        &Filter::and(johns(), last_name().cmp(Operator::NotEqual, text("Smith")).unwrap()),
    );
    println!("{:#?}", johns);
    assert_eq!(johns.len(), 1);
    assert_eq!(johns[0]["last_name"], "Anderson");
}

#[test]
fn multi_filtering_or_dsl() {
    let db = user_database();
    let johns = get(
        &db,
        &Filter::or(
            Filter::and(johns(), last_name().cmp(Operator::Equal, text("Smith")).unwrap()),
            Filter::and(
                first_name().cmp(Operator::Equal, text("Thomas")).unwrap(),
                last_name().cmp(Operator::Equal, text("Anderson")).unwrap(),
            ),
        ),
    );
    println!("{:#?}", johns);
    assert_eq!(johns.len(), 2);
}

#[test]
fn expr_query() {
    let db = user_database();
    let first = vec!["John"];
    let johns = get(&db, &first_name().cmp(Operator::Equal, text(first[0])).unwrap());
    println!("{:#?}", johns);
    assert_eq!(johns.len(), 2);
}

#[test]
fn ident_query() {
    let db = user_database();
    let first = "John";
    let johns = get(&db, &first_name().cmp(Operator::Equal, text(first)).unwrap());
    println!("{:#?}", johns);
    assert_eq!(johns.len(), 2);
}

#[test]
fn any_query_literal() {
    let db = user_database();
    let owners = get(
        &db,
        &pets().any(&pet_name(), Operator::Equal, text("Garfield")).unwrap(),
    );
    println!("{:#?}", owners);
    assert_eq!(owners.len(), 1);
}

#[test]
fn any_query_ident() {
    let db = user_database();
    let name = "Garfield";
    let owners = get(&db, &pets().any(&pet_name(), Operator::Equal, text(name)).unwrap());
    println!("{:#?}", owners);
    assert_eq!(owners.len(), 1);
}

#[test]
fn any_query_complex() {
    let db = user_database();
    let name = vec!["Garfield"];
    let owners = get(
        &db,
        &pets().any(&pet_name(), Operator::Equal, text(name[0])).unwrap(),
    );
    println!("{:#?}", owners);
    assert_eq!(owners.len(), 1);
}

#[test]
fn any_query_multiples() {
    let db = user_database();
    let owners = get(&db, &jimmy_owners());
    println!("{:#?}", owners);
    assert_eq!(owners.len(), 2);
}

#[test]
fn complex_any_query() {
    let db = user_database();
    let jane = get(
        &db,
        &Filter::and(jimmy_owners(), last_name().cmp(Operator::Equal, text("Smith")).unwrap()),
    );
    println!("{:#?}", jane);
    assert_eq!(jane.len(), 1);
    println!("{:#?}", jane[0]);
}

#[test]
fn macro_query_filter_deletion() {
    let db = user_database();
    let smiths_with_jimmies =
        Filter::and(jimmy_owners(), last_name().cmp(Operator::Equal, text("Smith")).unwrap());
    assert_eq!(get(&db, &smiths_with_jimmies).len(), 1);
    db.delete(&smiths_with_jimmies).unwrap();
    assert_eq!(get(&db, &smiths_with_jimmies).len(), 0);
}

#[test]
fn end_to_end_database() {
    let db = user_database();
    let bobby_finder = first_name().cmp(Operator::Equal, text("Bobby")).unwrap();
    assert_eq!(get(&db, &bobby_finder).len(), 0);
    db.insert(&user_table(), &user("Bobby", "Tables", 8, &[])).unwrap();
    assert_eq!(get(&db, &bobby_finder).len(), 1);
    db.delete(&bobby_finder).unwrap();
    assert_eq!(get(&db, &bobby_finder).len(), 0);
}

#[test]
fn mapping_into_pets() {
    let db = user_database();
    let ages = db.get(&johns().map(&age())).unwrap();
    println!("{ages:?}");
    assert_eq!(ages.len(), 2);
}

#[test]
fn insert_and_query() {
    let db = Database::new(Connection::open_in_memory().unwrap());
    db.init(&user_table()).unwrap();
    db.insert(&user_table(), &user("John", "Smith", 30, &["Garfield"])).unwrap();
    let john_smith = get(
        &db,
        &Filter::and(johns(), last_name().cmp(Operator::Equal, text("Smith")).unwrap()),
    );
    assert_eq!(john_smith.len(), 1);
    assert_eq!(john_smith[0]["first_name"], "John");
    assert_eq!(john_smith[0]["last_name"], "Smith");
}

#[test]
fn no_magic_filter_deletion() {
    let db = Database::new(Connection::open_in_memory().unwrap());
    db.init(&user_table()).unwrap();
    db.insert(&user_table(), &user("John", "Smith", 30, &["Jimmy"])).unwrap();
    let with_jimmies = jimmy_owners();
    assert_eq!(get(&db, &with_jimmies).len(), 1);
    db.delete(&with_jimmies).unwrap();
    assert_eq!(get(&db, &with_jimmies).len(), 0);
}

#[test]
fn query_uninitialized_table() {
    let db = Database::new(Connection::open_in_memory().unwrap());
    let r = db.get(&Select::from(first_name().cmp(Operator::Equal, text("Jimmy")).unwrap()));
    assert!(matches!(r, Err(TransformError::Sql(_))));
}

#[test]
fn debug_printing_transforms() {
    let query = Filter::and(
        pets().any(&pet_name(), Operator::GreaterThan, text("Lol")).unwrap(),
        first_name().cmp(Operator::LessThan, text("xyz")).unwrap(),
    );
    println!("{:#?}", query);
}

#[test]
fn init_is_idempotent() {
    let db = user_database();
    db.init(&user_table()).unwrap();
    assert_eq!(get(&db, &johns()).len(), 2);
}

#[test]
fn delete_counts_rows_and_matches_get() {
    let db = user_database();
    let f = Filter::and(johns(), last_name().cmp(Operator::Equal, text("Smith")).unwrap());
    assert_eq!(db.delete(&f).unwrap(), 1);
    assert_eq!(get(&db, &f).len(), 0);
    assert_eq!(get(&db, &johns()).len(), 1);
}

#[test]
fn delete_then_get_is_empty_for_each_kind_of_predicate() {
    let filters = vec![
        jimmy_owners(),
        Filter::or(johns(), last_name().cmp(Operator::Equal, text("LaFleur")).unwrap()),
        age().cmp(Operator::GreaterThanOrEqual, Literal::Integer(35)).unwrap(),
    ];
    for f in filters {
        let db = user_database();
        assert!(!get(&db, &f).is_empty());
        db.delete(&f).unwrap();
        assert_eq!(get(&db, &f).len(), 0);
    }
}

fn identities(rows: &[Value]) -> Vec<String> {
    let mut ids: Vec<String> = rows
        .iter()
        .map(|r| format!("{} {}", r["first_name"], r["last_name"]))
        .collect();
    ids.sort();
    ids
}

#[test]
fn and_is_intersection() {
    let db = user_database();
    let a = age().cmp(Operator::GreaterThan, Literal::Integer(30)).unwrap();
    let b = last_name().cmp(Operator::Equal, text("Anderson")).unwrap();
    let both = identities(&get(&db, &Filter::and(a.clone(), b.clone())));
    let left = identities(&get(&db, &a));
    let right = identities(&get(&db, &b));
    let expected: Vec<String> = left.into_iter().filter(|x| right.contains(x)).collect();
    assert_eq!(both, expected);
    assert_eq!(both, vec!["\"John\" \"Anderson\"".to_string()]);
}

#[test]
fn or_is_union_with_duplicates() {
    let db = user_database();
    let a = johns();
    let b = last_name().cmp(Operator::Equal, text("Smith")).unwrap();
    let either = identities(&get(&db, &Filter::or(a.clone(), b.clone())));
    let mut expected = identities(&get(&db, &a));
    expected.extend(identities(&get(&db, &b)));
    expected.sort();
    assert_eq!(either, expected);
    // John Smith satisfies both branches and comes back twice.
    assert_eq!(either.len(), 4);
}

#[test]
fn any_returns_each_document_once() {
    let db = user_database();
    let owners = identities(&get(&db, &jimmy_owners()));
    assert_eq!(
        owners,
        vec!["\"Jane\" \"Smith\"".to_string(), "\"John\" \"Anderson\"".to_string()]
    );
}

#[test]
fn projection_matches_field_of_whole_record() {
    let db = user_database();
    let whole = get(&db, &johns());
    let ages = db.get(&johns().map(&age())).unwrap();
    let pet_lists = db.get(&johns().map(&pets())).unwrap();
    assert_eq!(ages.len(), whole.len());
    for i in 0..whole.len() {
        assert_eq!(ages[i], whole[i]["age"]);
        assert_eq!(pet_lists[i], whole[i]["pets"]);
    }
}

#[test]
fn five_users_scenario() {
    let db = user_database();
    assert_eq!(get(&db, &johns()).len(), 2);
    assert_eq!(
        get(&db, &last_name().cmp(Operator::NotEqual, text("Smith")).unwrap()).len(),
        3
    );
    assert_eq!(get(&db, &jimmy_owners()).len(), 2);
    let john_smith = Filter::and(johns(), last_name().cmp(Operator::Equal, text("Smith")).unwrap());
    assert_eq!(db.delete(&john_smith).unwrap(), 1);
    assert_eq!(get(&db, &john_smith).len(), 0);
}

#[test]
fn projecting_a_text_field_is_a_decode_error() {
    let db = user_database();
    let r = db.get(&johns().map(&first_name()));
    assert!(matches!(r, Err(TransformError::Serde(_))));
}

#[test]
fn mixed_tables_are_a_query_error() {
    let db = user_database();
    let pets_table = Table::new("pet").unwrap();
    let other = pets_table
        .query()
        .field("name", FieldKind::Text)
        .unwrap()
        .cmp(Operator::Equal, text("Rex"))
        .unwrap();
    let r = db.delete(&Filter::and(johns(), other));
    assert!(matches!(r, Err(TransformError::Query(QueryError::MixedTables))));
}

#[test]
fn forged_table_name_is_refused() {
    let db = user_database();
    let forged = Table { name: String::from("user; drop table user") };
    let r = db.insert(&forged, &user("A", "B", 1, &[]));
    assert!(matches!(r, Err(TransformError::Query(QueryError::InvalidTableName))));
    assert_eq!(get(&db, &johns()).len(), 2);
}

#[test]
fn decode_rows_parses_each_row() {
    let rows = vec![String::from("{\"a\":1}"), String::from("2")];
    let values = decode_rows(&rows).unwrap();
    assert_eq!(values.len(), 2);
    assert_eq!(values[0]["a"], 1);
    assert_eq!(values[1], 2);
    let bad = vec![String::from("[1]"), String::from("John")];
    assert!(matches!(decode_rows(&bad), Err(TransformError::Serde(_))));
    assert_eq!(decode_rows(&Vec::new()).unwrap().len(), 0);
}
