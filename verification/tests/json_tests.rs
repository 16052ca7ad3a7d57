use cat_database_server::catalog::{Handler, InputContract, ParamKind, ParamSpec};
use cat_database_server::entity::{cats_to_json, Cat};
use serde_json::{Number, Value};

fn mike() -> Cat {
    Cat {
        id: 1,
        name: "Mike".to_string(),
        age: 3,
        breed: "Calico".to_string(),
        color: "Calico".to_string(),
        is_indoor: true,
        favorite_toy: "Mouse toy".to_string(),
    }
}

fn kuro() -> Cat {
    Cat {
        id: 3,
        name: "Kuro".to_string(),
        age: 2,
        breed: "Black cat".to_string(),
        color: "Black".to_string(),
        is_indoor: false,
        favorite_toy: "Butterfly".to_string(),
    }
}

fn text(s: &str) -> Value {
    Value::String(s.to_string())
}

fn number(n: u64) -> Value {
    Value::Number(Number::from(n))
}

fn object(members: Vec<(&str, Value)>) -> Value {
    let mut map = serde_json::Map::new();
    for (name, value) in members {
        map.insert(name.to_string(), value);
    }
    Value::Object(map)
}

const MIKE_PRETTY: &str = "{\n  \"id\": 1,\n  \"name\": \"Mike\",\n  \"age\": 3,\n  \"breed\": \"Calico\",\n  \"color\": \"Calico\",\n  \"is_indoor\": true,\n  \"favorite_toy\": \"Mouse toy\"\n}";

#[test]
fn a_cat_becomes_an_object_of_its_seven_fields() {
    let expected = object(vec![
        ("id", number(1)),
        ("name", text("Mike")),
        ("age", number(3)),
        ("breed", text("Calico")),
        ("color", text("Calico")),
        ("is_indoor", Value::Bool(true)),
        ("favorite_toy", text("Mouse toy")),
    ]);
    assert_eq!(mike().to_json(), expected);
}

#[test]
fn a_cat_object_keeps_the_order_of_the_fields() {
    let value = mike().to_json();
    let names: Vec<&str> = match &value {
        Value::Object(map) => map.keys().map(|k| k.as_str()).collect(),
        _ => panic!("a cat is an object"),
    };
    assert_eq!(
        names,
        vec!["id", "name", "age", "breed", "color", "is_indoor", "favorite_toy"]
    );
}

#[test]
fn a_cat_object_prints_field_by_field() {
    let printed = serde_json::to_string_pretty(&mike().to_json()).unwrap();
    assert_eq!(printed, MIKE_PRETTY);
}

#[test]
fn a_cat_object_holds_false_for_an_outdoor_cat() {
    let value = kuro().to_json();
    assert_eq!(value.get("is_indoor"), Some(&Value::Bool(false)));
    assert_eq!(value.get("id"), Some(&number(3)));
    assert_eq!(value.get("age"), Some(&number(2)));
    assert_eq!(value.get("breed"), Some(&text("Black cat")));
}

#[test]
fn a_cat_with_text_that_needs_escaping() {
    let mut cat = mike();
    cat.name = "Mi\"ke\n".to_string();
    let value = cat.to_json();
    assert_eq!(value.get("name"), Some(&text("Mi\"ke\n")));
    let printed = serde_json::to_string_pretty(&value).unwrap();
    assert!(printed.contains("\"name\": \"Mi\\\"ke\\n\""));
}

#[test]
fn cats_become_an_array_in_order() {
    let a = mike();
    let b = kuro();
    let value = cats_to_json(&vec![&a, &b]);
    assert_eq!(value, Value::Array(vec![a.to_json(), b.to_json()]));
    let other = cats_to_json(&vec![&b, &a]);
    assert_eq!(other, Value::Array(vec![b.to_json(), a.to_json()]));
}

#[test]
fn no_cats_become_the_empty_array() {
    assert_eq!(cats_to_json(&Vec::new()), Value::Array(Vec::new()));
}

#[test]
fn the_schema_of_no_parameters() {
    let schema = Handler::ListAll.contract().schema();
    let expected = object(vec![
        ("type", text("object")),
        ("properties", object(vec![])),
        ("required", Value::Array(vec![])),
    ]);
    assert_eq!(schema, expected);
    assert_eq!(
        serde_json::to_string(&schema).unwrap(),
        "{\"type\":\"object\",\"properties\":{},\"required\":[]}"
    );
}

#[test]
fn the_schema_of_the_id_parameter() {
    let schema = Handler::GetById.contract().schema();
    let expected = object(vec![
        ("type", text("object")),
        (
            "properties",
            object(vec![(
                "id",
                object(vec![("type", text("number")), ("description", text("Cat ID"))]),
            )]),
        ),
        ("required", Value::Array(vec![text("id")])),
    ]);
    assert_eq!(schema, expected);
    assert_eq!(
        serde_json::to_string(&schema).unwrap(),
        "{\"type\":\"object\",\"properties\":{\"id\":{\"type\":\"number\",\"description\":\"Cat ID\"}},\"required\":[\"id\"]}"
    );
}

#[test]
fn the_schema_of_the_breed_parameter() {
    let schema = Handler::SearchByBreed.contract().schema();
    assert_eq!(
        serde_json::to_string(&schema).unwrap(),
        "{\"type\":\"object\",\"properties\":{\"breed\":{\"type\":\"string\",\"description\":\"Breed to search for\"}},\"required\":[\"breed\"]}"
    );
}

#[test]
fn a_schema_lists_only_the_required_parameters_as_required() {
    let contract = InputContract::new(
        vec![
            ParamSpec {
                name: "zeta".to_string(),
                kind: ParamKind::Boolean,
                description: "last letter".to_string(),
                required: false,
            },
            ParamSpec {
                name: "alpha".to_string(),
                kind: ParamKind::Text,
                description: "first letter".to_string(),
                required: true,
            },
            ParamSpec {
                name: "count".to_string(),
                kind: ParamKind::Number,
                description: "how many".to_string(),
                required: true,
            },
        ],
    )
    .expect("the names are distinct");
    assert_eq!(
        serde_json::to_string(&contract.schema()).unwrap(),
        "{\"type\":\"object\",\"properties\":{\"zeta\":{\"type\":\"boolean\",\"description\":\"last letter\"},\"alpha\":{\"type\":\"string\",\"description\":\"first letter\"},\"count\":{\"type\":\"number\",\"description\":\"how many\"}},\"required\":[\"alpha\",\"count\"]}"
    );
}

#[test]
fn the_words_for_the_primitive_types() {
    assert_eq!(ParamKind::Number.name(), "number");
    assert_eq!(ParamKind::Text.name(), "string");
    assert_eq!(ParamKind::Boolean.name(), "boolean");
}
