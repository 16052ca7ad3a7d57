use cat_database_server::catalog::{Handler, InputContract, ParamKind, ParamSpec};
use cat_database_server::validate::{
    coerce, validate, ArgBag, ArgValue, Number, TypedArg, ValidationError,
};

fn param(name: &str, kind: ParamKind, required: bool) -> ParamSpec {
    ParamSpec { name: name.to_string(), kind, description: String::new(), required }
}

fn bag(entries: Vec<(&str, ArgValue)>) -> ArgBag {
    let mut bag = ArgBag::new();
    for (name, value) in entries {
        bag.insert(name.to_string(), value);
    }
    bag
}

fn two_required() -> InputContract {
    InputContract::new(vec![
        param("first", ParamKind::Text, true),
        param("second", ParamKind::Number, true),
        param("third", ParamKind::Boolean, false),
    ])
    .expect("the names are distinct")
}

#[test]
fn a_bag_gives_back_what_was_put_in() {
    let b = bag(vec![("id", ArgValue::Number(Number::Unsigned(1))), ("x", ArgValue::Null)]);
    assert_eq!(b.get("id"), Some(&ArgValue::Number(Number::Unsigned(1))));
    assert_eq!(b.get("x"), Some(&ArgValue::Null));
    assert_eq!(b.get("y"), None);
    assert_eq!(ArgBag::new().get("id"), None);
}

#[test]
fn a_later_value_replaces_an_earlier_one() {
    let b = bag(vec![("id", ArgValue::Bool(true)), ("id", ArgValue::Text("two".to_string()))]);
    assert_eq!(b.get("id"), Some(&ArgValue::Text("two".to_string())));
}

#[test]
fn coerce_accepts_the_declared_type_only() {
    let number = ArgValue::Number(Number::Signed(-3));
    let text = ArgValue::Text("abc".to_string());
    let flag = ArgValue::Bool(true);
    assert_eq!(coerce(ParamKind::Number, &number), Some(TypedArg::Number(Number::Signed(-3))));
    assert_eq!(coerce(ParamKind::Text, &text), Some(TypedArg::Text("abc".to_string())));
    assert_eq!(coerce(ParamKind::Boolean, &flag), Some(TypedArg::Flag(true)));
    assert_eq!(coerce(ParamKind::Number, &text), None);
    assert_eq!(coerce(ParamKind::Number, &flag), None);
    assert_eq!(coerce(ParamKind::Text, &number), None);
    assert_eq!(coerce(ParamKind::Text, &flag), None);
    assert_eq!(coerce(ParamKind::Boolean, &number), None);
    assert_eq!(coerce(ParamKind::Boolean, &text), None);
}

#[test]
fn coerce_rejects_null_arrays_and_objects() {
    for kind in [ParamKind::Number, ParamKind::Text, ParamKind::Boolean] {
        assert_eq!(coerce(kind, &ArgValue::Null), None);
        assert_eq!(coerce(kind, &ArgValue::Array), None);
        assert_eq!(coerce(kind, &ArgValue::Object), None);
    }
}

#[test]
fn a_number_may_be_whole_or_not() {
    for number in [
        Number::Unsigned(0),
        Number::Unsigned(u64::MAX),
        Number::Signed(-1),
        Number::Real("1.5".to_string()),
    ] {
        let value = ArgValue::Number(number.duplicate());
        assert_eq!(coerce(ParamKind::Number, &value), Some(TypedArg::Number(number)));
    }
}

#[test]
fn a_satisfying_bag_gives_typed_arguments_in_contract_order() {
    let b = bag(vec![
        ("third", ArgValue::Bool(false)),
        ("second", ArgValue::Number(Number::Unsigned(2))),
        ("first", ArgValue::Text("one".to_string())),
    ]);
    let args = validate(&two_required(), &b).expect("the bag satisfies the contract");
    assert_eq!(
        args.values,
        vec![
            ("first".to_string(), TypedArg::Text("one".to_string())),
            ("second".to_string(), TypedArg::Number(Number::Unsigned(2))),
            ("third".to_string(), TypedArg::Flag(false)),
        ]
    );
    assert_eq!(args.get("second"), Some(&TypedArg::Number(Number::Unsigned(2))));
    assert_eq!(args.get("fourth"), None);
}

#[test]
fn an_optional_parameter_may_be_left_out() {
    let b = bag(vec![
        ("first", ArgValue::Text("one".to_string())),
        ("second", ArgValue::Number(Number::Unsigned(2))),
    ]);
    let args = validate(&two_required(), &b).expect("the bag satisfies the contract");
    assert_eq!(args.values.len(), 2);
    assert_eq!(args.get("third"), None);
}

#[test]
fn a_missing_required_parameter_is_reported_by_name() {
    let b = bag(vec![("first", ArgValue::Text("one".to_string()))]);
    assert_eq!(
        validate(&two_required(), &b),
        Err(ValidationError::MissingParameter { name: "second".to_string() })
    );
}

#[test]
fn the_first_missing_parameter_is_the_one_reported() {
    assert_eq!(
        validate(&two_required(), &ArgBag::new()),
        Err(ValidationError::MissingParameter { name: "first".to_string() })
    );
}

#[test]
fn a_mistyped_parameter_is_reported_with_the_type_it_should_have() {
    let b = bag(vec![
        ("first", ArgValue::Text("one".to_string())),
        ("second", ArgValue::Text("two".to_string())),
    ]);
    assert_eq!(
        validate(&two_required(), &b),
        Err(ValidationError::TypeMismatch {
            name: "second".to_string(),
            expected: ParamKind::Number
        })
    );
}

#[test]
fn a_mistyped_optional_parameter_is_reported_too() {
    let b = bag(vec![
        ("first", ArgValue::Text("one".to_string())),
        ("second", ArgValue::Number(Number::Unsigned(2))),
        ("third", ArgValue::Null),
    ]);
    assert_eq!(
        validate(&two_required(), &b),
        Err(ValidationError::TypeMismatch {
            name: "third".to_string(),
            expected: ParamKind::Boolean
        })
    );
}

#[test]
fn a_missing_parameter_is_reported_before_a_mistyped_one() {
    let b = bag(vec![("first", ArgValue::Bool(true))]);
    assert_eq!(
        validate(&two_required(), &b),
        Err(ValidationError::MissingParameter { name: "second".to_string() })
    );
}

#[test]
fn undeclared_names_are_ignored() {
    let plain = bag(vec![
        ("first", ArgValue::Text("one".to_string())),
        ("second", ArgValue::Number(Number::Unsigned(2))),
    ]);
    let extra = bag(vec![
        ("verbose", ArgValue::Object),
        ("first", ArgValue::Text("one".to_string())),
        ("second", ArgValue::Number(Number::Unsigned(2))),
        ("trace", ArgValue::Array),
    ]);
    assert_eq!(validate(&two_required(), &extra), validate(&two_required(), &plain));
    assert!(validate(&Handler::ListAll.contract(), &extra).is_ok());
}

#[test]
fn the_contract_without_parameters_accepts_every_bag() {
    let args = validate(&Handler::IndoorOnly.contract(), &ArgBag::new()).unwrap();
    assert!(args.values.is_empty());
}

#[test]
fn the_messages_of_the_violations() {
    let missing = ValidationError::MissingParameter { name: "id".to_string() };
    assert_eq!(missing.message(), "id is required");
    let number = ValidationError::TypeMismatch { name: "id".to_string(), expected: ParamKind::Number };
    assert_eq!(number.message(), "id must be a number");
    let text =
        ValidationError::TypeMismatch { name: "breed".to_string(), expected: ParamKind::Text };
    assert_eq!(text.message(), "breed must be a string");
    let flag =
        ValidationError::TypeMismatch { name: "deep".to_string(), expected: ParamKind::Boolean };
    assert_eq!(flag.message(), "deep must be a boolean");
}
