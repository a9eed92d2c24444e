use todo_api::repositories::{CreateTodo, UpdateTodo};
use todo_api::validation::{
    join_violations, json_parse_rejection, FieldError, Rejection, Validate, ValidatedJson,
};

#[test]
fn validate_lists_the_length_violation() {
    let errors = CreateTodo::new(String::new()).validate();
    assert_eq!(
        errors,
        vec![FieldError {
            field: "text".to_string(),
            message: "invalid text length".to_string()
        }]
    );
    assert!(CreateTodo::new("ok".to_string()).validate().is_empty());
    let none = UpdateTodo { text: None, completed: Some(false) };
    assert!(none.validate().is_empty());
}

#[test]
fn rejection_message_is_one_line() {
    let rejected = ValidatedJson::from_value(CreateTodo::new("a".repeat(101))).unwrap_err();
    assert_eq!(
        rejected,
        Rejection {
            status: 400,
            message: "Validation error: [text: invalid text length]".to_string()
        }
    );
    let accepted = ValidatedJson::from_value(CreateTodo::new("a".to_string())).unwrap();
    assert_eq!(accepted.into_inner(), CreateTodo::new("a".to_string()));
}

#[test]
fn violations_join_with_commas() {
    let errors = vec![
        FieldError { field: "text".to_string(), message: "too short".to_string() },
        FieldError { field: "title".to_string(), message: "missing".to_string() },
    ];
    assert_eq!(join_violations(&errors), "text: too short, title: missing");
    assert_eq!(join_violations(&vec![]), "");
}

#[test]
fn parse_failure_is_bad_request() {
    let rejection = json_parse_rejection("expected value at line 1 column 1");
    assert_eq!(rejection.status, 400);
    assert_eq!(rejection.message, "Json parse error: [expected value at line 1 column 1]");
}
