//! The error classifier: every backend failure reaches exactly one taxonomy
//! member.

use environments::error::{BackendFailure, ProvideError};

#[test]
fn row_not_found_classifies_to_not_found() {
    let pe = ProvideError::from(BackendFailure::RowNotFound);
    assert!(matches!(pe, ProvideError::NotFound));
}

#[test]
fn unique_constraint_code_classifies_to_unique_violation() {
    let pe = ProvideError::from(BackendFailure::Database {
        code: Some(String::from("23505")),
        details: Some(String::from("Key (name)=(n1) already exists.")),
        message: String::from("duplicate key value violates unique constraint"),
    });
    match pe {
        ProvideError::UniqueViolation { details } => {
            assert_eq!(details, "Key (name)=(n1) already exists.");
        }
        other => panic!("expected UniqueViolation, got {:?}", other),
    }
}

#[test]
fn unique_violation_without_details_carries_the_message() {
    let pe = ProvideError::from(BackendFailure::Database {
        code: Some(String::from("23505")),
        details: None,
        message: String::from("duplicate key"),
    });
    match pe {
        ProvideError::UniqueViolation { details } => assert_eq!(details, "duplicate key"),
        other => panic!("expected UniqueViolation, got {:?}", other),
    }
}

#[test]
fn integrity_family_code_classifies_to_model_violation() {
    let pe = ProvideError::from(BackendFailure::Database {
        code: Some(String::from("23502")),
        details: None,
        message: String::from("null value in column name"),
    });
    match pe {
        ProvideError::ModelViolation { details } => {
            assert_eq!(details, "null value in column name");
        }
        other => panic!("expected ModelViolation, got {:?}", other),
    }
}

#[test]
fn unrecognized_code_classifies_to_unhandled() {
    let pe = ProvideError::from(BackendFailure::Database {
        code: Some(String::from("42P01")),
        details: None,
        message: String::from("relation does not exist"),
    });
    match pe {
        ProvideError::UnHandledError { description } => {
            assert_eq!(description, "relation does not exist");
        }
        other => panic!("expected UnHandledError, got {:?}", other),
    }
}

#[test]
fn missing_code_classifies_to_unhandled() {
    let pe = ProvideError::from(BackendFailure::Database {
        code: None,
        details: Some(String::from("ignored")),
        message: String::from("driver hiccup"),
    });
    assert!(matches!(pe, ProvideError::UnHandledError { .. }));
}

#[test]
fn other_failure_classifies_to_unhandled() {
    let pe = ProvideError::from(BackendFailure::Other {
        description: String::from("connection reset"),
    });
    match pe {
        ProvideError::UnHandledError { description } => {
            assert_eq!(description, "connection reset");
        }
        other => panic!("expected UnHandledError, got {:?}", other),
    }
}

#[test]
fn try_from_database_bounces_unrecognized_codes() {
    let r = ProvideError::try_from_database(
        &String::from("40001"),
        &None,
        &String::from("serialization failure"),
    );
    assert!(r.is_err());
    let r = ProvideError::try_from_database(
        &String::from("23514"),
        &None,
        &String::from("check constraint violated"),
    );
    assert!(matches!(r, Ok(ProvideError::ModelViolation { .. })));
}
