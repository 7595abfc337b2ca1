use watchdog_client::error::{AppError, AppResult, IoFailure};

#[test]
fn messages_of_each_variant() {
    assert_eq!(AppError::IO { source: IoFailure::NotFound }.message(), "I/O Error");
    assert_eq!(AppError::IO { source: IoFailure::Other }.message(), "I/O Error");
    assert_eq!(AppError::TomlSerialize.message(), "TOML Serialize Error");
    assert_eq!(AppError::TomlDeserialize.message(), "TOML Deserialize Error");
    assert_eq!(AppError::Custom { message: "boom".to_string() }.message(), "boom");
}

#[test]
fn from_str_makes_a_custom_error() {
    let err = AppError::from("no route");
    match &err {
        AppError::Custom { message } => assert_eq!(message, "no route"),
        other => panic!("expected a custom error, got {:?}", other),
    }
    assert_eq!(err.message(), "no route");
    let empty: AppError = "".into();
    assert_eq!(empty.message(), "");
}

#[test]
fn app_result_carries_app_error() {
    let r: AppResult<u8> = Err(AppError::from("x"));
    assert!(r.is_err());
    let ok: AppResult<u8> = Ok(7);
    assert_eq!(ok.unwrap(), 7);
}
