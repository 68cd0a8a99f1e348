use memora::domain::errors::DomainError;

#[test]
fn error_messages_for_the_frontend() {
    assert_eq!(
        DomainError::InvalidContent("el nombre está vacío".into()).message(),
        "contenido vacío o inválido: el nombre está vacío"
    );
    assert_eq!(DomainError::NotFound("42".into()).message(), "entidad no encontrada con id 42");
    assert_eq!(DomainError::Conflict("x".into()).message(), "conflicto de integridad: x");
    assert_eq!(DomainError::InvalidHash("abc".into()).message(), "hash de contenido inválido: abc");
    let json_error = serde_json::from_str::<serde_json::Value>("{").unwrap_err();
    let expected = format!("error de serialización: {json_error}");
    assert_eq!(DomainError::from(json_error).message(), expected);
    let sql_error = sqlx::Error::RowNotFound;
    let expected = format!("error de persistencia: {sql_error}");
    let e: DomainError = sql_error.into();
    assert!(matches!(e, DomainError::Persistence(_)));
    assert_eq!(e.message(), expected);
}
