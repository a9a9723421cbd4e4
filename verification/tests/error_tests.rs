use recast_core::error::AppError;

#[test]
fn anyhow_display_preserves_the_full_context_chain() {
    let err: AppError = anyhow::Error::msg("root cause")
        .context("outer context")
        .into();
    assert_eq!(err.message(), "outer context: root cause");
}

#[test]
fn a_message_error_reads_back_its_message() {
    assert_eq!(AppError::msg("boom").message(), "boom");
    let from_string: AppError = String::from("boom").into();
    assert_eq!(from_string.message(), "boom");
}

#[test]
fn an_io_error_reads_as_its_message() {
    let err: AppError = std::io::Error::new(std::io::ErrorKind::NotFound, "nope").into();
    assert_eq!(err.message(), "nope");
}
