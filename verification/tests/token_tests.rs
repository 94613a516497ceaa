use iroh_ffi::{CancelToken, IrohError};

#[test]
fn test_cancel_token_one_way() {
    let mut token = CancelToken::new();
    assert!(!token.is_cancelled());

    token.cancel().unwrap();
    assert!(token.is_cancelled());

    // Repeated cancels report failure so double-cancel bugs are
    // observable, and the token stays cancelled.
    assert_eq!(token.cancel(), Err(IrohError::AlreadyCancelled));
    assert!(token.is_cancelled());
}

#[test]
fn test_error_messages() {
    assert_eq!(
        IrohError::InvalidTopic.message(),
        "topic must be exactly 32 bytes"
    );
    assert_eq!(IrohError::AlreadyCancelled.message(), "already closed");
    assert!(!IrohError::Transport("x".to_string()).message().is_empty());
}
