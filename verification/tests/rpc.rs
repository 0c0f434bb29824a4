use aleph::rpc::{
    emergency_signature, NodeRpcError, FAILED_JUSTIFICATION_SEND_ERROR,
    MALFORMATTED_JUSTIFICATION_ARG_ERROR, SIGNATURE_LENGTH,
};

#[test]
fn error_codes() {
    assert_eq!(MALFORMATTED_JUSTIFICATION_ARG_ERROR, 2001);
    assert_eq!(FAILED_JUSTIFICATION_SEND_ERROR, 2002);
    assert_eq!(NodeRpcError::MalformattedJustificationArg("a".into()).code(), 2001);
    assert_eq!(NodeRpcError::FailedJustificationSend("b".into()).code(), 2002);
}

#[test]
fn signature_of_right_length_is_accepted() {
    let bytes: Vec<u8> = (0..64u8).collect();
    let s = emergency_signature(bytes.clone()).unwrap();
    assert_eq!(s.into_bytes(), bytes);
    assert_eq!(SIGNATURE_LENGTH, 64);
}

#[test]
fn signature_of_wrong_length_is_refused() {
    for len in [0usize, 1, 63, 65, 128] {
        let r = emergency_signature(vec![0u8; len]);
        assert_eq!(
            r,
            Err(NodeRpcError::MalformattedJustificationArg(
                "Provided justification cannot be converted into correct type".to_string()
            ))
        );
    }
}

#[test]
fn translation_and_send_errors() {
    assert_eq!(
        NodeRpcError::untranslatable_justification(),
        NodeRpcError::MalformattedJustificationArg("todo".to_string())
    );
    assert_eq!(
        NodeRpcError::justification_not_sent(),
        NodeRpcError::FailedJustificationSend(
            "AlephNodeApiServer failed to send JustifictionNotification via its channel".to_string()
        )
    );
    assert_eq!(NodeRpcError::justification_not_sent().code(), 2002);
}

#[test]
fn rpc_error_carries_code_and_message() {
    let e = NodeRpcError::FailedJustificationSend("channel closed".to_string()).into_rpc_error();
    match e {
        jsonrpsee::core::Error::Call(jsonrpsee::types::error::CallError::Custom(obj)) => {
            assert_eq!(obj.code(), 2002);
            assert_eq!(obj.message(), "channel closed");
        }
        other => panic!("unexpected error {:?}", other),
    }
    let e = NodeRpcError::MalformattedJustificationArg("bad".to_string()).into_rpc_error();
    match e {
        jsonrpsee::core::Error::Call(jsonrpsee::types::error::CallError::Custom(obj)) => {
            assert_eq!(obj.code(), 2001);
            assert_eq!(obj.message(), "bad");
        }
        other => panic!("unexpected error {:?}", other),
    }
}
