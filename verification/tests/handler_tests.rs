use tx_update_vp::envelope::AuthenticatedEnvelope;
use tx_update_vp::envelope::DecodeReason;
use tx_update_vp::envelope::TxError;
use tx_update_vp::handler::apply_tx;
use tx_update_vp::host::HostModel;
use tx_update_vp::host::LoggedCall;

fn payload(addr: &[u8], opaque: &[u8]) -> Vec<u8> {
    let mut bytes = vec![1u8];
    let n = addr.len() as u32;
    bytes.extend_from_slice(&n.to_le_bytes());
    bytes.extend_from_slice(addr);
    bytes.extend_from_slice(opaque);
    bytes
}

fn envelope_for(addr: &[u8]) -> AuthenticatedEnvelope {
    AuthenticatedEnvelope {
        data: Some(payload(addr, &[])),
    }
}

const WASM_MAGIC: [u8; 4] = [0x00, 0x61, 0x73, 0x6d];

#[test]
fn success_calls_update_once_with_addr_and_bytecode() {
    let mut host = HostModel::new(Some(WASM_MAGIC.to_vec()), false);
    let r = apply_tx(&mut host, &envelope_for(b"alice"));
    assert_eq!(r, Ok(()));
    assert_eq!(
        host.log,
        vec![
            LoggedCall::FetchAttachment,
            LoggedCall::UpdateValidityPredicate {
                addr: b"alice".to_vec(),
                code: WASM_MAGIC.to_vec(),
            },
        ]
    );
}

#[test]
fn trailing_request_fields_do_not_change_the_update() {
    let mut host = HostModel::new(Some(WASM_MAGIC.to_vec()), false);
    let envelope = AuthenticatedEnvelope {
        data: Some(payload(b"alice", &[0xff, 0xee])),
    };
    let r = apply_tx(&mut host, &envelope);
    assert_eq!(r, Ok(()));
    assert_eq!(
        host.log,
        vec![
            LoggedCall::FetchAttachment,
            LoggedCall::UpdateValidityPredicate {
                addr: b"alice".to_vec(),
                code: WASM_MAGIC.to_vec(),
            },
        ]
    );
}

#[test]
fn missing_payload_makes_no_host_calls() {
    let mut host = HostModel::new(Some(WASM_MAGIC.to_vec()), false);
    let envelope = AuthenticatedEnvelope { data: None };
    let r = apply_tx(&mut host, &envelope);
    assert_eq!(r, Err(TxError::MissingPayload));
    assert!(host.log.is_empty());
}

#[test]
fn undecodable_payload_makes_no_host_calls() {
    let mut host = HostModel::new(Some(WASM_MAGIC.to_vec()), false);
    let envelope = AuthenticatedEnvelope {
        data: Some(vec![9u8, 1, 2, 3]),
    };
    let r = apply_tx(&mut host, &envelope);
    assert_eq!(r, Err(TxError::DecodeError(DecodeReason::InvalidTag)));
    assert!(host.log.is_empty());
}

#[test]
fn truncated_payload_makes_no_host_calls() {
    let mut host = HostModel::new(Some(WASM_MAGIC.to_vec()), false);
    let envelope = AuthenticatedEnvelope {
        data: Some(vec![1u8, 200, 0, 0, 0, 42]),
    };
    let r = apply_tx(&mut host, &envelope);
    assert_eq!(r, Err(TxError::DecodeError(DecodeReason::UnexpectedEnd)));
    assert!(host.log.is_empty());
}

#[test]
fn unavailable_attachment_stops_before_the_update() {
    let mut host = HostModel::new(None, false);
    let r = apply_tx(&mut host, &envelope_for(b"alice"));
    assert_eq!(r, Err(TxError::AttachmentUnavailable));
    assert_eq!(host.log, vec![LoggedCall::FetchAttachment]);
}

#[test]
fn host_rejection_is_propagated_without_retry() {
    let mut host = HostModel::new(Some(WASM_MAGIC.to_vec()), true);
    let r = apply_tx(&mut host, &envelope_for(b"alice"));
    assert_eq!(r, Err(TxError::HostUpdateFailed));
    // The update was attempted exactly once.
    assert_eq!(
        host.log,
        vec![
            LoggedCall::FetchAttachment,
            LoggedCall::UpdateValidityPredicate {
                addr: b"alice".to_vec(),
                code: WASM_MAGIC.to_vec(),
            },
        ]
    );
}

#[test]
fn two_invocations_update_twice() {
    let mut host = HostModel::new(Some(WASM_MAGIC.to_vec()), false);
    let envelope = envelope_for(b"alice");
    assert_eq!(apply_tx(&mut host, &envelope), Ok(()));
    assert_eq!(apply_tx(&mut host, &envelope), Ok(()));
    let update = LoggedCall::UpdateValidityPredicate {
        addr: b"alice".to_vec(),
        code: WASM_MAGIC.to_vec(),
    };
    assert_eq!(
        host.log,
        vec![
            LoggedCall::FetchAttachment,
            update.clone(),
            LoggedCall::FetchAttachment,
            update,
        ]
    );
}
