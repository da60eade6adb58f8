//! The rules of the datagram transport.

use privsep_ssh::codec::{encode_request, encode_response};
use privsep_ssh::message::{Payload, PayloadType, Request};
use privsep_ssh::transport::{
    check_outgoing, check_payload, count_descriptors, receive_request, receive_response,
    Ancillary, ProtocolError, Received, MAX_FDS, MAX_PAYLOAD,
};

fn datagram(bytes: usize, ancillary: Vec<Ancillary>) -> Received {
    Received {
        bytes,
        payload_truncated: false,
        control_truncated: false,
        ancillary,
    }
}

#[test]
fn limits() {
    assert_eq!(MAX_PAYLOAD, 1024);
    assert_eq!(MAX_FDS, 3);
}

#[test]
fn outgoing_within_the_limits() {
    assert_eq!(check_outgoing(0, 0), Ok(()));
    assert_eq!(check_outgoing(1024, 3), Ok(()));
    assert_eq!(check_outgoing(1, 1), Ok(()));
}

#[test]
fn outgoing_payload_too_large() {
    assert_eq!(check_outgoing(1025, 0), Err(ProtocolError::PayloadTooLarge));
    assert_eq!(
        check_outgoing(usize::MAX, 0),
        Err(ProtocolError::PayloadTooLarge)
    );
    // The payload is judged before the descriptors.
    assert_eq!(check_outgoing(1025, 4), Err(ProtocolError::PayloadTooLarge));
}

#[test]
fn outgoing_too_many_descriptors() {
    assert_eq!(
        check_outgoing(10, 4),
        Err(ProtocolError::TooManyDescriptors)
    );
    assert_eq!(
        check_outgoing(1024, usize::MAX),
        Err(ProtocolError::TooManyDescriptors)
    );
}

#[test]
fn payload_must_arrive_whole() {
    assert_eq!(check_payload(&datagram(0, vec![]), 1024), Ok(()));
    assert_eq!(check_payload(&datagram(1024, vec![]), 1024), Ok(()));
    assert_eq!(
        check_payload(&datagram(1025, vec![]), 2048),
        Err(ProtocolError::PayloadTooLarge)
    );
    // More bytes than the buffer holds cannot have arrived whole.
    assert_eq!(
        check_payload(&datagram(11, vec![]), 10),
        Err(ProtocolError::PayloadTooLarge)
    );
    let mut cut = datagram(1024, vec![]);
    cut.payload_truncated = true;
    assert_eq!(
        check_payload(&cut, 1024),
        Err(ProtocolError::PayloadTooLarge)
    );
}

#[test]
fn descriptors_are_counted_over_all_messages() {
    assert_eq!(count_descriptors(&datagram(0, vec![])), Ok(0));
    assert_eq!(
        count_descriptors(&datagram(0, vec![Ancillary::Rights(0)])),
        Ok(0)
    );
    assert_eq!(
        count_descriptors(&datagram(0, vec![Ancillary::Rights(3)])),
        Ok(3)
    );
    assert_eq!(
        count_descriptors(&datagram(
            0,
            vec![
                Ancillary::Rights(1),
                Ancillary::Rights(0),
                Ancillary::Rights(2)
            ]
        )),
        Ok(3)
    );
}

#[test]
fn excess_descriptors_are_refused() {
    assert_eq!(
        count_descriptors(&datagram(0, vec![Ancillary::Rights(4)])),
        Err(ProtocolError::TooManyDescriptors)
    );
    assert_eq!(
        count_descriptors(&datagram(
            0,
            vec![Ancillary::Rights(2), Ancillary::Rights(2)]
        )),
        Err(ProtocolError::TooManyDescriptors)
    );
    assert_eq!(
        count_descriptors(&datagram(
            0,
            vec![Ancillary::Rights(usize::MAX), Ancillary::Rights(usize::MAX)]
        )),
        Err(ProtocolError::TooManyDescriptors)
    );
    let mut cut = datagram(0, vec![Ancillary::Rights(1)]);
    cut.control_truncated = true;
    assert_eq!(
        count_descriptors(&cut),
        Err(ProtocolError::TooManyDescriptors)
    );
}

#[test]
fn other_control_messages_are_refused() {
    assert_eq!(
        count_descriptors(&datagram(0, vec![Ancillary::Other])),
        Err(ProtocolError::UnexpectedAncillary)
    );
    assert_eq!(
        count_descriptors(&datagram(
            0,
            vec![Ancillary::Rights(1), Ancillary::Other]
        )),
        Err(ProtocolError::UnexpectedAncillary)
    );
    // A foreign message is reported even when there are too many descriptors.
    assert_eq!(
        count_descriptors(&datagram(
            0,
            vec![Ancillary::Rights(9), Ancillary::Other]
        )),
        Err(ProtocolError::UnexpectedAncillary)
    );
}

#[test]
fn received_request() {
    let request = Request::Sign {
        hash: [3; 32],
        public_key: vec![1, 2],
    };
    let bytes = encode_request(&request);
    let mut buffer = vec![0xEEu8; 1024];
    buffer[..bytes.len()].copy_from_slice(&bytes);
    assert_eq!(
        receive_request(&buffer, &datagram(bytes.len(), vec![])),
        Ok((request.clone(), 0))
    );
    assert_eq!(
        receive_request(&buffer, &datagram(bytes.len(), vec![Ancillary::Rights(2)])),
        Ok((request, 2))
    );
}

#[test]
fn received_request_errors_in_order() {
    let bytes = encode_request(&Request::Wait);
    // A payload that was cut is reported before anything is decoded.
    let mut cut = datagram(bytes.len(), vec![Ancillary::Other]);
    cut.payload_truncated = true;
    assert_eq!(
        receive_request(&bytes, &cut),
        Err(ProtocolError::PayloadTooLarge)
    );
    // A payload that is no request is reported before the control data.
    assert_eq!(
        receive_request(&[0x99], &datagram(1, vec![Ancillary::Other])),
        Err(ProtocolError::Malformed)
    );
    assert_eq!(
        receive_request(&bytes, &datagram(bytes.len(), vec![Ancillary::Other])),
        Err(ProtocolError::UnexpectedAncillary)
    );
    assert_eq!(
        receive_request(&bytes, &datagram(bytes.len(), vec![Ancillary::Rights(4)])),
        Err(ProtocolError::TooManyDescriptors)
    );
}

#[test]
fn received_response() {
    let bytes = encode_response(&Ok(Payload::ExitCode(Some(42))));
    assert_eq!(
        receive_response(&bytes, &datagram(bytes.len(), vec![]), PayloadType::ExitCode),
        Ok((Ok(Payload::ExitCode(Some(42))), 0))
    );
    let bytes = encode_response(&Err("no child running".to_string()));
    assert_eq!(
        receive_response(&bytes, &datagram(bytes.len(), vec![]), PayloadType::ExitCode),
        Ok((Err("no child running".to_string()), 0))
    );
    let bytes = encode_response(&Ok(Payload::Unit));
    assert_eq!(
        receive_response(
            &bytes,
            &datagram(bytes.len(), vec![Ancillary::Rights(3)]),
            PayloadType::Unit
        ),
        Ok((Ok(Payload::Unit), 3))
    );
}

#[test]
fn received_response_errors() {
    assert_eq!(
        receive_response(&[0, 7], &datagram(2, vec![]), PayloadType::Flag),
        Err(ProtocolError::Malformed)
    );
    assert_eq!(
        receive_response(&[0, 1], &datagram(3, vec![]), PayloadType::Flag),
        Err(ProtocolError::PayloadTooLarge)
    );
    assert_eq!(
        receive_response(&[0, 1], &datagram(2, vec![Ancillary::Other]), PayloadType::Flag),
        Err(ProtocolError::UnexpectedAncillary)
    );
    // Only the bytes that arrived are read.
    assert_eq!(
        receive_response(&[0, 1], &datagram(1, vec![]), PayloadType::Flag),
        Err(ProtocolError::Malformed)
    );
    assert_eq!(
        receive_response(&[0, 1], &datagram(1, vec![]), PayloadType::Unit),
        Ok((Ok(Payload::Unit), 0))
    );
}

#[test]
fn largest_payload_is_received() {
    let text = "y".repeat(1021);
    let bytes = encode_response(&Err(text.clone()));
    assert_eq!(bytes.len(), 1024);
    assert_eq!(
        receive_response(&bytes, &datagram(1024, vec![]), PayloadType::Unit),
        Ok((Err(text), 0))
    );
}
