//! End-to-end behaviour of the protobuf converter: exact wire bytes,
//! round-trips at boundary buffer lengths, and defensive rejection.

use parsec_interface::operations::{
    psa_mac_compute, psa_mac_verify, Convert, NativeOperation, NativeResult,
};
use parsec_interface::operations_protobuf::ProtobufConverter;
use parsec_interface::psa_algorithm;
use parsec_interface::psa_algorithm::{FullLengthMac, Mac};
use parsec_interface::requests::{BodyType, Opcode, RequestBody, ResponseBody, ResponseStatus};
use parsec_interface::secret::SecretBytes;

fn hmac_sha256() -> Mac {
    Mac::FullLength(FullLengthMac::Hmac { hash_alg: psa_algorithm::Hash::Sha256 })
}

#[test]
fn body_type_is_protobuf() {
    let converter = ProtobufConverter;
    assert_eq!(Convert::body_type(&converter), BodyType::Protobuf);
}

#[test]
fn mac_compute_operation_encodes_to_exact_bytes() {
    let converter = ProtobufConverter;
    let op = psa_mac_compute::Operation {
        key_name: "k".to_string(),
        alg: hmac_sha256(),
        input: SecretBytes::new(vec![0x01]),
    };
    let body = converter
        .operation_to_body(NativeOperation::PsaMacCompute(op))
        .unwrap();
    assert_eq!(
        body.bytes(),
        &vec![
            0x0A, 0x01, 0x6B, // field 1: key name "k"
            0x12, 0x06, 0x0A, 0x04, 0x0A, 0x02, 0x08, 0x07, // field 2: HMAC-SHA-256
            0x1A, 0x01, 0x01, // field 3: the input byte
        ]
    );
    // Decoding the exact bytes gives the operation back.
    let decoded = converter
        .body_to_operation(RequestBody::from_bytes(body.bytes().clone()), Opcode::PsaMacCompute)
        .unwrap();
    match decoded {
        NativeOperation::PsaMacCompute(decoded_op) => {
            assert_eq!(decoded_op.key_name, "k".to_string());
            assert_eq!(decoded_op.alg, hmac_sha256());
            assert_eq!(decoded_op.input, SecretBytes::new(vec![0x01]));
        },
        _ => panic!("decoded to the wrong operation kind"),
    }
}

#[test]
fn operation_roundtrip_boundary_buffer_lengths() {
    let converter = ProtobufConverter;
    // Empty, one-byte and large buffers all round-trip; a large buffer
    // exercises multi-byte varint lengths.
    for input in [vec![], vec![0xAB], vec![0x5A; 300]] {
        let op = psa_mac_verify::Operation {
            key_name: "".to_string(),
            alg: Mac::Truncated { mac_alg: FullLengthMac::CbcMac, mac_length: 300 },
            input: SecretBytes::new(input.clone()),
            mac: SecretBytes::new(vec![0xFF; 200]),
        };
        let body = converter
            .operation_to_body(NativeOperation::PsaMacVerify(op))
            .unwrap();
        match converter.body_to_operation(body, Opcode::PsaMacVerify).unwrap() {
            NativeOperation::PsaMacVerify(decoded) => {
                assert_eq!(decoded.key_name, "".to_string());
                assert_eq!(
                    decoded.alg,
                    Mac::Truncated { mac_alg: FullLengthMac::CbcMac, mac_length: 300 }
                );
                assert_eq!(decoded.input, SecretBytes::new(input));
                assert_eq!(decoded.mac, SecretBytes::new(vec![0xFF; 200]));
            },
            _ => panic!("decoded to the wrong operation kind"),
        }
    }
}

#[test]
fn result_roundtrip() {
    let converter = ProtobufConverter;
    let res = psa_mac_compute::Result { mac: SecretBytes::new(vec![0x10, 0x20]) };
    let body = converter.result_to_body(NativeResult::PsaMacCompute(res)).unwrap();
    assert_eq!(body.bytes(), &vec![0x0A, 0x02, 0x10, 0x20]);
    match converter.body_to_result(body, Opcode::PsaMacCompute).unwrap() {
        NativeResult::PsaMacCompute(decoded) => {
            assert_eq!(decoded.mac, SecretBytes::new(vec![0x10, 0x20]));
        },
        _ => panic!("decoded to the wrong result kind"),
    }

    // A verify-only result has no informational content: it encodes to an
    // empty body, and decoding an empty body trivially succeeds.
    let body = converter
        .result_to_body(NativeResult::PsaMacVerify(psa_mac_verify::Result))
        .unwrap();
    assert_eq!(body.bytes(), &Vec::<u8>::new());
    assert!(converter.body_to_result(body, Opcode::PsaMacVerify).is_ok());
}

#[test]
fn opcode_and_result_match() {
    let op = NativeOperation::PsaMacCompute(psa_mac_compute::Operation {
        key_name: "k".to_string(),
        alg: hmac_sha256(),
        input: SecretBytes::new(vec![]),
    });
    assert_eq!(op.opcode(), Opcode::PsaMacCompute);
    let res = NativeResult::PsaMacVerify(psa_mac_verify::Result);
    assert_eq!(res.opcode(), Opcode::PsaMacVerify);
}

#[test]
fn unknown_codec_entry_is_rejected_before_parsing() {
    let converter = ProtobufConverter;
    assert_eq!(
        converter
            .body_to_operation(RequestBody::from_bytes(vec![]), Opcode::Ping)
            .unwrap_err(),
        ResponseStatus::OpcodeDoesNotExist
    );
    assert_eq!(
        converter
            .body_to_result(ResponseBody::from_bytes(vec![]), Opcode::PsaSignHash)
            .unwrap_err(),
        ResponseStatus::OpcodeDoesNotExist
    );
}

#[test]
fn mangled_bodies_fail_for_every_supported_opcode() {
    let converter = ProtobufConverter;
    let mangled = vec![0x11, 0x22, 0x33, 0x44, 0x55, 0x66, 0x77, 0x88];
    for opcode in [Opcode::PsaMacCompute, Opcode::PsaMacVerify] {
        assert_eq!(
            converter
                .body_to_operation(RequestBody::from_bytes(mangled.clone()), opcode)
                .unwrap_err(),
            ResponseStatus::DeserializingBodyFailed
        );
        assert_eq!(
            converter
                .body_to_result(ResponseBody::from_bytes(mangled.clone()), opcode)
                .unwrap_err(),
            ResponseStatus::DeserializingBodyFailed
        );
    }
}

#[test]
fn missing_mandatory_algorithm_fails_decoding() {
    let converter = ProtobufConverter;
    // A body with only a key name and an input parses as a message, but the
    // mandatory algorithm discriminant is absent.
    let body = vec![0x0A, 0x01, 0x6B, 0x1A, 0x01, 0x01];
    assert_eq!(
        converter
            .body_to_operation(RequestBody::from_bytes(body), Opcode::PsaMacCompute)
            .unwrap_err(),
        ResponseStatus::InvalidEncoding
    );
}

#[test]
fn invalid_utf8_key_name_fails_decoding() {
    let converter = ProtobufConverter;
    // 0xFF can never start a UTF-8 scalar, so a key-name payload holding it
    // is rejected at the parse stage.
    let body = vec![0x0A, 0x01, 0xFF, 0x1A, 0x01, 0x01];
    assert_eq!(
        converter
            .body_to_operation(RequestBody::from_bytes(body), Opcode::PsaMacCompute)
            .unwrap_err(),
        ResponseStatus::DeserializingBodyFailed
    );
}
