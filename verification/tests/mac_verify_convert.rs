//! The MAC verify codec: wire messages, bodies and the converter.

use parsec_interface::operations::psa_mac_verify::{Operation, Result};
use parsec_interface::operations::NativeOperation;
use parsec_interface::operations_protobuf::convert_psa_algorithm::{hash_to_i32, mac_from_proto};
use parsec_interface::operations_protobuf::convert_psa_mac_verify::{
    operation_from_proto, operation_to_proto, result_from_proto, result_to_proto,
};
use parsec_interface::operations_protobuf::wire_ops;
use parsec_interface::operations_protobuf::ProtobufConverter;
use parsec_interface::psa_algorithm;
use parsec_interface::requests::{Opcode, RequestBody, ResponseBody};
use parsec_interface::secret::SecretBytes;

fn make_mac() -> Option<wire_ops::Mac> {
    Some(wire_ops::Mac {
        variant: Some(wire_ops::MacVariant::FullLength(wire_ops::FullLength {
            variant: Some(wire_ops::FullLengthVariant::Hmac(wire_ops::Hmac {
                hash_alg: hash_to_i32(psa_algorithm::Hash::Sha256),
            })),
        })),
    })
}

#[test]
fn mac_verify_proto_to_op() {
    let key_name = "test".to_string();
    let input = vec![0x11, 0x22, 0x33];
    let mac = vec![0x44, 0x55, 0x66];
    let alg = make_mac();

    let mut proto: wire_ops::MacVerifyOperation = Default::default();
    proto.key_name = key_name.clone();
    proto.input = input.clone();
    proto.mac = mac.clone();
    proto.alg = alg;

    let op: Operation = operation_from_proto(proto).expect("Failed to convert");

    assert_eq!(op.key_name, key_name);
    assert_eq!(op.input, SecretBytes::new(input));
    assert_eq!(op.mac, SecretBytes::new(mac));
    assert_eq!(op.alg, mac_from_proto(alg.unwrap()).unwrap());
}

#[test]
fn mac_verify_bad_proto_to_op() {
    let key_name = "test".to_string();
    let input = vec![0x11, 0x22, 0x33];
    let mac = vec![0x44, 0x55, 0x66];

    let mut proto: wire_ops::MacVerifyOperation = Default::default();
    proto.key_name = key_name.clone();
    proto.input = input.clone();
    proto.mac = mac.clone();
    proto.alg = None;

    assert!(operation_from_proto(proto).is_err());
}

#[test]
fn mac_verify_op_to_proto() {
    let key_name = "test".to_string();
    let input = vec![0x11, 0x22, 0x33];
    let mac = vec![0x44, 0x55, 0x66];
    let alg = make_mac();

    let op = Operation {
        key_name: key_name.clone(),
        alg: mac_from_proto(alg.unwrap()).unwrap(),
        input: SecretBytes::new(input.clone()),
        mac: SecretBytes::new(mac.clone()),
    };

    let proto: wire_ops::MacVerifyOperation = operation_to_proto(op).expect("Failed to convert");

    assert_eq!(proto.input, input);
    assert_eq!(proto.mac, mac);
    assert_eq!(proto.key_name, key_name);
}

#[test]
fn mac_verify_proto_to_resp() {
    let proto = wire_ops::MacVerifyResult {};
    let _res: Result = result_from_proto(proto).expect("Failed conversion");
}

#[test]
fn mac_verify_resp_to_proto() {
    let res = Result {};
    let _proto: wire_ops::MacVerifyResult = result_to_proto(res).expect("Failed conversion");
}

#[test]
fn op_hash_compare_e2e() {
    let converter = ProtobufConverter;
    let alg = make_mac();
    let key_name = "test".to_string();
    let op = Operation {
        key_name: key_name.clone(),
        input: SecretBytes::new(vec![0x11, 0x22, 0x33]),
        mac: SecretBytes::new(vec![0x44, 0x55, 0x66]),
        alg: mac_from_proto(alg.unwrap()).unwrap(),
    };
    let body = converter
        .operation_to_body(NativeOperation::PsaMacVerify(op))
        .expect("Failed to convert request");

    assert!(converter.body_to_operation(body, Opcode::PsaMacVerify).is_ok());
}

#[test]
fn result_from_mangled_resp_body() {
    let converter = ProtobufConverter;
    let resp_body = ResponseBody::from_bytes(vec![0x11, 0x22, 0x33, 0x44, 0x55, 0x66, 0x77, 0x88]);
    assert!(converter.body_to_result(resp_body, Opcode::PsaMacVerify).is_err());
}

#[test]
fn op_from_mangled_req_body() {
    let converter = ProtobufConverter;
    let req_body = RequestBody::from_bytes(vec![0x11, 0x22, 0x33, 0x44, 0x55, 0x66, 0x77, 0x88]);

    assert!(converter.body_to_operation(req_body, Opcode::PsaMacVerify).is_err());
}
