//! Conversions between the native MAC verify operation and result and
//! their wire messages.

use vstd::prelude::*;

use crate::operations::psa_mac_verify;
use crate::operations_protobuf::convert_psa_algorithm::{
    lemma_mac_reencode, lemma_mac_roundtrip, mac_from_proto, mac_to_proto, spec_mac_from_proto,
    spec_mac_to_proto,
};
use crate::operations_protobuf::wire_ops;
use crate::requests::ResponseStatus;
use crate::secret::SecretBytes;

verus! {

/// The native MAC verify operation a wire message decodes to: the
/// algorithm field is mandatory.
pub open spec fn spec_operation_from_proto(w: wire_ops::MacVerifyOperationView) -> Result<
    psa_mac_verify::OperationView,
    ResponseStatus,
> {
    match w.alg {
        Option::None => Err(ResponseStatus::InvalidEncoding),
        Option::Some(mac_proto) => match spec_mac_from_proto(mac_proto) {
            Ok(alg) => Ok(
                psa_mac_verify::OperationView {
                    key_name: w.key_name,
                    alg,
                    input: w.input,
                    mac: w.mac,
                },
            ),
            Err(e) => Err(e),
        },
    }
}

/// The wire message of a native MAC verify operation.
pub open spec fn spec_operation_to_proto(o: psa_mac_verify::OperationView) -> Result<
    wire_ops::MacVerifyOperationView,
    ResponseStatus,
> {
    match spec_mac_to_proto(o.alg) {
        Ok(m) => Ok(
            wire_ops::MacVerifyOperationView {
                key_name: o.key_name,
                alg: Option::Some(m),
                input: o.input,
                mac: o.mac,
            },
        ),
        Err(e) => Err(e),
    }
}

/// MAC verify operation: from wire message to native.
///
/// # Errors
/// - `InvalidEncoding` if the mandatory algorithm field is absent or does
///   not decode
pub fn operation_from_proto(proto_op: wire_ops::MacVerifyOperation) -> (r: Result<
    psa_mac_verify::Operation,
    ResponseStatus,
>)
    ensures
        match r {
            Ok(op) => spec_operation_from_proto(proto_op@) == Ok::<
                psa_mac_verify::OperationView,
                ResponseStatus,
            >(op@),
            Err(e) => spec_operation_from_proto(proto_op@) == Err::<
                psa_mac_verify::OperationView,
                ResponseStatus,
            >(e),
        },
{
    let key_name = proto_op.key_name;
    let alg = match proto_op.alg {
        Option::None => {
            return Err(ResponseStatus::InvalidEncoding);
        },
        Option::Some(mac_proto) => mac_from_proto(mac_proto)?,
    };
    let mac = SecretBytes::new(proto_op.mac);
    let input = SecretBytes::new(proto_op.input);
    Ok(psa_mac_verify::Operation { key_name, alg, input, mac })
}

/// MAC verify operation: from native to wire message.
///
/// # Errors
/// - `InvalidEncoding` if the truncation length cannot be represented on
///   the wire
pub fn operation_to_proto(op: psa_mac_verify::Operation) -> (r: Result<
    wire_ops::MacVerifyOperation,
    ResponseStatus,
>)
    ensures
        match r {
            Ok(w) => spec_operation_to_proto(op@) == Ok::<
                wire_ops::MacVerifyOperationView,
                ResponseStatus,
            >(w@),
            Err(e) => spec_operation_to_proto(op@) == Err::<
                wire_ops::MacVerifyOperationView,
                ResponseStatus,
            >(e),
        },
{
    let alg = Option::Some(mac_to_proto(op.alg)?);
    Ok(
        wire_ops::MacVerifyOperation {
            key_name: op.key_name,
            mac: op.mac.to_vec(),
            input: op.input.to_vec(),
            alg,
        },
    )
}

/// The native MAC verify result a wire message decodes to; the message has
/// no fields, so this never fails.
pub open spec fn spec_result_from_proto(w: wire_ops::MacVerifyResult) -> Result<
    psa_mac_verify::ResultView,
    ResponseStatus,
> {
    Ok(psa_mac_verify::ResultView {  })
}

/// The wire message of a native MAC verify result; this never fails.
pub open spec fn spec_result_to_proto(res: psa_mac_verify::ResultView) -> Result<
    wire_ops::MacVerifyResult,
    ResponseStatus,
> {
    Ok(wire_ops::MacVerifyResult {  })
}

/// MAC verify result: from wire message to native.
pub fn result_from_proto(proto_result: wire_ops::MacVerifyResult) -> (r: Result<
    psa_mac_verify::Result,
    ResponseStatus,
>)
    ensures
        match r {
            Ok(res) => spec_result_from_proto(proto_result) == Ok::<
                psa_mac_verify::ResultView,
                ResponseStatus,
            >(res@),
            Err(e) => false,
        },
{
    Ok(psa_mac_verify::Result)
}

/// MAC verify result: from native to wire message.
pub fn result_to_proto(res: psa_mac_verify::Result) -> (r: Result<
    wire_ops::MacVerifyResult,
    ResponseStatus,
>)
    ensures
        match r {
            Ok(w) => spec_result_to_proto(res@) == Ok::<
                wire_ops::MacVerifyResult,
                ResponseStatus,
            >(w),
            Err(e) => false,
        },
{
    Ok(wire_ops::MacVerifyResult {  })
}

/// Every native MAC verify operation the encoder accepts round-trips
/// through its wire message.
pub proof fn lemma_operation_proto_roundtrip(o: psa_mac_verify::OperationView)
    ensures
        spec_operation_to_proto(o) matches Ok(w) ==> spec_operation_from_proto(w) == Ok::<
            psa_mac_verify::OperationView,
            ResponseStatus,
        >(o),
{
    lemma_mac_roundtrip(o.alg);
}

/// A MAC verify operation wire message accepted by the decoder re-encodes
/// to the same message.
pub proof fn lemma_operation_proto_reencode(w: wire_ops::MacVerifyOperationView)
    ensures
        spec_operation_from_proto(w) matches Ok(o) ==> spec_operation_to_proto(o) == Ok::<
            wire_ops::MacVerifyOperationView,
            ResponseStatus,
        >(w),
{
    match w.alg {
        Option::Some(mac_proto) => {
            lemma_mac_reencode(mac_proto);
        },
        Option::None => {},
    }
}

} // verus!
