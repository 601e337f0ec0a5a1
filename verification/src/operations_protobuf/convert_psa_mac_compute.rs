//! Conversions between the native MAC compute operation and result and
//! their wire messages.

use vstd::prelude::*;

use crate::operations::psa_mac_compute;
use crate::operations_protobuf::convert_psa_algorithm::{
    lemma_mac_reencode, lemma_mac_roundtrip, mac_from_proto, mac_to_proto, spec_mac_from_proto,
    spec_mac_to_proto,
};
use crate::operations_protobuf::wire_ops;
use crate::requests::ResponseStatus;
use crate::secret::SecretBytes;

verus! {

/// The native MAC compute operation a wire message decodes to: the
/// algorithm field is mandatory.
pub open spec fn spec_operation_from_proto(w: wire_ops::MacComputeOperationView) -> Result<
    psa_mac_compute::OperationView,
    ResponseStatus,
> {
    match w.alg {
        Option::None => Err(ResponseStatus::InvalidEncoding),
        Option::Some(mac_proto) => match spec_mac_from_proto(mac_proto) {
            Ok(alg) => Ok(
                psa_mac_compute::OperationView { key_name: w.key_name, alg, input: w.input },
            ),
            Err(e) => Err(e),
        },
    }
}

/// The wire message of a native MAC compute operation.
pub open spec fn spec_operation_to_proto(o: psa_mac_compute::OperationView) -> Result<
    wire_ops::MacComputeOperationView,
    ResponseStatus,
> {
    match spec_mac_to_proto(o.alg) {
        Ok(m) => Ok(
            wire_ops::MacComputeOperationView {
                key_name: o.key_name,
                alg: Option::Some(m),
                input: o.input,
            },
        ),
        Err(e) => Err(e),
    }
}

/// MAC compute operation: from wire message to native.
///
/// # Errors
/// - `InvalidEncoding` if the mandatory algorithm field is absent or does
///   not decode
pub fn operation_from_proto(proto_op: wire_ops::MacComputeOperation) -> (r: Result<
    psa_mac_compute::Operation,
    ResponseStatus,
>)
    ensures
        match r {
            Ok(op) => spec_operation_from_proto(proto_op@) == Ok::<
                psa_mac_compute::OperationView,
                ResponseStatus,
            >(op@),
            Err(e) => spec_operation_from_proto(proto_op@) == Err::<
                psa_mac_compute::OperationView,
                ResponseStatus,
            >(e),
        },
{
    let alg = match proto_op.alg {
        Option::None => {
            return Err(ResponseStatus::InvalidEncoding);
        },
        Option::Some(mac_proto) => mac_from_proto(mac_proto)?,
    };
    Ok(
        psa_mac_compute::Operation {
            key_name: proto_op.key_name,
            alg,
            input: SecretBytes::new(proto_op.input),
        },
    )
}

/// MAC compute operation: from native to wire message.
///
/// # Errors
/// - `InvalidEncoding` if the truncation length cannot be represented on
///   the wire
pub fn operation_to_proto(op: psa_mac_compute::Operation) -> (r: Result<
    wire_ops::MacComputeOperation,
    ResponseStatus,
>)
    ensures
        match r {
            Ok(w) => spec_operation_to_proto(op@) == Ok::<
                wire_ops::MacComputeOperationView,
                ResponseStatus,
            >(w@),
            Err(e) => spec_operation_to_proto(op@) == Err::<
                wire_ops::MacComputeOperationView,
                ResponseStatus,
            >(e),
        },
{
    let alg = Option::Some(mac_to_proto(op.alg)?);
    Ok(
        wire_ops::MacComputeOperation {
            key_name: op.key_name,
            alg,
            input: op.input.to_vec(),
        },
    )
}

/// The native MAC compute result a wire message decodes to; this never
/// fails.
pub open spec fn spec_result_from_proto(w: wire_ops::MacComputeResultView) -> Result<
    psa_mac_compute::ResultView,
    ResponseStatus,
> {
    Ok(psa_mac_compute::ResultView { mac: w.mac })
}

/// The wire message of a native MAC compute result; this never fails.
pub open spec fn spec_result_to_proto(res: psa_mac_compute::ResultView) -> Result<
    wire_ops::MacComputeResultView,
    ResponseStatus,
> {
    Ok(wire_ops::MacComputeResultView { mac: res.mac })
}

/// MAC compute result: from wire message to native.
pub fn result_from_proto(proto_result: wire_ops::MacComputeResult) -> (r: Result<
    psa_mac_compute::Result,
    ResponseStatus,
>)
    ensures
        match r {
            Ok(res) => spec_result_from_proto(proto_result@) == Ok::<
                psa_mac_compute::ResultView,
                ResponseStatus,
            >(res@),
            Err(e) => false,
        },
{
    Ok(psa_mac_compute::Result { mac: SecretBytes::new(proto_result.mac) })
}

/// MAC compute result: from native to wire message.
pub fn result_to_proto(res: psa_mac_compute::Result) -> (r: Result<
    wire_ops::MacComputeResult,
    ResponseStatus,
>)
    ensures
        match r {
            Ok(w) => spec_result_to_proto(res@) == Ok::<
                wire_ops::MacComputeResultView,
                ResponseStatus,
            >(w@),
            Err(e) => false,
        },
{
    Ok(wire_ops::MacComputeResult { mac: res.mac.to_vec() })
}

/// Every native MAC compute operation the encoder accepts round-trips
/// through its wire message.
pub proof fn lemma_operation_proto_roundtrip(o: psa_mac_compute::OperationView)
    ensures
        spec_operation_to_proto(o) matches Ok(w) ==> spec_operation_from_proto(w) == Ok::<
            psa_mac_compute::OperationView,
            ResponseStatus,
        >(o),
{
    lemma_mac_roundtrip(o.alg);
}

/// A MAC compute operation wire message accepted by the decoder re-encodes
/// to the same message.
pub proof fn lemma_operation_proto_reencode(w: wire_ops::MacComputeOperationView)
    ensures
        spec_operation_from_proto(w) matches Ok(o) ==> spec_operation_to_proto(o) == Ok::<
            wire_ops::MacComputeOperationView,
            ResponseStatus,
        >(w),
{
    match w.alg {
        Option::Some(mac_proto) => {
            lemma_mac_reencode(mac_proto);
        },
        Option::None => {},
    }
}

/// Every native MAC compute result round-trips through its wire message,
/// and every wire message re-encodes to itself.
pub proof fn lemma_result_proto_roundtrip(
    res: psa_mac_compute::ResultView,
    w: wire_ops::MacComputeResultView,
)
    ensures
        spec_result_to_proto(res) matches Ok(wr) ==> spec_result_from_proto(wr) == Ok::<
            psa_mac_compute::ResultView,
            ResponseStatus,
        >(res),
        spec_result_from_proto(w) matches Ok(r2) ==> spec_result_to_proto(r2) == Ok::<
            wire_ops::MacComputeResultView,
            ResponseStatus,
        >(w),
{
}

} // verus!
