//! Protobuf wire codec.
//!
//! This module exposes the [`ProtobufConverter`] struct that implements the
//! [`Convert`](crate::operations::Convert) trait: for each supported
//! operation kind it decodes a wire body into the native operation or
//! result, and encodes the native value back into wire bytes. The byte
//! layer lives in [`wire_format`], the wire-shaped records in [`wire_ops`],
//! and the field-by-field conversions between wire records and native
//! values in the `convert_*` modules.

pub mod convert_psa_algorithm;
pub mod convert_psa_mac_compute;
pub mod convert_psa_mac_verify;
pub mod wire_format;
pub mod wire_ops;

use vstd::prelude::*;
use vstd::utf8::encode_utf8;

use crate::operations::{
    Convert, NativeOperation, NativeOperationView, NativeResult, NativeResultView,
};
use crate::requests::{BodyType, Opcode, RequestBody, ResponseBody, ResponseStatus};
use crate::secret::zeroize_vec;

verus! {

/// What decoding a request body for the given opcode yields: the body is
/// parsed as the opcode's wire message (a parse failure reports
/// `DeserializingBodyFailed`), then converted field by field into the
/// native operation (a missing mandatory field or invalid code reports the
/// conversion's own error, unchanged). An opcode this converter has no
/// codec entry for reports `OpcodeDoesNotExist` before any parsing.
pub open spec fn spec_body_to_operation(body: Seq<u8>, opcode: Opcode) -> Result<
    NativeOperationView,
    ResponseStatus,
> {
    match opcode {
        Opcode::PsaMacCompute => match wire_format::spec_parse_mac_compute_op(body) {
            Option::None => Err(ResponseStatus::DeserializingBodyFailed),
            Option::Some(w) => match convert_psa_mac_compute::spec_operation_from_proto(w) {
                Ok(o) => Ok(NativeOperationView::PsaMacCompute(o)),
                Err(e) => Err(e),
            },
        },
        Opcode::PsaMacVerify => match wire_format::spec_parse_mac_verify_op(body) {
            Option::None => Err(ResponseStatus::DeserializingBodyFailed),
            Option::Some(w) => match convert_psa_mac_verify::spec_operation_from_proto(w) {
                Ok(o) => Ok(NativeOperationView::PsaMacVerify(o)),
                Err(e) => Err(e),
            },
        },
        _ => Err(ResponseStatus::OpcodeDoesNotExist),
    }
}

/// What encoding a native operation yields: the operation is converted
/// field by field into its wire message (a length that does not fit the
/// wire width reports `InvalidEncoding`), then serialised to bytes, which
/// never fails.
pub open spec fn spec_operation_to_body(v: NativeOperationView) -> Result<
    Seq<u8>,
    ResponseStatus,
> {
    match v {
        NativeOperationView::PsaMacCompute(o) => match convert_psa_mac_compute::spec_operation_to_proto(
            o,
        ) {
            Ok(w) => Ok(wire_format::spec_enc_mac_compute_op(w)),
            Err(e) => Err(e),
        },
        NativeOperationView::PsaMacVerify(o) => match convert_psa_mac_verify::spec_operation_to_proto(
            o,
        ) {
            Ok(w) => Ok(wire_format::spec_enc_mac_verify_op(w)),
            Err(e) => Err(e),
        },
    }
}

/// What decoding a response body for the given opcode yields, mirroring
/// [`spec_body_to_operation`] for results.
pub open spec fn spec_body_to_result(body: Seq<u8>, opcode: Opcode) -> Result<
    NativeResultView,
    ResponseStatus,
> {
    match opcode {
        Opcode::PsaMacCompute => match wire_format::spec_parse_mac_compute_result(body) {
            Option::None => Err(ResponseStatus::DeserializingBodyFailed),
            Option::Some(w) => match convert_psa_mac_compute::spec_result_from_proto(w) {
                Ok(res) => Ok(NativeResultView::PsaMacCompute(res)),
                Err(e) => Err(e),
            },
        },
        Opcode::PsaMacVerify => match wire_format::spec_parse_mac_verify_result(body) {
            Option::None => Err(ResponseStatus::DeserializingBodyFailed),
            Option::Some(w) => match convert_psa_mac_verify::spec_result_from_proto(w) {
                Ok(res) => Ok(NativeResultView::PsaMacVerify(res)),
                Err(e) => Err(e),
            },
        },
        _ => Err(ResponseStatus::OpcodeDoesNotExist),
    }
}

/// What encoding a native result yields, mirroring
/// [`spec_operation_to_body`]; for the result kinds supported here the
/// conversion has no failing case.
pub open spec fn spec_result_to_body(v: NativeResultView) -> Result<Seq<u8>, ResponseStatus> {
    match v {
        NativeResultView::PsaMacCompute(res) => match convert_psa_mac_compute::spec_result_to_proto(
            res,
        ) {
            Ok(w) => Ok(wire_format::spec_enc_mac_compute_result(w)),
            Err(e) => Err(e),
        },
        NativeResultView::PsaMacVerify(res) => match convert_psa_mac_verify::spec_result_to_proto(
            res,
        ) {
            Ok(w) => Ok(wire_format::spec_enc_mac_verify_result(w)),
            Err(e) => Err(e),
        },
    }
}

/// Whether an operation view's buffers fit the machine's memory: true of
/// the view of every operation value that actually exists, since its
/// fields are held in owned strings and vectors.
pub open spec fn spec_operation_view_valid(v: NativeOperationView) -> bool {
    match v {
        NativeOperationView::PsaMacCompute(o) => encode_utf8(o.key_name).len() <= usize::MAX
            && o.input.len() <= usize::MAX,
        NativeOperationView::PsaMacVerify(o) => encode_utf8(o.key_name).len() <= usize::MAX
            && o.input.len() <= usize::MAX && o.mac.len() <= usize::MAX,
    }
}

/// Whether a result view's buffers fit the machine's memory.
pub open spec fn spec_result_view_valid(v: NativeResultView) -> bool {
    match v {
        NativeResultView::PsaMacCompute(res) => res.mac.len() <= usize::MAX,
        NativeResultView::PsaMacVerify(_) => true,
    }
}

/// Implementation for a converter between protobuf-encoded bodies and
/// native objects.
#[derive(Copy, Clone, Debug)]
pub struct ProtobufConverter;

impl ProtobufConverter {
    /// The wire content type this converter produces and consumes.
    pub fn protobuf_body_type(&self) -> (r: BodyType)
        ensures
            r == BodyType::Protobuf,
    {
        BodyType::Protobuf
    }

    /// Create a native operation object from a request body.
    ///
    /// # Errors
    /// - `OpcodeDoesNotExist` if this converter has no codec entry for the
    ///   opcode
    /// - `DeserializingBodyFailed` if the body does not parse as the
    ///   opcode's wire message
    /// - `InvalidEncoding` if a mandatory field is absent or a code is
    ///   invalid
    pub fn body_to_operation(&self, body: RequestBody, opcode: Opcode) -> (r: Result<
        NativeOperation,
        ResponseStatus,
    >)
        ensures
            match r {
                Ok(op) => spec_body_to_operation(body@, opcode) == Ok::<
                    NativeOperationView,
                    ResponseStatus,
                >(op@),
                Err(e) => spec_body_to_operation(body@, opcode) == Err::<
                    NativeOperationView,
                    ResponseStatus,
                >(e),
            },
    {
        match opcode {
            Opcode::PsaMacCompute => match wire_format::parse_mac_compute_op(body.bytes()) {
                Option::None => Err(ResponseStatus::DeserializingBodyFailed),
                Option::Some(w) => match convert_psa_mac_compute::operation_from_proto(w) {
                    Ok(op) => Ok(NativeOperation::PsaMacCompute(op)),
                    Err(e) => Err(e),
                },
            },
            Opcode::PsaMacVerify => match wire_format::parse_mac_verify_op(body.bytes()) {
                Option::None => Err(ResponseStatus::DeserializingBodyFailed),
                Option::Some(w) => match convert_psa_mac_verify::operation_from_proto(w) {
                    Ok(op) => Ok(NativeOperation::PsaMacVerify(op)),
                    Err(e) => Err(e),
                },
            },
            _ => Err(ResponseStatus::OpcodeDoesNotExist),
        }
    }

    /// Create a request body from a native operation object.
    ///
    /// After encoding, the wire-message buffers holding copies of secret
    /// material are actively cleared.
    ///
    /// # Errors
    /// - `InvalidEncoding` if a length field cannot be represented on the
    ///   wire
    pub fn operation_to_body(&self, operation: NativeOperation) -> (r: Result<
        RequestBody,
        ResponseStatus,
    >)
        ensures
            match r {
                Ok(body) => spec_operation_to_body(operation@) == Ok::<Seq<u8>, ResponseStatus>(
                    body@,
                ),
                Err(e) => spec_operation_to_body(operation@) == Err::<Seq<u8>, ResponseStatus>(e),
            },
    {
        match operation {
            NativeOperation::PsaMacCompute(op) => {
                match convert_psa_mac_compute::operation_to_proto(op) {
                    Err(e) => Err(e),
                    Ok(w) => {
                        let mut w = w;
                        let bytes = wire_format::encode_mac_compute_op(&w);
                        zeroize_vec(&mut w.input);
                        Ok(RequestBody::from_bytes(bytes))
                    },
                }
            },
            NativeOperation::PsaMacVerify(op) => {
                match convert_psa_mac_verify::operation_to_proto(op) {
                    Err(e) => Err(e),
                    Ok(w) => {
                        let mut w = w;
                        let bytes = wire_format::encode_mac_verify_op(&w);
                        zeroize_vec(&mut w.input);
                        zeroize_vec(&mut w.mac);
                        Ok(RequestBody::from_bytes(bytes))
                    },
                }
            },
        }
    }

    /// Create a native result object from a response body.
    ///
    /// # Errors
    /// - `OpcodeDoesNotExist` if this converter has no codec entry for the
    ///   opcode
    /// - `DeserializingBodyFailed` if the body does not parse as the
    ///   opcode's wire message
    pub fn body_to_result(&self, body: ResponseBody, opcode: Opcode) -> (r: Result<
        NativeResult,
        ResponseStatus,
    >)
        ensures
            match r {
                Ok(res) => spec_body_to_result(body@, opcode) == Ok::<
                    NativeResultView,
                    ResponseStatus,
                >(res@),
                Err(e) => spec_body_to_result(body@, opcode) == Err::<
                    NativeResultView,
                    ResponseStatus,
                >(e),
            },
    {
        match opcode {
            Opcode::PsaMacCompute => match wire_format::parse_mac_compute_result(body.bytes()) {
                Option::None => Err(ResponseStatus::DeserializingBodyFailed),
                Option::Some(w) => match convert_psa_mac_compute::result_from_proto(w) {
                    Ok(res) => Ok(NativeResult::PsaMacCompute(res)),
                    Err(e) => Err(e),
                },
            },
            Opcode::PsaMacVerify => match wire_format::parse_mac_verify_result(body.bytes()) {
                Option::None => Err(ResponseStatus::DeserializingBodyFailed),
                Option::Some(w) => match convert_psa_mac_verify::result_from_proto(w) {
                    Ok(res) => Ok(NativeResult::PsaMacVerify(res)),
                    Err(e) => Err(e),
                },
            },
            _ => Err(ResponseStatus::OpcodeDoesNotExist),
        }
    }

    /// Create a response body from a native result object.
    ///
    /// After encoding, the wire-message buffers holding copies of secret
    /// material are actively cleared.
    pub fn result_to_body(&self, result: NativeResult) -> (r: Result<
        ResponseBody,
        ResponseStatus,
    >)
        ensures
            match r {
                Ok(body) => spec_result_to_body(result@) == Ok::<Seq<u8>, ResponseStatus>(body@),
                Err(e) => spec_result_to_body(result@) == Err::<Seq<u8>, ResponseStatus>(e),
            },
    {
        match result {
            NativeResult::PsaMacCompute(res) => {
                match convert_psa_mac_compute::result_to_proto(res) {
                    Err(e) => Err(e),
                    Ok(w) => {
                        let mut w = w;
                        let bytes = wire_format::encode_mac_compute_result(&w);
                        zeroize_vec(&mut w.mac);
                        Ok(ResponseBody::from_bytes(bytes))
                    },
                }
            },
            NativeResult::PsaMacVerify(res) => {
                match convert_psa_mac_verify::result_to_proto(res) {
                    Err(e) => Err(e),
                    Ok(w) => {
                        let bytes = wire_format::encode_mac_verify_result(&w);
                        Ok(ResponseBody::from_bytes(bytes))
                    },
                }
            },
        }
    }
}

impl Convert for ProtobufConverter {
    fn body_type(&self) -> BodyType {
        self.protobuf_body_type()
    }

    fn body_to_operation(&self, body: RequestBody, opcode: Opcode) -> Result<
        NativeOperation,
        ResponseStatus,
    > {
        ProtobufConverter::body_to_operation(self, body, opcode)
    }

    fn operation_to_body(&self, operation: NativeOperation) -> Result<
        RequestBody,
        ResponseStatus,
    > {
        ProtobufConverter::operation_to_body(self, operation)
    }

    fn body_to_result(&self, body: ResponseBody, opcode: Opcode) -> Result<
        NativeResult,
        ResponseStatus,
    > {
        ProtobufConverter::body_to_result(self, body, opcode)
    }

    fn result_to_body(&self, result: NativeResult) -> Result<ResponseBody, ResponseStatus> {
        ProtobufConverter::result_to_body(self, result)
    }
}

/// Round-trip law for operations: every native operation the encoder
/// accepts decodes from its body, under its own opcode, back to itself.
pub proof fn lemma_operation_round_trip(v: NativeOperationView)
    requires
        spec_operation_view_valid(v),
    ensures
        spec_operation_to_body(v) matches Ok(bytes) ==> spec_body_to_operation(
            bytes,
            v.spec_opcode(),
        ) == Ok::<NativeOperationView, ResponseStatus>(v),
{
    match v {
        NativeOperationView::PsaMacCompute(o) => {
            convert_psa_mac_compute::lemma_operation_proto_roundtrip(o);
            match convert_psa_mac_compute::spec_operation_to_proto(o) {
                Ok(w) => {
                    wire_format::lemma_mac_compute_op_byte_roundtrip(w);
                },
                Err(_) => {},
            }
        },
        NativeOperationView::PsaMacVerify(o) => {
            convert_psa_mac_verify::lemma_operation_proto_roundtrip(o);
            match convert_psa_mac_verify::spec_operation_to_proto(o) {
                Ok(w) => {
                    wire_format::lemma_mac_verify_op_byte_roundtrip(w);
                },
                Err(_) => {},
            }
        },
    }
}

/// Re-encoding law for operations: every body that decodes under some
/// opcode yields an operation of exactly that opcode, whose re-encoding
/// decodes back to the same operation. Dispatch by opcode thus routes each
/// body to a codec that accepts exactly that operation kind.
pub proof fn lemma_operation_reencode(bytes: Seq<u8>, opcode: Opcode)
    requires
        bytes.len() <= usize::MAX,
    ensures
        spec_body_to_operation(bytes, opcode) matches Ok(v) ==> v.spec_opcode() == opcode
            && spec_operation_view_valid(v) && (match spec_operation_to_body(v) {
            Ok(b2) => spec_body_to_operation(b2, opcode) == Ok::<
                NativeOperationView,
                ResponseStatus,
            >(v),
            Err(_) => false,
        }),
{
    match opcode {
        Opcode::PsaMacCompute => {
            wire_format::lemma_parse_mac_compute_op_wf(bytes);
            match wire_format::spec_parse_mac_compute_op(bytes) {
                Option::Some(w) => {
                    convert_psa_mac_compute::lemma_operation_proto_reencode(w);
                    wire_format::lemma_mac_compute_op_byte_roundtrip(w);
                    match convert_psa_mac_compute::spec_operation_from_proto(w) {
                        Ok(o) => {
                            convert_psa_mac_compute::lemma_operation_proto_roundtrip(o);
                        },
                        Err(_) => {},
                    }
                },
                Option::None => {},
            }
        },
        Opcode::PsaMacVerify => {
            wire_format::lemma_parse_mac_verify_op_wf(bytes);
            match wire_format::spec_parse_mac_verify_op(bytes) {
                Option::Some(w) => {
                    convert_psa_mac_verify::lemma_operation_proto_reencode(w);
                    wire_format::lemma_mac_verify_op_byte_roundtrip(w);
                    match convert_psa_mac_verify::spec_operation_from_proto(w) {
                        Ok(o) => {
                            convert_psa_mac_verify::lemma_operation_proto_roundtrip(o);
                        },
                        Err(_) => {},
                    }
                },
                Option::None => {},
            }
        },
        _ => {},
    }
}

/// Round-trip law for results: every native result the encoder accepts
/// decodes from its body, under its own opcode, back to itself. A result
/// with no informational content encodes to an empty body, and decoding an
/// empty body for it always succeeds.
pub proof fn lemma_result_round_trip(v: NativeResultView)
    requires
        spec_result_view_valid(v),
    ensures
        spec_result_to_body(v) matches Ok(bytes) ==> spec_body_to_result(bytes, v.spec_opcode())
            == Ok::<NativeResultView, ResponseStatus>(v),
{
    match v {
        NativeResultView::PsaMacCompute(res) => {
            match convert_psa_mac_compute::spec_result_to_proto(res) {
                Ok(w) => {
                    convert_psa_mac_compute::lemma_result_proto_roundtrip(res, w);
                    wire_format::lemma_mac_compute_result_byte_roundtrip(w);
                },
                Err(_) => {},
            }
        },
        NativeResultView::PsaMacVerify(_) => {},
    }
}

/// Re-encoding law for results: every body that decodes under some opcode
/// yields a result of exactly that opcode, whose re-encoding decodes back
/// to the same result.
pub proof fn lemma_result_reencode(bytes: Seq<u8>, opcode: Opcode)
    requires
        bytes.len() <= usize::MAX,
    ensures
        spec_body_to_result(bytes, opcode) matches Ok(v) ==> v.spec_opcode() == opcode
            && spec_result_view_valid(v) && (match spec_result_to_body(v) {
            Ok(b2) => spec_body_to_result(b2, opcode) == Ok::<NativeResultView, ResponseStatus>(v),
            Err(_) => false,
        }),
{
    match opcode {
        Opcode::PsaMacCompute => {
            wire_format::lemma_parse_mac_compute_result_wf(bytes);
            match wire_format::spec_parse_mac_compute_result(bytes) {
                Option::Some(w) => {
                    wire_format::lemma_mac_compute_result_byte_roundtrip(w);
                    convert_psa_mac_compute::lemma_result_proto_roundtrip(
                        crate::operations::psa_mac_compute::ResultView { mac: w.mac },
                        w,
                    );
                },
                Option::None => {},
            }
        },
        _ => {},
    }
}

} // verus!
