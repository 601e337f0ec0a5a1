//! Native representation of operations.
//!
//! Every operation kind the library supports has a payload module with its
//! operation and result records, and one variant in the closed catalogue
//! unions [`NativeOperation`] and [`NativeResult`]. Each variant has exactly
//! one legal opcode, assigned by a total mapping function; adding an
//! operation kind means adding one payload module, one catalogue variant per
//! direction, one opcode arm and one per-operation codec.

pub mod psa_mac_compare;
pub mod psa_mac_compute;
pub mod psa_mac_verify;

use vstd::prelude::*;

use crate::requests::{BodyType, Opcode, RequestBody, ResponseBody, ResponseStatus};

verus! {

/// Container type for operation conversion values, holding a native
/// operation object to be passed in or out of a converter.
#[derive(Debug)]
pub enum NativeOperation {
    /// PsaMacCompute operation
    PsaMacCompute(psa_mac_compute::Operation),
    /// PsaMacVerify operation
    PsaMacVerify(psa_mac_verify::Operation),
}

/// Mathematical view of a native operation.
pub ghost enum NativeOperationView {
    /// PsaMacCompute operation
    PsaMacCompute(psa_mac_compute::OperationView),
    /// PsaMacVerify operation
    PsaMacVerify(psa_mac_verify::OperationView),
}

impl View for NativeOperation {
    type V = NativeOperationView;

    open spec fn view(&self) -> NativeOperationView {
        match self {
            NativeOperation::PsaMacCompute(op) => NativeOperationView::PsaMacCompute(op@),
            NativeOperation::PsaMacVerify(op) => NativeOperationView::PsaMacVerify(op@),
        }
    }
}

impl NativeOperationView {
    /// The one opcode of the operation kind.
    pub open spec fn spec_opcode(self) -> Opcode {
        match self {
            NativeOperationView::PsaMacCompute(_) => Opcode::PsaMacCompute,
            NativeOperationView::PsaMacVerify(_) => Opcode::PsaMacVerify,
        }
    }
}

impl NativeOperation {
    /// Return the opcode of the operation associated.
    pub fn opcode(&self) -> (r: Opcode)
        ensures
            r == self@.spec_opcode(),
    {
        match self {
            NativeOperation::PsaMacCompute(_) => Opcode::PsaMacCompute,
            NativeOperation::PsaMacVerify(_) => Opcode::PsaMacVerify,
        }
    }
}

/// Container type for result conversion values, holding a native result
/// object to be passed in or out of the converter.
#[derive(Debug)]
pub enum NativeResult {
    /// PsaMacCompute result
    PsaMacCompute(psa_mac_compute::Result),
    /// PsaMacVerify result
    PsaMacVerify(psa_mac_verify::Result),
}

/// Mathematical view of a native result.
pub ghost enum NativeResultView {
    /// PsaMacCompute result
    PsaMacCompute(psa_mac_compute::ResultView),
    /// PsaMacVerify result
    PsaMacVerify(psa_mac_verify::ResultView),
}

impl View for NativeResult {
    type V = NativeResultView;

    open spec fn view(&self) -> NativeResultView {
        match self {
            NativeResult::PsaMacCompute(res) => NativeResultView::PsaMacCompute(res@),
            NativeResult::PsaMacVerify(res) => NativeResultView::PsaMacVerify(res@),
        }
    }
}

impl NativeResultView {
    /// The one opcode of the result kind.
    pub open spec fn spec_opcode(self) -> Opcode {
        match self {
            NativeResultView::PsaMacCompute(_) => Opcode::PsaMacCompute,
            NativeResultView::PsaMacVerify(_) => Opcode::PsaMacVerify,
        }
    }
}

impl NativeResult {
    /// Return the opcode of the operation associated.
    pub fn opcode(&self) -> (r: Opcode)
        ensures
            r == self@.spec_opcode(),
    {
        match self {
            NativeResult::PsaMacCompute(_) => Opcode::PsaMacCompute,
            NativeResult::PsaMacVerify(_) => Opcode::PsaMacVerify,
        }
    }
}

/// Definition of the operations converters must implement to allow usage of
/// a specific `BodyType`.
pub trait Convert {
    /// Get the `BodyType` associated with this converter.
    fn body_type(&self) -> BodyType;

    /// Create a native operation object from a request body.
    fn body_to_operation(&self, body: RequestBody, opcode: Opcode) -> Result<
        NativeOperation,
        ResponseStatus,
    >;

    /// Create a request body from a native operation object.
    fn operation_to_body(&self, operation: NativeOperation) -> Result<RequestBody, ResponseStatus>;

    /// Create a native result object from a response body.
    fn body_to_result(&self, body: ResponseBody, opcode: Opcode) -> Result<
        NativeResult,
        ResponseStatus,
    >;

    /// Create a response body from a native result object.
    fn result_to_body(&self, result: NativeResult) -> Result<ResponseBody, ResponseStatus>;
}

impl From<psa_mac_compute::Operation> for NativeOperation {
    /// Wrap a MAC-compute operation into the catalogue.
    fn from(op: psa_mac_compute::Operation) -> (r: Self) {
        NativeOperation::PsaMacCompute(op)
    }
}

impl vstd::std_specs::convert::FromSpecImpl<psa_mac_compute::Operation> for NativeOperation {
    open spec fn obeys_from_spec() -> bool {
        true
    }

    open spec fn from_spec(op: psa_mac_compute::Operation) -> NativeOperation {
        NativeOperation::PsaMacCompute(op)
    }
}

impl From<psa_mac_verify::Operation> for NativeOperation {
    /// Wrap a MAC-verify operation into the catalogue.
    fn from(op: psa_mac_verify::Operation) -> (r: Self) {
        NativeOperation::PsaMacVerify(op)
    }
}

impl vstd::std_specs::convert::FromSpecImpl<psa_mac_verify::Operation> for NativeOperation {
    open spec fn obeys_from_spec() -> bool {
        true
    }

    open spec fn from_spec(op: psa_mac_verify::Operation) -> NativeOperation {
        NativeOperation::PsaMacVerify(op)
    }
}

impl From<psa_mac_compute::Result> for NativeResult {
    /// Wrap a MAC-compute result into the catalogue.
    fn from(res: psa_mac_compute::Result) -> (r: Self) {
        NativeResult::PsaMacCompute(res)
    }
}

impl vstd::std_specs::convert::FromSpecImpl<psa_mac_compute::Result> for NativeResult {
    open spec fn obeys_from_spec() -> bool {
        true
    }

    open spec fn from_spec(res: psa_mac_compute::Result) -> NativeResult {
        NativeResult::PsaMacCompute(res)
    }
}

impl From<psa_mac_verify::Result> for NativeResult {
    /// Wrap a MAC-verify result into the catalogue.
    fn from(res: psa_mac_verify::Result) -> (r: Self) {
        NativeResult::PsaMacVerify(res)
    }
}

impl vstd::std_specs::convert::FromSpecImpl<psa_mac_verify::Result> for NativeResult {
    open spec fn obeys_from_spec() -> bool {
        true
    }

    open spec fn from_spec(res: psa_mac_verify::Result) -> NativeResult {
        NativeResult::PsaMacVerify(res)
    }
}

/// Opcode assignment is a bijection between operation kinds and their
/// opcodes: two operations (or two results) with the same opcode are of the
/// same kind, and an operation and a result of the same kind share their
/// opcode.
pub proof fn lemma_opcode_bijection(a: NativeOperationView, b: NativeOperationView, ra: NativeResultView, rb: NativeResultView)
    ensures
        a.spec_opcode() == b.spec_opcode() ==> (a is PsaMacCompute <==> b is PsaMacCompute),
        a.spec_opcode() == b.spec_opcode() ==> (a is PsaMacVerify <==> b is PsaMacVerify),
        ra.spec_opcode() == rb.spec_opcode() ==> (ra is PsaMacCompute <==> rb is PsaMacCompute),
        ra.spec_opcode() == rb.spec_opcode() ==> (ra is PsaMacVerify <==> rb is PsaMacVerify),
        a.spec_opcode() == ra.spec_opcode() ==> (a is PsaMacCompute <==> ra is PsaMacCompute),
{
}

} // verus!
