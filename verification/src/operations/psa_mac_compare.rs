//! # PsaMacCompare operation
//!
//! Compute the MAC value of a message and compare it with a reference
//! value.

use vstd::prelude::*;
use crate::psa_algorithm::Mac;
use crate::secret::SecretBytes;

verus! {

/// Native object for MAC compare operations.
#[derive(Debug)]
pub struct Operation {
    /// Defines which key should be used for the MAC operation.
    pub key_name: String,
    /// The MAC algorithm to compute.
    pub alg: Mac,
    /// The input from which to generate a MAC value.
    pub input: SecretBytes,
    /// The reference MAC value.
    pub mac: SecretBytes,
}

/// Mathematical view of a MAC compare operation.
pub ghost struct OperationView {
    /// The key name as a character sequence.
    pub key_name: Seq<char>,
    /// The MAC algorithm to compute.
    pub alg: Mac,
    /// The bytes of the input buffer.
    pub input: Seq<u8>,
    /// The bytes of the reference MAC value.
    pub mac: Seq<u8>,
}

impl View for Operation {
    type V = OperationView;

    open spec fn view(&self) -> OperationView {
        OperationView {
            key_name: self.key_name@,
            alg: self.alg,
            input: self.input@,
            mac: self.mac@,
        }
    }
}

/// Native object for MAC compare result.
///
/// The result carries no information: a comparison that failed is reported
/// through the response status, not through the body.
#[derive(Debug, Default, Copy, Clone)]
pub struct Result;

/// Mathematical view of a MAC compare result: there is nothing to record.
pub ghost struct ResultView {
}

impl View for Result {
    type V = ResultView;

    open spec fn view(&self) -> ResultView {
        ResultView {  }
    }
}

} // verus!
