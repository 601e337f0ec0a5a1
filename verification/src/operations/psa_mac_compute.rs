//! # PsaMacCompute operation
//!
//! Compute the MAC value of a message.

use vstd::prelude::*;
use crate::psa_algorithm::{Algorithm, Mac};
use crate::psa_key_attributes::Attributes;
use crate::requests::ResponseStatus;
use crate::secret::SecretBytes;

verus! {

/// Native object for MAC compute operations.
#[derive(Debug)]
pub struct Operation {
    /// Defines which key should be used for the MAC operation.
    pub key_name: String,
    /// The MAC algorithm to compute.
    pub alg: Mac,
    /// The input from which to generate a MAC value.
    pub input: SecretBytes,
}

/// Mathematical view of a MAC compute operation.
pub ghost struct OperationView {
    /// The key name as a character sequence.
    pub key_name: Seq<char>,
    /// The MAC algorithm to compute.
    pub alg: Mac,
    /// The bytes of the input buffer.
    pub input: Seq<u8>,
}

impl View for Operation {
    type V = OperationView;

    open spec fn view(&self) -> OperationView {
        OperationView { key_name: self.key_name@, alg: self.alg, input: self.input@ }
    }
}

/// What validating a MAC compute operation against the given key attributes
/// yields: the key's usage flags must permit signing a hash, the key policy
/// must permit the MAC algorithm, and the MAC length must be computable for
/// the key type and algorithm; the first failing check reports
/// `PsaErrorNotPermitted`.
pub open spec fn spec_validate(alg: Mac, key_attributes: Attributes) -> core::result::Result<
    (),
    ResponseStatus,
> {
    if !key_attributes.spec_is_hash_signable() {
        Err(ResponseStatus::PsaErrorNotPermitted)
    } else if !key_attributes.spec_is_alg_permitted(Algorithm::Mac(alg)) {
        Err(ResponseStatus::PsaErrorNotPermitted)
    } else if !key_attributes.spec_is_compatible_with_alg(Algorithm::Mac(alg)) {
        Err(ResponseStatus::PsaErrorNotPermitted)
    } else {
        Ok(())
    }
}

impl Operation {
    /// Validate the contents of the operation against the attributes of the
    /// key it targets.
    ///
    /// This method checks that:
    /// * the key policy usage allows signing of the hash
    /// * the key policy allows the MAC algorithm requested in the operation
    /// * there is sufficient buffer size for the MAC of the specified
    ///   algorithm, if compatible
    ///
    /// # Errors
    /// - `PsaErrorNotPermitted` if any of the checks fails; the checks run
    ///   in the order above, so the most fundamental violation is reported
    ///   first
    pub fn validate(&self, key_attributes: Attributes) -> (r: core::result::Result<(), ResponseStatus>)
        ensures
            r == spec_validate(self.alg, key_attributes),
    {
        key_attributes.can_sign_hash()?;
        key_attributes.permits_alg(Algorithm::Mac(self.alg))?;
        let _size = key_attributes.mac_length(self.alg)?;
        Ok(())
    }
}

/// Native object for MAC compute result.
#[derive(Debug)]
pub struct Result {
    /// The `mac` field contains the MAC value of the message.
    pub mac: SecretBytes,
}

/// Mathematical view of a MAC compute result.
pub ghost struct ResultView {
    /// The bytes of the MAC value.
    pub mac: Seq<u8>,
}

impl View for Result {
    type V = ResultView;

    open spec fn view(&self) -> ResultView {
        ResultView { mac: self.mac@ }
    }
}

} // verus!
