//! The wording of the statements of [`crate::provisioning`].

use vstd::prelude::*;

use crate::provisioning::ProvisioningKeyRepository;

verus! {

/// The texts of [`ProvisioningKeyRepository`], word for word.
pub proof fn texts_are_worded_so()
    ensures
        ProvisioningKeyRepository::RESERVATION@ == "SELECT request_fingerprint,resource_id FROM provisioning_idempotency_keys WHERE "@,
{
}

} // verus!
