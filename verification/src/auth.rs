use vstd::prelude::*;

use crate::errors::MyError;

verus! {

/// The two authorization schemes observed for the value-moving
/// operations (distribution and withdrawal). Either can be selected when
/// the bank is constructed; the engines consume the policy through
/// [`authorize`] and are untouched by the choice.
#[derive(Clone, Copy, Debug, PartialEq, Eq, Structural)]
pub enum Policy {
    /// The affected worker or demander must sign the operation itself.
    DirectSigner,
    /// The fixed administrator signs on behalf of all parties.
    CustodialAdmin,
}

/// Whether `signer` may run a value-moving operation whose affected
/// party (the identity whose ledger is debited) is `party`.
pub open spec fn spec_authorized(policy: Policy, signer: u64, admin: u64, party: u64) -> bool {
    match policy {
        Policy::DirectSigner => signer == party,
        Policy::CustodialAdmin => signer == admin,
    }
}

/// The authority gate for the distribution and withdrawal engines:
/// admits the caller exactly when the active policy says so.
pub fn authorize(policy: Policy, signer: u64, admin: u64, party: u64) -> (r: Result<(), MyError>)
    ensures
        spec_authorized(policy, signer, admin, party) ==> r == Ok::<(), MyError>(()),
        !spec_authorized(policy, signer, admin, party) ==> r == Err::<(), MyError>(
            MyError::AuthorizationFailure,
        ),
{
    let expected = match policy {
        Policy::DirectSigner => party,
        Policy::CustodialAdmin => admin,
    };
    if signer == expected {
        Ok(())
    } else {
        Err(MyError::AuthorizationFailure)
    }
}

/// The namespace tag `b"deanno"` from which the vault identity is
/// derived.
pub open spec fn vault_namespace() -> Seq<u8> {
    seq![100u8, 101u8, 97u8, 110u8, 110u8, 111u8]
}

/// The autonomous signing authority of the program's vault: an opaque
/// value derived from the fixed namespace tag, never from key material.
/// The field is private, so verified code can only obtain a valid
/// authority through [`VaultAuthority::derive_from_namespace`]; every
/// mint-to and vault-outbound transfer demands one.
pub struct VaultAuthority {
    namespace: Vec<u8>,
}

impl VaultAuthority {
    /// A valid authority carries exactly the vault namespace tag.
    pub closed spec fn wf(&self) -> bool {
        self.namespace@ == vault_namespace()
    }

    /// Derives the vault identity from the fixed namespace tag.
    pub fn derive_from_namespace() -> (a: VaultAuthority)
        ensures
            a.wf(),
    {
        let mut namespace: Vec<u8> = Vec::new();
        namespace.push(100);
        namespace.push(101);
        namespace.push(97);
        namespace.push(110);
        namespace.push(110);
        namespace.push(111);
        proof {
            assert(namespace@ =~= vault_namespace());
        }
        VaultAuthority { namespace }
    }

    /// Produces the signing proof for the namespace: the seed bytes a
    /// platform signer would present on the vault's behalf.
    pub fn signing_seeds(&self) -> (s: &Vec<u8>)
        requires
            self.wf(),
        ensures
            s@ == vault_namespace(),
    {
        &self.namespace
    }
}

} // verus!
