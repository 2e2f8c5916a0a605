//! The owner check that guards every transition.
use vstd::prelude::*;

verus! {

/// The width in bytes of an identity token.
pub const IDENTITY_LEN: usize = 32;

/// An opaque caller or owner identity, compared byte for byte.
#[derive(Debug, Clone, Copy)]
pub struct Identity {
    pub bytes: [u8; 32],
}

impl View for Identity {
    type V = Seq<u8>;

    /// The token's bytes.
    open spec fn view(&self) -> Seq<u8> {
        self.bytes@
    }
}

impl Identity {
    /// Whether two identities are bit-identical.
    pub fn same_as(&self, other: &Identity) -> (r: bool)
        ensures
            r <==> self@ == other@,
    {
        let mut i: usize = 0;
        while i < IDENTITY_LEN
            invariant
                i <= IDENTITY_LEN,
                self.bytes@.len() == IDENTITY_LEN,
                other.bytes@.len() == IDENTITY_LEN,
                forall|j: int| 0 <= j < i ==> self.bytes@[j] == other.bytes@[j],
            decreases IDENTITY_LEN - i,
        {
            if self.bytes[i] != other.bytes[i] {
                return false;
            }
            i = i + 1;
        }
        assert(self.bytes@ =~= other.bytes@);
        true
    }
}

/// Why a caller was refused.
#[derive(Debug, Clone, Copy, PartialEq, Eq, Structural)]
pub enum AuthError {
    /// The caller is not the record's owner.
    IncorrectOwner,
}

/// Admits the caller exactly when it is the record's owner.
pub fn authorize(owner: &Identity, caller: &Identity) -> (r: Result<(), AuthError>)
    ensures
        r is Ok <==> owner@ == caller@,
        r is Err ==> r == Err::<(), AuthError>(AuthError::IncorrectOwner),
{
    if owner.same_as(caller) {
        Ok(())
    } else {
        Err(AuthError::IncorrectOwner)
    }
}

} // verus!
