use vstd::prelude::*;

verus! {

/// Identifier of a stored entity: the 128 bits of a UUID.
#[derive(Clone, Copy, Debug, PartialEq, Eq, Hash, Structural)]
pub struct Id {
    pub value: u128,
}

impl Id {
    pub fn from_u128(value: u128) -> (r: Id)
        ensures
            r.value == value,
    {
        Id { value }
    }

    pub fn as_u128(&self) -> (r: u128)
        ensures
            r == self.value,
    {
        self.value
    }

    /// Version field of the UUID (bits 76 to 79).
    pub open spec fn version(self) -> u128 {
        (self.value >> 76u128) & 0xfu128
    }

    /// Variant field of the UUID (bits 62 and 63).
    pub open spec fn variant(self) -> u128 {
        (self.value >> 62u128) & 0x3u128
    }
}

/// Relies on uuid::Uuid::new_v4: a random identifier whose version field is
/// 4 and whose variant is the RFC 4122 one; nothing else is known of it.
#[verifier::external_body]
pub(crate) fn fresh_id() -> (r: Id)
    ensures
        r.version() == 4,
        r.variant() == 2,
{
    Id { value: uuid::Uuid::new_v4().as_u128() }
}

} // verus!
