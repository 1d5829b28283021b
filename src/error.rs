use vstd::prelude::*;

verus! {

/// Why creating or reading a wish failed.
#[derive(Clone, Copy, Debug, PartialEq, Eq, Structural)]
pub enum WishError {
    /// The creator did not sign the transaction.
    AccountNotSigner,
    /// The serialized title does not fit in the space reserved for it.
    TitleTooLong,
    /// The title's bytes are longer than an address seed may be.
    MaxSeedLengthExceeded,
    /// The wish account is not at the address derived from its seeds.
    ConstraintSeeds,
    /// A record already exists at the derived address.
    AccountAlreadyInUse,
    /// The creator cannot pay for the new record's storage.
    InsufficientFunds,
    /// The clock sysvar could not be read.
    SysvarUnavailable,
    /// Account data does not start with the wish discriminator.
    AccountDiscriminatorMismatch,
    /// Account data starts like a wish but does not decode as one.
    AccountDidNotDeserialize,
}

} // verus!
