//! Unforgeable capability tokens.

use vstd::prelude::*;
use crate::tier::Tier;

verus! {

/// Witness that the issuer is the enforcement engine. The type is exported
/// so that it can appear in `CapabilityToken::new`'s signature, but its
/// field is private and its only constructor is crate-private: no caller
/// outside this crate can ever produce a value of it.
pub struct Seal {
    _private: (),
}

impl Seal {
    /// Grant an issuance witness. Visible only inside the enforcement crate.
    pub(crate) fn grant() -> Seal {
        Seal { _private: () }
    }
}

/// Unforgeable capability token: proof that the enforcement layer has
/// evaluated and approved an action at a specific tier.
///
/// Construction is double-locked: `new` demands a `Seal`, which only this
/// crate can produce, and the token's own fields are private, so a struct
/// literal cannot forge one either. No `Clone`, `Copy`, `Default`, or
/// `From` — a token is consumed on use (move semantics), so a consumed
/// binding cannot be presented again.
pub struct CapabilityToken {
    tier: Tier,
    _seal: Seal,
}

impl CapabilityToken {
    /// The tier this token stands for.
    pub closed spec fn spec_tier(self) -> Tier {
        self.tier
    }

    /// Issue a token. Possession of a `Seal` proves the caller is the
    /// enforcement engine, so possession of a token still implies an
    /// approval decision.
    pub fn new(tier: Tier, seal: Seal) -> (t: Self)
        ensures
            t.spec_tier() == tier,
    {
        CapabilityToken { tier, _seal: seal }
    }

    /// The tier this token was issued at. Reading the tier does not permit
    /// reconstructing a token from it.
    pub fn tier(&self) -> (t: Tier)
        ensures
            t == self.spec_tier(),
    {
        self.tier
    }
}

} // verus!
