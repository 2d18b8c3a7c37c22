//! The guard's configuration record: an immutable-after-initialization
//! parameter set consumed by every check of the policy engine.

use vstd::prelude::*;

use crate::keys::KeyBytes;

verus! {

/// How membership in the gated group is proven.
#[derive(Clone, Copy, Debug, PartialEq, Eq, Structural)]
pub enum Strategy {
    /// Only the credential (gateway token) check applies.
    GatewayOnly,
    /// The payer must hold a positive balance of the configured fungible
    /// membership token.
    MembershipSPLToken,
    /// The payer must present a collectible whose metadata record names the
    /// configured key as its update authority.
    MembershipNftUpdateAuthority,
    /// The payer must present a collectible whose metadata record names the
    /// configured key as its first, verified creator.
    MembershipNftCreator,
}

impl Strategy {
    /// The closed numeric encoding of the strategy set.
    pub fn from_u8(value: u8) -> (r: Option<Strategy>)
        ensures
            r == Self::spec_from_u8(value),
    {
        match value {
            0u8 => Some(Strategy::GatewayOnly),
            1u8 => Some(Strategy::MembershipSPLToken),
            2u8 => Some(Strategy::MembershipNftUpdateAuthority),
            3u8 => Some(Strategy::MembershipNftCreator),
            _ => None,
        }
    }

    /// What `from_u8` yields on each byte.
    pub open spec fn spec_from_u8(value: u8) -> Option<Strategy> {
        if value == 0 {
            Some(Strategy::GatewayOnly)
        } else if value == 1 {
            Some(Strategy::MembershipSPLToken)
        } else if value == 2 {
            Some(Strategy::MembershipNftUpdateAuthority)
        } else if value == 3 {
            Some(Strategy::MembershipNftCreator)
        } else {
            None
        }
    }
}

impl Default for Strategy {
    /// An unconfigured guard falls back to the credential-only strategy.
    fn default() -> (r: Self)
        ensures
            r == Strategy::GatewayOnly,
    {
        Strategy::GatewayOnly
    }
}

/// One deployed guard: the policy parameters gating an exchange.
///
/// Besides the allowance records, nothing here is mutated after
/// initialization. `allowance` stores zero for "unlimited" rather than the
/// extra byte an optional would take in the persisted layout.
#[derive(Clone, Copy, Debug)]
pub struct TokenGuard {
    /// The identity that created and controls the guard.
    pub authority: KeyBytes,
    /// The identity that receives the transferred lamports.
    pub recipient: KeyBytes,
    /// The credential-issuing (gatekeeper) network that must have verified
    /// the payer.
    pub gatekeeper_network: KeyBytes,
    /// The token class required by the membership strategies, if any.
    pub membership_token: Option<KeyBytes>,
    /// The mint of the token this guard issues.
    pub out_mint: KeyBytes,
    /// Derivation bump proving the guard's issuing authority address.
    pub mint_authority_bump: u8,
    /// Earliest time at which exchanges are accepted; absent means always
    /// open.
    pub start_time: Option<i64>,
    /// Maximum number of exchanges per allowance key; zero means unlimited.
    pub allowance: u8,
    /// Per-exchange lamport ceiling; absent means unbounded.
    pub max_amount: Option<u64>,
    /// How membership is proven.
    pub strategy: Strategy,
}

impl TokenGuard {
    /// Stores the optional parameters of a freshly created guard, encoding an
    /// absent allowance as zero.
    pub fn set_properties(
        &mut self,
        mint_authority_bump: u8,
        start_time: Option<i64>,
        allowance: Option<u8>,
        max_amount: Option<u64>,
        strategy: Strategy,
    )
        ensures
            final(self).mint_authority_bump == mint_authority_bump,
            final(self).start_time == start_time,
            final(self).allowance == (match allowance {
                Some(a) => a,
                None => 0u8,
            }),
            final(self).max_amount == max_amount,
            final(self).strategy == strategy,
            final(self).authority == old(self).authority,
            final(self).recipient == old(self).recipient,
            final(self).gatekeeper_network == old(self).gatekeeper_network,
            final(self).membership_token == old(self).membership_token,
            final(self).out_mint == old(self).out_mint,
    {
        self.start_time = start_time;
        self.allowance = match allowance {
            Some(a) => a,
            None => 0u8,
        };
        self.max_amount = max_amount;
        self.mint_authority_bump = mint_authority_bump;
        self.strategy = strategy;
    }
}

} // verus!
