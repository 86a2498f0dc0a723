//! The registry: setting it up, and changing who may do what.

use vstd::prelude::*;
use crate::errors::ProvenError;
use crate::events::{FactoryInitialized, FactoryUpdated};
use crate::keys::Pubkey;
use crate::state::{EscrowFactory, DEFAULT_DAY_LENGTH_SECONDS};

verus! {

/// What the setting up of the registry reads.
#[derive(Clone, Debug, PartialEq, Eq)]
pub struct InitializeFactory {
    /// Who will be allowed to change the registry.
    pub authority: Pubkey,
    /// Who will receive forfeited stakes.
    pub treasury: Pubkey,
    /// Who will record proofs and drive settlement.
    pub oracle: Pubkey,
    /// Bump seed of the registry's address.
    pub bump: u8,
}

impl InitializeFactory {
    /// The registry as it is set up: the three identities as given, no
    /// challenge counted, and a day of `DEFAULT_DAY_LENGTH_SECONDS` seconds.
    pub open spec fn factory(self) -> EscrowFactory {
        EscrowFactory {
            authority: self.authority,
            treasury: self.treasury,
            oracle: self.oracle,
            challenge_count: 0,
            day_length_seconds: DEFAULT_DAY_LENGTH_SECONDS,
            bump: self.bump,
        }
    }

    /// What the setting up reports.
    pub open spec fn event(self) -> FactoryInitialized {
        FactoryInitialized {
            authority: self.authority,
            treasury: self.treasury,
            oracle: self.oracle,
        }
    }
}

/// Sets up the registry. This is never refused.
pub fn initialize_factory(ctx: &InitializeFactory) -> (result: Result<
    (EscrowFactory, FactoryInitialized),
    ProvenError,
>)
    ensures
        result == Ok::<(EscrowFactory, FactoryInitialized), ProvenError>(
            (ctx.factory(), ctx.event()),
        ),
        ctx.factory().wf(),
{
    let factory = EscrowFactory {
        authority: ctx.authority,
        treasury: ctx.treasury,
        oracle: ctx.oracle,
        challenge_count: 0,
        day_length_seconds: DEFAULT_DAY_LENGTH_SECONDS,
        bump: ctx.bump,
    };
    let event = FactoryInitialized {
        authority: ctx.authority,
        treasury: ctx.treasury,
        oracle: ctx.oracle,
    };
    Ok((factory, event))
}

/// What a change of the registry reads and changes.
#[derive(Clone, Debug, PartialEq, Eq)]
pub struct UpdateFactory {
    /// Who asks for the change.
    pub authority: Pubkey,
    /// The registry.
    pub factory: EscrowFactory,
}

impl UpdateFactory {
    /// Why the change is refused, if it is.
    pub open spec fn refusal(self, new_day_length_seconds: Option<i64>) -> Option<ProvenError> {
        if self.authority != self.factory.authority {
            Some(ProvenError::Unauthorized)
        } else if new_day_length_seconds is Some && new_day_length_seconds->0 <= 0 {
            Some(ProvenError::InvalidDayLength)
        } else {
            None
        }
    }

    /// The records after the change: each setting that was given is taken over,
    /// each that was not stays.
    pub open spec fn updated(
        self,
        new_authority: Option<Pubkey>,
        new_treasury: Option<Pubkey>,
        new_oracle: Option<Pubkey>,
        new_day_length_seconds: Option<i64>,
    ) -> UpdateFactory {
        UpdateFactory {
            factory: EscrowFactory {
                authority: new_authority.unwrap_or(self.factory.authority),
                treasury: new_treasury.unwrap_or(self.factory.treasury),
                oracle: new_oracle.unwrap_or(self.factory.oracle),
                day_length_seconds: new_day_length_seconds.unwrap_or(
                    self.factory.day_length_seconds,
                ),
                ..self.factory
            },
            ..self
        }
    }
}

/// Changes any of the registry's authority, treasury, oracle and day length.
///
/// Legal for the registry's current authority; a new day length is positive.
/// The change holds for every challenge from now on, those under way too:
/// operations compare callers with the registry as it is when they are called.
pub fn update_factory(
    ctx: &mut UpdateFactory,
    new_authority: Option<Pubkey>,
    new_treasury: Option<Pubkey>,
    new_oracle: Option<Pubkey>,
    new_day_length_seconds: Option<i64>,
) -> (result: Result<FactoryUpdated, ProvenError>)
    ensures
        match result {
            Ok(event) => {
                &&& old(ctx).refusal(new_day_length_seconds) is None
                &&& *final(ctx) == old(ctx).updated(
                    new_authority,
                    new_treasury,
                    new_oracle,
                    new_day_length_seconds,
                )
                &&& event == (FactoryUpdated {
                    authority: final(ctx).factory.authority,
                    treasury: final(ctx).factory.treasury,
                    oracle: final(ctx).factory.oracle,
                })
            },
            Err(error) => {
                &&& old(ctx).refusal(new_day_length_seconds) == Some(error)
                &&& *final(ctx) == *old(ctx)
            },
        },
        old(ctx).factory.wf() ==> final(ctx).factory.wf(),
{
    if ctx.authority != ctx.factory.authority {
        return Err(ProvenError::Unauthorized);
    }
    if let Some(day_length_seconds) = new_day_length_seconds {
        if day_length_seconds <= 0 {
            return Err(ProvenError::InvalidDayLength);
        }
        ctx.factory.day_length_seconds = day_length_seconds;
    }
    if let Some(authority) = new_authority {
        ctx.factory.authority = authority;
    }
    if let Some(treasury) = new_treasury {
        ctx.factory.treasury = treasury;
    }
    if let Some(oracle) = new_oracle {
        ctx.factory.oracle = oracle;
    }
    Ok(
        FactoryUpdated {
            authority: ctx.factory.authority,
            treasury: ctx.factory.treasury,
            oracle: ctx.factory.oracle,
        },
    )
}

} // verus!
