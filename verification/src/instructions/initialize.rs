//! Setting up the exchange-wide record.

use vstd::prelude::*;
use crate::pubkey::Pubkey;
use crate::states::default_fees::{
    CENTER_TAKER_FEE_RATE,
    CREATOR_INCENTIVE_RATE,
    EXTREME_TAKER_FEE_RATE,
    MAKER_REBATE_RATE,
    PLATFORM_FEE_RATE,
};
use crate::states::global::Global;

verus! {

/// How to set up the exchange.
#[derive(Clone, Copy, Debug)]
pub struct InitializeParams {
    /// The mint of the collateral asset.
    pub usdc_mint: Pubkey,
    /// The keeper; the authority if none is named.
    pub keeper: Option<Pubkey>,
    /// Who signs settlement messages; the authority if none is named.
    pub settlement_signer: Option<Pubkey>,
}

/// The identities of the accounts the call runs on.
#[derive(Clone, Copy, Debug)]
pub struct Initialize {
    /// Who sets the exchange up and becomes its authority.
    pub authority: Pubkey,
    /// Address bump of the exchange-wide record.
    pub global_bump: u8,
}

/// The exchange-wide record of a fresh exchange: the caller is the
/// authority, the default fee configuration is in force, trading is open
/// and no operator is listed.
pub open spec fn initial_global(accounts: Initialize, params: InitializeParams) -> Global {
    Global {
        authority: accounts.authority,
        usdc_mint: params.usdc_mint,
        keeper: match params.keeper {
            Some(keeper) => keeper,
            None => accounts.authority,
        },
        settlement_signer: match params.settlement_signer {
            Some(signer) => signer,
            None => accounts.authority,
        },
        bump: accounts.global_bump,
        platform_treasury_bump: 0,
        total_trading_fees_collected: 0,
        total_creation_fees_collected: 0,
        center_taker_fee_rate: CENTER_TAKER_FEE_RATE,
        extreme_taker_fee_rate: EXTREME_TAKER_FEE_RATE,
        platform_fee_rate: PLATFORM_FEE_RATE,
        maker_rebate_rate: MAKER_REBATE_RATE,
        creator_incentive_rate: CREATOR_INCENTIVE_RATE,
        trading_paused: false,
        operator_count: 0,
        operators: vstd::array::spec_array_fill_for_copy_type::<Pubkey, 10>(Pubkey::zero()),
    }
}

/// Builds the exchange-wide record of a fresh exchange.
pub fn handler(accounts: &Initialize, params: &InitializeParams) -> (global: Global)
    ensures
        global == initial_global(*accounts, *params),
        global.wf(),
        global.distribution_is_complete(),
        global.operator_list().len() == 0,
{
    let keeper = match params.keeper {
        Some(keeper) => keeper,
        None => accounts.authority,
    };
    let settlement_signer = match params.settlement_signer {
        Some(signer) => signer,
        None => accounts.authority,
    };
    let global = Global {
        authority: accounts.authority,
        usdc_mint: params.usdc_mint,
        keeper,
        settlement_signer,
        bump: accounts.global_bump,
        platform_treasury_bump: 0,
        total_trading_fees_collected: 0,
        total_creation_fees_collected: 0,
        center_taker_fee_rate: CENTER_TAKER_FEE_RATE,
        extreme_taker_fee_rate: EXTREME_TAKER_FEE_RATE,
        platform_fee_rate: PLATFORM_FEE_RATE,
        maker_rebate_rate: MAKER_REBATE_RATE,
        creator_incentive_rate: CREATOR_INCENTIVE_RATE,
        trading_paused: false,
        operator_count: 0,
        operators: [Pubkey::default();10],
    };
    assert(global.operators =~= initial_global(*accounts, *params).operators);
    global
}

} // verus!
