use vstd::prelude::*;
use crate::address::{byte_order_less, Address};
use crate::config::AmmConfig;
use crate::errors::ErrorCode;
use crate::oracle::{Observation, ObservationState};
use crate::pool::PoolState;

verus! {

/// The identities and decimals that a pool is opened with.
#[derive(Clone, Copy, Debug, PartialEq, Eq)]
pub struct PoolKeys {
    /// The pool itself; its oracle refers back to it.
    pub pool_id: Address,
    pub amm_config: Address,
    pub pool_creator: Address,
    pub token_0_vault: Address,
    pub token_1_vault: Address,
    pub lp_mint: Address,
    pub token_0_mint: Address,
    pub token_1_mint: Address,
    pub token_0_program: Address,
    pub token_1_program: Address,
    pub observation_key: Address,
    pub auth_bump: u8,
    pub lp_mint_decimals: u8,
    pub mint_0_decimals: u8,
    pub mint_1_decimals: u8,
}

/// What the creator of a pool has to pay with.
#[derive(Clone, Copy, Debug, PartialEq, Eq, Structural)]
pub struct CreatorFunds {
    /// Tokens of asset 0.
    pub token_0: u64,
    /// Tokens of asset 1.
    pub token_1: u64,
    /// What the pool-opening fee is paid from.
    pub fee_funds: u64,
}

impl PoolState {
    /// Why the opening of a pool is refused, if it is. The tier has to admit
    /// pools; asset 0 has to come strictly before asset 1 in byte order;
    /// both first deposits have to be positive; the creator has to own them
    /// and the opening fee; and the first supply of liquidity-provider
    /// tokens has to be positive.
    pub open spec fn initialize_refusal(
        config: &AmmConfig,
        keys: PoolKeys,
        creator_funds: CreatorFunds,
        init_amount_0: u64,
        init_amount_1: u64,
        initial_lp_supply: u64,
    ) -> Option<ErrorCode> {
        if config.disable_create_pool {
            Some(ErrorCode::NotApproved)
        } else if !byte_order_less(keys.token_0_mint@, keys.token_1_mint@) {
            Some(ErrorCode::InvalidMintOrder)
        } else if init_amount_0 == 0 || init_amount_1 == 0 {
            Some(ErrorCode::ZeroLiquidity)
        } else if creator_funds.token_0 < init_amount_0 || creator_funds.token_1 < init_amount_1
            || creator_funds.fee_funds < config.create_pool_fee {
            Some(ErrorCode::InsufficientBalance)
        } else if initial_lp_supply == 0 {
            Some(ErrorCode::InsufficientLiquidity)
        } else {
            None
        }
    }

    /// The ledger just opened carries these keys, this supply and this
    /// opening time; every feature is enabled and no fee is owed.
    pub open spec fn opened_with(
        &self,
        keys: PoolKeys,
        open_time: u64,
        initial_lp_supply: u64,
    ) -> bool {
        &&& self.amm_config == keys.amm_config
        &&& self.pool_creator == keys.pool_creator
        &&& self.token_0_vault == keys.token_0_vault
        &&& self.token_1_vault == keys.token_1_vault
        &&& self.lp_mint == keys.lp_mint
        &&& self.token_0_mint == keys.token_0_mint
        &&& self.token_1_mint == keys.token_1_mint
        &&& self.token_0_program == keys.token_0_program
        &&& self.token_1_program == keys.token_1_program
        &&& self.observation_key == keys.observation_key
        &&& self.auth_bump == keys.auth_bump
        &&& self.status == 0
        &&& self.lp_mint_decimals == keys.lp_mint_decimals
        &&& self.mint_0_decimals == keys.mint_0_decimals
        &&& self.mint_1_decimals == keys.mint_1_decimals
        &&& self.lp_supply == initial_lp_supply
        &&& self.protocol_fees_token_0 == 0
        &&& self.protocol_fees_token_1 == 0
        &&& self.fund_fees_token_0 == 0
        &&& self.fund_fees_token_1 == 0
        &&& self.open_time == open_time
        &&& self.recent_epoch == 0
        &&& self.padding@ == Seq::new(31, |i: int| 0u64)
    }

    /// Opens a pool under a fee tier and returns its ledger and its oracle.
    ///
    /// `initial_lp_supply` is what the pricing curve makes of the two first
    /// deposits; the host pays the deposits into the fresh vaults and charges
    /// the tier's opening fee. The new ledger owes no fees, so the fresh
    /// vaults cover them; every feature is enabled; the oracle has no sample.
    pub fn initialize(
        config: &AmmConfig,
        keys: PoolKeys,
        creator_funds: CreatorFunds,
        init_amount_0: u64,
        init_amount_1: u64,
        open_time: u64,
        initial_lp_supply: u64,
    ) -> (r: Result<(PoolState, ObservationState), ErrorCode>)
        ensures
            match Self::initialize_refusal(
                config,
                keys,
                creator_funds,
                init_amount_0,
                init_amount_1,
                initial_lp_supply,
            ) {
                Some(e) => r == Err::<(PoolState, ObservationState), ErrorCode>(e),
                None => r matches Ok(p) && p.0.opened_with(keys, open_time, initial_lp_supply)
                    && p.0.liquid(init_amount_0, init_amount_1) && p.1.wf() && !p.1.initialized
                    && p.1.observation_index == 0 && p.1.pool_id == keys.pool_id
                    && p.1.observations@ == Seq::new(100, |i: int| Observation::default_spec())
                    && p.1.padding@ == Seq::new(4, |i: int| 0u64),
            },
    {
        if config.disable_create_pool {
            return Err(ErrorCode::NotApproved);
        }
        if !keys.token_0_mint.precedes(&keys.token_1_mint) {
            return Err(ErrorCode::InvalidMintOrder);
        }
        if init_amount_0 == 0 || init_amount_1 == 0 {
            return Err(ErrorCode::ZeroLiquidity);
        }
        if creator_funds.token_0 < init_amount_0 || creator_funds.token_1 < init_amount_1
            || creator_funds.fee_funds < config.create_pool_fee {
            return Err(ErrorCode::InsufficientBalance);
        }
        if initial_lp_supply == 0 {
            return Err(ErrorCode::InsufficientLiquidity);
        }
        let pool = PoolState {
            amm_config: keys.amm_config,
            pool_creator: keys.pool_creator,
            token_0_vault: keys.token_0_vault,
            token_1_vault: keys.token_1_vault,
            lp_mint: keys.lp_mint,
            token_0_mint: keys.token_0_mint,
            token_1_mint: keys.token_1_mint,
            token_0_program: keys.token_0_program,
            token_1_program: keys.token_1_program,
            observation_key: keys.observation_key,
            auth_bump: keys.auth_bump,
            status: 0,
            lp_mint_decimals: keys.lp_mint_decimals,
            mint_0_decimals: keys.mint_0_decimals,
            mint_1_decimals: keys.mint_1_decimals,
            lp_supply: initial_lp_supply,
            protocol_fees_token_0: 0,
            protocol_fees_token_1: 0,
            fund_fees_token_0: 0,
            fund_fees_token_1: 0,
            open_time,
            recent_epoch: 0,
            padding: [0u64; 31],
        };
        assert(pool.padding@ =~= Seq::new(31, |i: int| 0u64));
        Ok((pool, ObservationState::new(keys.pool_id)))
    }
}

} // verus!
