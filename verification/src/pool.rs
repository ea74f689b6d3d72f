use vstd::prelude::*;
use crate::address::Address;
use crate::config::AmmConfig;
use crate::errors::ErrorCode;
use crate::math::{
    lemma_ceil_bounds, lemma_quotient_at_least, lemma_quotient_at_most, lemma_quotient_below,
    lemma_quotient_bounds, mul_div_ceil, mul_div_ceil_u64, mul_div_floor, mul_div_floor_u64,
};
use crate::status::{feature_enabled, is_enabled, PoolStatusBitIndex};

verus! {

/// Two to the power 32: one, in 32.32 fixed point.
pub const Q32: u128 = 4294967296;

/// The ledger of one pool: who it is made of, and what it owes.
///
/// The vaults hold the pool's tokens; the ledger does not. It records what
/// part of each vault is fee owed to the protocol and to the fund, and how
/// many liquidity-provider tokens are out. What a vault holds beyond the
/// fees is the pool's reserve.
#[derive(Clone, Copy, Debug, PartialEq, Eq)]
pub struct PoolState {
    /// The fee tier that the pool belongs to.
    pub amm_config: Address,
    /// Who opened the pool.
    pub pool_creator: Address,
    /// The vault of asset 0.
    pub token_0_vault: Address,
    /// The vault of asset 1.
    pub token_1_vault: Address,
    /// The mint of the liquidity-provider token.
    pub lp_mint: Address,
    /// Asset 0.
    pub token_0_mint: Address,
    /// Asset 1.
    pub token_1_mint: Address,
    /// The token program of asset 0.
    pub token_0_program: Address,
    /// The token program of asset 1.
    pub token_1_program: Address,
    /// The oracle of the pool.
    pub observation_key: Address,
    /// Bump of the signing authority.
    pub auth_bump: u8,
    /// One bit per feature; a set bit switches the feature off.
    /// Bit 0: deposit. Bit 1: withdraw. Bit 2: swap.
    pub status: u8,
    pub lp_mint_decimals: u8,
    pub mint_0_decimals: u8,
    pub mint_1_decimals: u8,
    /// Liquidity-provider tokens that are out.
    pub lp_supply: u64,
    /// Fees in asset 0 owed to the protocol.
    pub protocol_fees_token_0: u64,
    /// Fees in asset 1 owed to the protocol.
    pub protocol_fees_token_1: u64,
    /// Fees in asset 0 owed to the fund.
    pub fund_fees_token_0: u64,
    /// Fees in asset 1 owed to the fund.
    pub fund_fees_token_1: u64,
    /// The time before which the pool does not trade.
    pub open_time: u64,
    pub recent_epoch: u64,
    /// Room for fields to come.
    pub padding: [u64; 31],
}

/// What a deposit is measured by.
#[derive(Clone, Copy, Debug, PartialEq, Eq, Structural)]
pub enum DepositAmount {
    /// The liquidity-provider tokens to be minted; the pool takes what
    /// tokens they cost.
    LpTokens(u64),
    /// The tokens of asset 0 and of asset 1 on offer; the pool mints what
    /// liquidity-provider tokens both cover, and takes what those cost.
    Tokens(u64, u64),
}

/// What a deposit or a withdrawal moved: liquidity-provider tokens one way,
/// tokens of the two assets the other way.
#[derive(Clone, Copy, Debug, PartialEq, Eq, Structural)]
pub struct LiquidityChange {
    /// Liquidity-provider tokens minted by a deposit, burned by a withdrawal.
    pub lp_token_amount: u64,
    /// Tokens of asset 0 paid into the vault by a deposit, out of it by a withdrawal.
    pub token_0_amount: u64,
    /// Tokens of asset 1, likewise.
    pub token_1_amount: u64,
}

/// The price of one asset in the other, in 32.32 fixed point: the reserve of
/// the other asset over the asset's own reserve, rounded down.
pub open spec fn price_x32(other_reserve: nat, own_reserve: nat) -> nat {
    mul_div_floor(other_reserve, Q32 as nat, own_reserve)
}

impl PoolState {
    /// Bytes of the stored record, its eight-byte tag included.
    pub const LEN: usize = 8 + 10 * 32 + 1 * 5 + 8 * 7 + 8 * 31;

    /// Fees owed in asset 0, to the protocol and the fund together.
    pub open spec fn owed_0(&self) -> nat {
        (self.protocol_fees_token_0 + self.fund_fees_token_0) as nat
    }

    /// Fees owed in asset 1, to the protocol and the fund together.
    pub open spec fn owed_1(&self) -> nat {
        (self.protocol_fees_token_1 + self.fund_fees_token_1) as nat
    }

    /// Each vault holds at least the fees owed in its asset.
    pub open spec fn solvent(&self, vault_0: u64, vault_1: u64) -> bool {
        vault_0 >= self.owed_0() && vault_1 >= self.owed_1()
    }

    /// The reserve of asset 0: what its vault holds beyond the fees owed.
    pub open spec fn reserve_0(&self, vault_0: u64) -> nat {
        (vault_0 - self.owed_0()) as nat
    }

    /// The reserve of asset 1: what its vault holds beyond the fees owed.
    pub open spec fn reserve_1(&self, vault_1: u64) -> nat {
        (vault_1 - self.owed_1()) as nat
    }

    /// Both reserves are there and neither is empty.
    pub open spec fn liquid(&self, vault_0: u64, vault_1: u64) -> bool {
        self.solvent(vault_0, vault_1) && self.reserve_0(vault_0) > 0 && self.reserve_1(vault_1)
            > 0
    }

    /// The liquidity-provider tokens that a deposit mints: the number asked
    /// for, or, of tokens on offer, the lesser of what either asset covers
    /// at the present ratio of supply to reserve, rounded down.
    pub open spec fn deposit_lp(&self, vault_0: u64, vault_1: u64, amount: DepositAmount) -> nat {
        match amount {
            DepositAmount::LpTokens(lp) => lp as nat,
            DepositAmount::Tokens(offer_0, offer_1) => {
                let by_0 = mul_div_floor(
                    offer_0 as nat,
                    self.lp_supply as nat,
                    self.reserve_0(vault_0),
                );
                let by_1 = mul_div_floor(
                    offer_1 as nat,
                    self.lp_supply as nat,
                    self.reserve_1(vault_1),
                );
                if by_0 <= by_1 {
                    by_0
                } else {
                    by_1
                }
            },
        }
    }

    /// What `lp` liquidity-provider tokens cost in asset 0: their share of
    /// the reserve, rounded up.
    pub open spec fn cost_0(&self, vault_0: u64, lp: nat) -> nat {
        mul_div_ceil(lp, self.reserve_0(vault_0), self.lp_supply as nat)
    }

    /// What `lp` liquidity-provider tokens cost in asset 1.
    pub open spec fn cost_1(&self, vault_1: u64, lp: nat) -> nat {
        mul_div_ceil(lp, self.reserve_1(vault_1), self.lp_supply as nat)
    }

    /// What `lp` liquidity-provider tokens are worth in asset 0: their
    /// share of the reserve, rounded down.
    pub open spec fn worth_0(&self, vault_0: u64, lp: nat) -> nat {
        if self.lp_supply == 0 {
            0
        } else {
            mul_div_floor(lp, self.reserve_0(vault_0), self.lp_supply as nat)
        }
    }

    /// What `lp` liquidity-provider tokens are worth in asset 1.
    pub open spec fn worth_1(&self, vault_1: u64, lp: nat) -> nat {
        if self.lp_supply == 0 {
            0
        } else {
            mul_div_floor(lp, self.reserve_1(vault_1), self.lp_supply as nat)
        }
    }

    /// What `deposit` returns.
    ///
    /// Deposits have to be enabled; the vaults have to cover the fees owed;
    /// supply and both reserves have to be positive, for else there is no
    /// ratio to deposit at; the deposit has to mint something; and the new
    /// supply and the new vault balances have to fit 64 bits.
    pub open spec fn spec_deposit(&self, vault_0: u64, vault_1: u64, amount: DepositAmount) -> Result<
        LiquidityChange,
        ErrorCode,
    > {
        let lp = self.deposit_lp(vault_0, vault_1, amount);
        if !feature_enabled(self.status, PoolStatusBitIndex::Deposit) {
            Err(ErrorCode::PoolDisabled)
        } else if !self.solvent(vault_0, vault_1) {
            Err(ErrorCode::ArithmeticUnderflow)
        } else if self.lp_supply == 0 || !self.liquid(vault_0, vault_1) {
            Err(ErrorCode::ZeroLiquidity)
        } else if lp == 0 {
            Err(ErrorCode::InsufficientLiquidity)
        } else if self.lp_supply + lp > u64::MAX || vault_0 + self.cost_0(vault_0, lp) > u64::MAX
            || vault_1 + self.cost_1(vault_1, lp) > u64::MAX {
            Err(ErrorCode::ArithmeticOverflow)
        } else {
            Ok(
                LiquidityChange {
                    lp_token_amount: lp as u64,
                    token_0_amount: self.cost_0(vault_0, lp) as u64,
                    token_1_amount: self.cost_1(vault_1, lp) as u64,
                },
            )
        }
    }

    /// What `withdraw` returns.
    ///
    /// Withdrawals have to be enabled; the holder has to own what is to be
    /// burned; the vaults have to cover the fees owed; and no more can be
    /// burned than is out.
    pub open spec fn spec_withdraw(
        &self,
        vault_0: u64,
        vault_1: u64,
        holder_lp_balance: u64,
        lp_token_amount: u64,
    ) -> Result<LiquidityChange, ErrorCode> {
        if !feature_enabled(self.status, PoolStatusBitIndex::Withdraw) {
            Err(ErrorCode::PoolDisabled)
        } else if lp_token_amount > holder_lp_balance {
            Err(ErrorCode::InsufficientBalance)
        } else if !self.solvent(vault_0, vault_1) || lp_token_amount > self.lp_supply {
            Err(ErrorCode::ArithmeticUnderflow)
        } else {
            Ok(
                LiquidityChange {
                    lp_token_amount,
                    token_0_amount: self.worth_0(vault_0, lp_token_amount as nat) as u64,
                    token_1_amount: self.worth_1(vault_1, lp_token_amount as nat) as u64,
                },
            )
        }
    }

    /// Why a collection of protocol fees is refused, if it is: the caller
    /// has to be the tier's protocol owner, there has to be something to
    /// collect, and the vaults have to cover the fees owed.
    pub open spec fn protocol_collection_refusal(
        &self,
        config: &AmmConfig,
        caller: &Address,
        vault_0: u64,
        vault_1: u64,
    ) -> Option<ErrorCode> {
        if caller@ != config.protocol_owner@ {
            Some(ErrorCode::Unauthorized)
        } else if self.protocol_fees_token_0 == 0 && self.protocol_fees_token_1 == 0 {
            Some(ErrorCode::NothingToCollect)
        } else if !self.solvent(vault_0, vault_1) {
            Some(ErrorCode::ArithmeticUnderflow)
        } else {
            None
        }
    }

    /// Why a collection of fund fees is refused, if it is: the caller has to
    /// be the tier's fund owner, there has to be something to collect, and
    /// the vaults have to cover the fees owed.
    pub open spec fn fund_collection_refusal(
        &self,
        config: &AmmConfig,
        caller: &Address,
        vault_0: u64,
        vault_1: u64,
    ) -> Option<ErrorCode> {
        if caller@ != config.fund_owner@ {
            Some(ErrorCode::Unauthorized)
        } else if self.fund_fees_token_0 == 0 && self.fund_fees_token_1 == 0 {
            Some(ErrorCode::NothingToCollect)
        } else if !self.solvent(vault_0, vault_1) {
            Some(ErrorCode::ArithmeticUnderflow)
        } else {
            None
        }
    }

    /// Whether a feature of the pool is enabled: true when its bit in the
    /// status byte is clear.
    pub fn get_status_by_bit(&self, bit: PoolStatusBitIndex) -> (r: bool)
        ensures
            r == feature_enabled(self.status, bit),
            r == ((self.status >> bit.spec_bit()) & 1 == 0),
    {
        is_enabled(self.status, bit)
    }

    /// The two reserves: what each vault holds beyond the fees owed in its
    /// asset. A vault that holds less than is owed is refused with
    /// `ArithmeticUnderflow`.
    pub fn vault_amount_without_fee(&self, vault_0: u64, vault_1: u64) -> (r: Result<
        (u64, u64),
        ErrorCode,
    >)
        ensures
            self.solvent(vault_0, vault_1) ==> (r matches Ok(p) && p.0 == self.reserve_0(vault_0)
                && p.1 == self.reserve_1(vault_1)),
            !self.solvent(vault_0, vault_1) ==> r == Err::<(u64, u64), ErrorCode>(
                ErrorCode::ArithmeticUnderflow,
            ),
    {
        let owed_0: u128 = self.protocol_fees_token_0 as u128 + self.fund_fees_token_0 as u128;
        let owed_1: u128 = self.protocol_fees_token_1 as u128 + self.fund_fees_token_1 as u128;
        if (vault_0 as u128) < owed_0 || (vault_1 as u128) < owed_1 {
            return Err(ErrorCode::ArithmeticUnderflow);
        }
        Ok((vault_0 - owed_0 as u64, vault_1 - owed_1 as u64))
    }

    /// The two prices in 32.32 fixed point, taken on the reserves: first the
    /// price of asset 0 in asset 1, then the price of asset 1 in asset 0.
    ///
    /// A vault that holds less than is owed is refused with
    /// `ArithmeticUnderflow`, an empty reserve with `ZeroLiquidity`. The two
    /// prices are inverse to each other as far as rounding down allows:
    /// their product does not exceed two to the 64, and falls short of it by
    /// no more than their sum.
    pub fn token_price_x32(&self, vault_0: u64, vault_1: u64) -> (r: Result<(u128, u128), ErrorCode>)
        ensures
            !self.solvent(vault_0, vault_1) ==> r == Err::<(u128, u128), ErrorCode>(
                ErrorCode::ArithmeticUnderflow,
            ),
            self.solvent(vault_0, vault_1) && !self.liquid(vault_0, vault_1) ==> r == Err::<
                (u128, u128),
                ErrorCode,
            >(ErrorCode::ZeroLiquidity),
            self.liquid(vault_0, vault_1) ==> (r matches Ok(p) && p.0 == price_x32(
                self.reserve_1(vault_1),
                self.reserve_0(vault_0),
            ) && p.1 == price_x32(self.reserve_0(vault_0), self.reserve_1(vault_1)) && p.0 * p.1
                <= Q32 * Q32 && Q32 * Q32 <= p.0 * p.1 + p.0 + p.1),
    {
        let (token_0_amount, token_1_amount) = match self.vault_amount_without_fee(
            vault_0,
            vault_1,
        ) {
            Ok(p) => p,
            Err(e) => {
                return Err(e);
            },
        };
        if token_0_amount == 0 || token_1_amount == 0 {
            return Err(ErrorCode::ZeroLiquidity);
        }
        proof {
            lemma_prices_inverse(token_0_amount as nat, token_1_amount as nat);
        }
        Ok(
            (
                token_1_amount as u128 * Q32 / token_0_amount as u128,
                token_0_amount as u128 * Q32 / token_1_amount as u128,
            ),
        )
    }

    /// Replaces the status byte as a whole, on behalf of `caller`.
    ///
    /// Only the protocol owner of the pool's tier may do so (`Unauthorized`).
    /// Nothing but the status changes; to switch a single feature, the
    /// caller reads the byte, changes the bit and writes the byte back.
    pub fn update_status(&mut self, config: &AmmConfig, caller: &Address, status: u8) -> (r: Result<
        (),
        ErrorCode,
    >)
        ensures
            caller@ != config.protocol_owner@ ==> r == Err::<(), ErrorCode>(ErrorCode::Unauthorized)
                && *final(self) == *old(self),
            caller@ == config.protocol_owner@ ==> r == Ok::<(), ErrorCode>(()) && *final(self) == (
            PoolState { status, ..*old(self) }),
            forall|vault_0: u64, vault_1: u64|
                old(self).solvent(vault_0, vault_1) ==> final(self).solvent(vault_0, vault_1),
    {
        if !caller.same(&config.protocol_owner) {
            return Err(ErrorCode::Unauthorized);
        }
        self.status = status;
        Ok(())
    }

    /// Hands the protocol fees to the protocol owner: empties both
    /// accumulators and returns what they held, asset 0 first, for the host
    /// to pay out of the vaults.
    ///
    /// A refusal leaves the ledger as it was. After a collection the vaults,
    /// less what was paid out, still cover the fees that remain owed.
    pub fn collect_protocol_fee(
        &mut self,
        config: &AmmConfig,
        caller: &Address,
        vault_0: u64,
        vault_1: u64,
    ) -> (r: Result<(u64, u64), ErrorCode>)
        ensures
            match old(self).protocol_collection_refusal(config, caller, vault_0, vault_1) {
                Some(e) => r == Err::<(u64, u64), ErrorCode>(e) && *final(self) == *old(self),
                None => r == Ok::<(u64, u64), ErrorCode>(
                    (old(self).protocol_fees_token_0, old(self).protocol_fees_token_1),
                ) && *final(self) == (PoolState {
                    protocol_fees_token_0: 0,
                    protocol_fees_token_1: 0,
                    ..*old(self)
                }) && final(self).solvent(
                    (vault_0 - old(self).protocol_fees_token_0) as u64,
                    (vault_1 - old(self).protocol_fees_token_1) as u64,
                ),
            },
    {
        if !caller.same(&config.protocol_owner) {
            return Err(ErrorCode::Unauthorized);
        }
        if self.protocol_fees_token_0 == 0 && self.protocol_fees_token_1 == 0 {
            return Err(ErrorCode::NothingToCollect);
        }
        if self.vault_amount_without_fee(vault_0, vault_1).is_err() {
            return Err(ErrorCode::ArithmeticUnderflow);
        }
        let amount_0 = self.protocol_fees_token_0;
        let amount_1 = self.protocol_fees_token_1;
        self.protocol_fees_token_0 = 0;
        self.protocol_fees_token_1 = 0;
        Ok((amount_0, amount_1))
    }

    /// Hands the fund fees to the fund owner: empties both accumulators and
    /// returns what they held, asset 0 first, for the host to pay out of the
    /// vaults.
    ///
    /// A refusal leaves the ledger as it was. After a collection the vaults,
    /// less what was paid out, still cover the fees that remain owed.
    pub fn collect_fund_fee(
        &mut self,
        config: &AmmConfig,
        caller: &Address,
        vault_0: u64,
        vault_1: u64,
    ) -> (r: Result<(u64, u64), ErrorCode>)
        ensures
            match old(self).fund_collection_refusal(config, caller, vault_0, vault_1) {
                Some(e) => r == Err::<(u64, u64), ErrorCode>(e) && *final(self) == *old(self),
                None => r == Ok::<(u64, u64), ErrorCode>(
                    (old(self).fund_fees_token_0, old(self).fund_fees_token_1),
                ) && *final(self) == (PoolState {
                    fund_fees_token_0: 0,
                    fund_fees_token_1: 0,
                    ..*old(self)
                }) && final(self).solvent(
                    (vault_0 - old(self).fund_fees_token_0) as u64,
                    (vault_1 - old(self).fund_fees_token_1) as u64,
                ),
            },
    {
        if !caller.same(&config.fund_owner) {
            return Err(ErrorCode::Unauthorized);
        }
        if self.fund_fees_token_0 == 0 && self.fund_fees_token_1 == 0 {
            return Err(ErrorCode::NothingToCollect);
        }
        if self.vault_amount_without_fee(vault_0, vault_1).is_err() {
            return Err(ErrorCode::ArithmeticUnderflow);
        }
        let amount_0 = self.fund_fees_token_0;
        let amount_1 = self.fund_fees_token_1;
        self.fund_fees_token_0 = 0;
        self.fund_fees_token_1 = 0;
        Ok((amount_0, amount_1))
    }

    /// Takes a deposit: mints liquidity-provider tokens and says what tokens
    /// of the two assets the depositor pays for them.
    ///
    /// The tokens are the minted share of each reserve, rounded up, so that a
    /// deposit never dilutes those who came before. Of tokens on offer no
    /// more is taken than was offered. A refusal leaves the ledger as it
    /// was; after a deposit the supply has grown by what was minted, nothing
    /// else has changed, and the vaults with the payment still cover the fees owed.
    pub fn deposit(&mut self, vault_0: u64, vault_1: u64, amount: DepositAmount) -> (r: Result<
        LiquidityChange,
        ErrorCode,
    >)
        ensures
            r == old(self).spec_deposit(vault_0, vault_1, amount),
            r is Err ==> *final(self) == *old(self),
            r matches Ok(c) ==> *final(self) == (PoolState {
                lp_supply: (old(self).lp_supply + c.lp_token_amount) as u64,
                ..*old(self)
            }) && c.lp_token_amount > 0 && final(self).solvent(
                (vault_0 + c.token_0_amount) as u64,
                (vault_1 + c.token_1_amount) as u64,
            ),
            r matches Ok(c) ==> (amount matches DepositAmount::Tokens(offer_0, offer_1)
                ==> c.token_0_amount <= offer_0 && c.token_1_amount <= offer_1),
    {
        if !self.get_status_by_bit(PoolStatusBitIndex::Deposit) {
            return Err(ErrorCode::PoolDisabled);
        }
        let (reserve_0, reserve_1) = match self.vault_amount_without_fee(vault_0, vault_1) {
            Ok(p) => p,
            Err(e) => {
                return Err(e);
            },
        };
        let supply = self.lp_supply;
        if supply == 0 || reserve_0 == 0 || reserve_1 == 0 {
            return Err(ErrorCode::ZeroLiquidity);
        }
        let lp: u128 = match amount {
            DepositAmount::LpTokens(lp) => lp as u128,
            DepositAmount::Tokens(offer_0, offer_1) => {
                let by_0 = mul_div_floor_u64(offer_0, supply, reserve_0);
                let by_1 = mul_div_floor_u64(offer_1, supply, reserve_1);
                if by_0 <= by_1 {
                    by_0
                } else {
                    by_1
                }
            },
        };
        if lp == 0 {
            return Err(ErrorCode::InsufficientLiquidity);
        }
        if lp > (u64::MAX - supply) as u128 {
            return Err(ErrorCode::ArithmeticOverflow);
        }
        let lp: u64 = lp as u64;
        let token_0 = mul_div_ceil_u64(lp, reserve_0, supply);
        let token_1 = mul_div_ceil_u64(lp, reserve_1, supply);
        if token_0 > (u64::MAX - vault_0) as u128 || token_1 > (u64::MAX - vault_1) as u128 {
            return Err(ErrorCode::ArithmeticOverflow);
        }
        proof {
            if let DepositAmount::Tokens(offer_0, offer_1) = amount {
                lemma_cost_within_offer(
                    offer_0 as nat,
                    lp as nat,
                    reserve_0 as nat,
                    supply as nat,
                );
                lemma_cost_within_offer(
                    offer_1 as nat,
                    lp as nat,
                    reserve_1 as nat,
                    supply as nat,
                );
            }
        }
        self.lp_supply = supply + lp;
        Ok(
            LiquidityChange {
                lp_token_amount: lp,
                token_0_amount: token_0 as u64,
                token_1_amount: token_1 as u64,
            },
        )
    }

    /// Takes a withdrawal: burns liquidity-provider tokens of a holder and
    /// says what tokens of the two assets the holder gets for them.
    ///
    /// The tokens are the burned share of each reserve, rounded down, so
    /// that a withdrawal never takes from those who stay. A refusal leaves
    /// the ledger as it was; after a withdrawal the supply has shrunk by
    /// what was burned, nothing else has changed, and the vaults less the
    /// payment still cover the fees owed.
    pub fn withdraw(
        &mut self,
        vault_0: u64,
        vault_1: u64,
        holder_lp_balance: u64,
        lp_token_amount: u64,
    ) -> (r: Result<LiquidityChange, ErrorCode>)
        ensures
            r == old(self).spec_withdraw(vault_0, vault_1, holder_lp_balance, lp_token_amount),
            r is Err ==> *final(self) == *old(self),
            r matches Ok(c) ==> *final(self) == (PoolState {
                lp_supply: (old(self).lp_supply - lp_token_amount) as u64,
                ..*old(self)
            }) && c.token_0_amount <= old(self).reserve_0(vault_0) && c.token_1_amount <= old(
                self,
            ).reserve_1(vault_1) && final(self).solvent(
                (vault_0 - c.token_0_amount) as u64,
                (vault_1 - c.token_1_amount) as u64,
            ),
    {
        if !self.get_status_by_bit(PoolStatusBitIndex::Withdraw) {
            return Err(ErrorCode::PoolDisabled);
        }
        if lp_token_amount > holder_lp_balance {
            return Err(ErrorCode::InsufficientBalance);
        }
        let (reserve_0, reserve_1) = match self.vault_amount_without_fee(vault_0, vault_1) {
            Ok(p) => p,
            Err(e) => {
                return Err(e);
            },
        };
        let supply = self.lp_supply;
        if lp_token_amount > supply {
            return Err(ErrorCode::ArithmeticUnderflow);
        }
        let mut token_0: u128 = 0;
        let mut token_1: u128 = 0;
        if supply != 0 {
            token_0 = mul_div_floor_u64(lp_token_amount, reserve_0, supply);
            token_1 = mul_div_floor_u64(lp_token_amount, reserve_1, supply);
            proof {
                lemma_share_within_whole(lp_token_amount as nat, reserve_0 as nat, supply as nat);
                lemma_share_within_whole(lp_token_amount as nat, reserve_1 as nat, supply as nat);
            }
        }
        self.lp_supply = supply - lp_token_amount;
        Ok(
            LiquidityChange {
                lp_token_amount,
                token_0_amount: token_0 as u64,
                token_1_amount: token_1 as u64,
            },
        )
    }
}

/// A part of the supply is worth no more than the whole reserve.
pub proof fn lemma_share_within_whole(lp: nat, reserve: nat, supply: nat)
    requires
        supply > 0,
        lp <= supply,
    ensures
        mul_div_floor(lp, reserve, supply) <= reserve,
{
    assert(lp * reserve <= reserve * supply) by (nonlinear_arith)
        requires
            lp <= supply,
    ;
    lemma_quotient_at_most(lp * reserve, supply, reserve);
}

/// Liquidity-provider tokens that an offer covers cost no more than the offer.
pub proof fn lemma_cost_within_offer(offer: nat, lp: nat, reserve: nat, supply: nat)
    requires
        supply > 0,
        reserve > 0,
        lp <= mul_div_floor(offer, supply, reserve),
    ensures
        mul_div_ceil(lp, reserve, supply) <= offer,
{
    lemma_quotient_bounds(offer * supply, reserve);
    let covered = mul_div_floor(offer, supply, reserve);
    assert(lp * reserve <= offer * supply) by (nonlinear_arith)
        requires
            lp <= covered,
            covered * reserve <= offer * supply,
    ;
    assert(lp * reserve + supply - 1 < (offer + 1) * supply) by (nonlinear_arith)
        requires
            lp * reserve <= offer * supply,
            supply > 0,
    ;
    lemma_quotient_below((lp * reserve + supply - 1) as nat, supply, offer);
}

/// Tokens bought at their cost and sold straight back are worth their cost
/// or one unit less: the cost is rounded up, the worth is rounded down.
pub proof fn lemma_worth_of_cost(lp: nat, reserve: nat, supply: nat)
    requires
        supply > 0,
    ensures
        mul_div_floor(lp, reserve + mul_div_ceil(lp, reserve, supply), supply + lp) <= mul_div_ceil(
            lp,
            reserve,
            supply,
        ),
        mul_div_floor(lp, reserve + mul_div_ceil(lp, reserve, supply), supply + lp) + 1
            >= mul_div_ceil(lp, reserve, supply),
{
    let cost = mul_div_ceil(lp, reserve, supply);
    lemma_ceil_bounds(lp, reserve, supply);
    // cost * supply >= lp * reserve   and   cost * supply < lp * reserve + supply
    assert(lp * (reserve + cost) < (cost + 1) * (supply + lp)) by (nonlinear_arith)
        requires
            cost * supply >= lp * reserve,
            supply > 0,
    ;
    lemma_quotient_below(lp * (reserve + cost), supply + lp, cost);
    if cost > 0 {
        assert(lp * (reserve + cost) >= (cost - 1) * (supply + lp)) by (nonlinear_arith)
            requires
                cost * supply < lp * reserve + supply,
                cost >= 1,
        ;
        lemma_quotient_at_least(lp * (reserve + cost), supply + lp, (cost - 1) as nat);
    }
}

/// A deposit followed at once by the withdrawal of what it minted gives the
/// depositor back, in each asset, what the deposit took or one unit less.
///
/// Between the two nothing else happens to the pool: the supply has grown by
/// what was minted and the vaults by what was paid. Withdrawals have to be
/// enabled and the holder has to own what was minted.
pub proof fn lemma_deposit_withdraw_round_trip(
    pool: PoolState,
    vault_0: u64,
    vault_1: u64,
    amount: DepositAmount,
    holder_lp_balance: u64,
)
    requires
        pool.spec_deposit(vault_0, vault_1, amount) matches Ok(d) && holder_lp_balance
            >= d.lp_token_amount,
        feature_enabled(pool.status, PoolStatusBitIndex::Withdraw),
    ensures
        ({
            let d = pool.spec_deposit(vault_0, vault_1, amount)->Ok_0;
            let after = PoolState {
                lp_supply: (pool.lp_supply + d.lp_token_amount) as u64,
                ..pool
            };
            let back = after.spec_withdraw(
                (vault_0 + d.token_0_amount) as u64,
                (vault_1 + d.token_1_amount) as u64,
                holder_lp_balance,
                d.lp_token_amount,
            );
            &&& back matches Ok(w)
            &&& w.lp_token_amount == d.lp_token_amount
            &&& d.token_0_amount - 1 <= w.token_0_amount <= d.token_0_amount
            &&& d.token_1_amount - 1 <= w.token_1_amount <= d.token_1_amount
        }),
{
    let d = pool.spec_deposit(vault_0, vault_1, amount)->Ok_0;
    let lp = pool.deposit_lp(vault_0, vault_1, amount);
    let supply = pool.lp_supply as nat;
    lemma_worth_of_cost(lp, pool.reserve_0(vault_0), supply);
    lemma_worth_of_cost(lp, pool.reserve_1(vault_1), supply);
}

/// The two prices of a pair of reserves are inverse to each other as far as
/// rounding down allows: their product does not exceed two to the 64, and
/// falls short of it by no more than their sum.
pub proof fn lemma_prices_inverse(reserve_0: nat, reserve_1: nat)
    requires
        reserve_0 > 0,
        reserve_1 > 0,
    ensures
        price_x32(reserve_1, reserve_0) * price_x32(reserve_0, reserve_1) <= Q32 * Q32,
        Q32 * Q32 <= price_x32(reserve_1, reserve_0) * price_x32(reserve_0, reserve_1) + price_x32(
            reserve_1,
            reserve_0,
        ) + price_x32(reserve_0, reserve_1),
{
    let q = Q32 as nat;
    let a = reserve_0;
    let b = reserve_1;
    let x = price_x32(b, a);
    let y = price_x32(a, b);
    lemma_quotient_bounds(b * q, a);
    lemma_quotient_bounds(a * q, b);
    // x * a <= b * q < (x + 1) * a   and   y * b <= a * q < (y + 1) * b
    assert((x * y) * (a * b) <= (q * q) * (a * b)) by (nonlinear_arith)
        requires
            x * a <= b * q,
            y * b <= a * q,
    ;
    assert(x * y <= q * q) by (nonlinear_arith)
        requires
            (x * y) * (a * b) <= (q * q) * (a * b),
            a > 0,
            b > 0,
    ;
    assert((q * q) * (a * b) < ((x + 1) * (y + 1)) * (a * b)) by (nonlinear_arith)
        requires
            b * q < (x + 1) * a,
            a * q < (y + 1) * b,
            a > 0,
            b > 0,
    ;
    assert(q * q < (x + 1) * (y + 1)) by (nonlinear_arith)
        requires
            (q * q) * (a * b) < ((x + 1) * (y + 1)) * (a * b),
            a > 0,
            b > 0,
    ;
    assert((x + 1) * (y + 1) == x * y + x + y + 1) by (nonlinear_arith);
}

} // verus!
