use vstd::prelude::*;
use crate::config::AmmConfig;
use crate::errors::ErrorCode;
use crate::fees::{spec_split_fee, split_fee, FeeSplit};
use crate::oracle::{ObservationState, PriceFeed};
use crate::pool::{price_x32, PoolState};
use crate::status::{feature_enabled, PoolStatusBitIndex};

verus! {

/// Which asset a trade pays in.
#[derive(Clone, Copy, Debug, PartialEq, Eq, Structural)]
pub enum TradeDirection {
    /// Asset 0 is paid in, asset 1 is paid out.
    ZeroForOne,
    /// Asset 1 is paid in, asset 0 is paid out.
    OneForZero,
}

/// What the pricing curve is asked: the fee of the trade, and the three
/// numbers that the curve works on.
#[derive(Clone, Copy, Debug, PartialEq, Eq, Structural)]
pub struct SwapQuote {
    /// The fee on the amount paid in, and how it is shared out.
    pub fees: FeeSplit,
    /// The amount paid in, less the whole fee.
    pub effective_input: u64,
    /// The reserve of the asset paid in, before the trade.
    pub reserve_in: u64,
    /// The reserve of the asset paid out, before the trade.
    pub reserve_out: u64,
}

/// What a trade moved.
#[derive(Clone, Copy, Debug, PartialEq, Eq, Structural)]
pub struct SwapResult {
    /// Paid into the vault of the asset paid in.
    pub input_amount: u64,
    /// Paid out of the vault of the other asset.
    pub output_amount: u64,
    /// The fee on the amount paid in, and how it was shared out.
    pub fees: FeeSplit,
}

impl PoolState {
    /// What `swap_quote` returns.
    ///
    /// Trading has to be enabled and the pool open; the vaults have to cover
    /// the fees owed, with something left in both; the fee has to split, and
    /// may not exceed the amount paid in.
    pub open spec fn spec_swap_quote(
        &self,
        config: &AmmConfig,
        vault_0: u64,
        vault_1: u64,
        amount_in: u64,
        direction: TradeDirection,
        block_timestamp: u64,
    ) -> Result<SwapQuote, ErrorCode> {
        if !feature_enabled(self.status, PoolStatusBitIndex::Swap) {
            Err(ErrorCode::PoolDisabled)
        } else if block_timestamp < self.open_time {
            Err(ErrorCode::PoolNotOpen)
        } else if !self.solvent(vault_0, vault_1) {
            Err(ErrorCode::ArithmeticUnderflow)
        } else if !self.liquid(vault_0, vault_1) {
            Err(ErrorCode::ZeroLiquidity)
        } else {
            match spec_split_fee(
                amount_in,
                config.trade_fee_rate,
                config.protocol_fee_rate,
                config.fund_fee_rate,
            ) {
                Err(e) => Err(e),
                Ok(fees) => if fees.total() > amount_in {
                    Err(ErrorCode::ArithmeticUnderflow)
                } else {
                    Ok(
                        SwapQuote {
                            fees,
                            effective_input: (amount_in - fees.total()) as u64,
                            reserve_in: (match direction {
                                TradeDirection::ZeroForOne => self.reserve_0(vault_0),
                                TradeDirection::OneForZero => self.reserve_1(vault_1),
                            }) as u64,
                            reserve_out: (match direction {
                                TradeDirection::ZeroForOne => self.reserve_1(vault_1),
                                TradeDirection::OneForZero => self.reserve_0(vault_0),
                            }) as u64,
                        },
                    )
                },
            }
        }
    }

    /// Why a quoted trade is refused once the curve has named its output, if
    /// it is. The output has to stay strictly below the reserve it comes out
    /// of, and may not fall short of the least the trader accepts; the fee
    /// accumulators of the asset paid in, and its vault, have to fit 64 bits
    /// after the trade.
    pub open spec fn settlement_refusal(
        &self,
        quote: SwapQuote,
        vault_0: u64,
        vault_1: u64,
        amount_in: u64,
        minimum_amount_out: u64,
        direction: TradeDirection,
        output: u64,
    ) -> Option<ErrorCode> {
        let (protocol_in, fund_in, vault_in) = match direction {
            TradeDirection::ZeroForOne => (
                self.protocol_fees_token_0,
                self.fund_fees_token_0,
                vault_0,
            ),
            TradeDirection::OneForZero => (
                self.protocol_fees_token_1,
                self.fund_fees_token_1,
                vault_1,
            ),
        };
        if output >= quote.reserve_out {
            Some(ErrorCode::InsufficientLiquidity)
        } else if output < minimum_amount_out {
            Some(ErrorCode::SlippageExceeded)
        } else if protocol_in + quote.fees.protocol_fee > u64::MAX || fund_in
            + quote.fees.fund_fee > u64::MAX || vault_in + amount_in > u64::MAX {
            Some(ErrorCode::ArithmeticOverflow)
        } else {
            None
        }
    }

    /// The ledger after a trade: the protocol's and the fund's share of the
    /// fee are added to what is owed in the asset paid in. Nothing else changes.
    pub open spec fn with_fees_accrued(self, fees: FeeSplit, direction: TradeDirection) -> PoolState {
        match direction {
            TradeDirection::ZeroForOne => PoolState {
                protocol_fees_token_0: (self.protocol_fees_token_0 + fees.protocol_fee) as u64,
                fund_fees_token_0: (self.fund_fees_token_0 + fees.fund_fee) as u64,
                ..self
            },
            TradeDirection::OneForZero => PoolState {
                protocol_fees_token_1: (self.protocol_fees_token_1 + fees.protocol_fee) as u64,
                fund_fees_token_1: (self.fund_fees_token_1 + fees.fund_fee) as u64,
                ..self
            },
        }
    }

    /// What a trade feeds the oracle: the time, and the two prices on the
    /// reserves as they stand before the trade.
    pub open spec fn oracle_feed(&self, vault_0: u64, vault_1: u64, block_timestamp: u64) -> PriceFeed {
        PriceFeed {
            block_timestamp,
            token_0_price_x32: price_x32(self.reserve_1(vault_1), self.reserve_0(vault_0)) as u128,
            token_1_price_x32: price_x32(self.reserve_0(vault_0), self.reserve_1(vault_1)) as u128,
        }
    }

    /// The vault balances after a trade: the whole amount paid in is added
    /// to one, the output is taken out of the other.
    pub open spec fn vaults_after_swap(
        vault_0: u64,
        vault_1: u64,
        amount_in: u64,
        output: u64,
        direction: TradeDirection,
    ) -> (int, int) {
        match direction {
            TradeDirection::ZeroForOne => (vault_0 + amount_in, vault_1 - output),
            TradeDirection::OneForZero => (vault_0 - output, vault_1 + amount_in),
        }
    }

    /// How a trade ends once the curve has named `output` for it: what comes
    /// back, and what has become of the ledger and the oracle.
    ///
    /// A refusal leaves both as they were. A trade that goes through accrues
    /// the fee shares, feeds the oracle, and leaves the vaults covering the
    /// fees owed.
    pub open spec fn swap_settled(
        before: PoolState,
        config: &AmmConfig,
        oracle_before: ObservationState,
        vault_0: u64,
        vault_1: u64,
        amount_in: u64,
        minimum_amount_out: u64,
        direction: TradeDirection,
        block_timestamp: u64,
        output: u64,
        result: Result<SwapResult, ErrorCode>,
        after: PoolState,
        oracle_after: ObservationState,
    ) -> bool {
        match before.spec_swap_quote(
            config,
            vault_0,
            vault_1,
            amount_in,
            direction,
            block_timestamp,
        ) {
            Err(e) => result == Err::<SwapResult, ErrorCode>(e) && after == before && oracle_after
                == oracle_before,
            Ok(quote) => match before.settlement_refusal(
                quote,
                vault_0,
                vault_1,
                amount_in,
                minimum_amount_out,
                direction,
                output,
            ) {
                Some(e) => result == Err::<SwapResult, ErrorCode>(e) && after == before
                    && oracle_after == oracle_before,
                None => {
                    let vaults = Self::vaults_after_swap(
                        vault_0,
                        vault_1,
                        amount_in,
                        output,
                        direction,
                    );
                    &&& result == Ok::<SwapResult, ErrorCode>(
                        SwapResult {
                            input_amount: amount_in,
                            output_amount: output,
                            fees: quote.fees,
                        },
                    )
                    &&& after == before.with_fees_accrued(quote.fees, direction)
                    &&& oracle_after@ == oracle_before@.fed(
                        before.oracle_feed(vault_0, vault_1, block_timestamp),
                    )
                    &&& oracle_after.pool_id == oracle_before.pool_id
                    &&& oracle_after.padding == oracle_before.padding
                    &&& 0 <= vaults.0 <= u64::MAX
                    &&& 0 <= vaults.1 <= u64::MAX
                    &&& after.solvent(vaults.0 as u64, vaults.1 as u64)
                },
            },
        }
    }

    /// Prices a trade up to the curve: checks that the pool trades, takes
    /// the fee off the amount paid in, and names the reserves that the curve
    /// works on. The ledger is not changed.
    pub fn swap_quote(
        &self,
        config: &AmmConfig,
        vault_0: u64,
        vault_1: u64,
        amount_in: u64,
        direction: TradeDirection,
        block_timestamp: u64,
    ) -> (r: Result<SwapQuote, ErrorCode>)
        ensures
            r == self.spec_swap_quote(
                config,
                vault_0,
                vault_1,
                amount_in,
                direction,
                block_timestamp,
            ),
            r matches Ok(q) ==> q.effective_input + q.fees.total() == amount_in && q.reserve_in > 0
                && q.reserve_out > 0,
    {
        if !self.get_status_by_bit(PoolStatusBitIndex::Swap) {
            return Err(ErrorCode::PoolDisabled);
        }
        if block_timestamp < self.open_time {
            return Err(ErrorCode::PoolNotOpen);
        }
        let (reserve_0, reserve_1) = match self.vault_amount_without_fee(vault_0, vault_1) {
            Ok(p) => p,
            Err(e) => {
                return Err(e);
            },
        };
        if reserve_0 == 0 || reserve_1 == 0 {
            return Err(ErrorCode::ZeroLiquidity);
        }
        let fees = match split_fee(
            amount_in,
            config.trade_fee_rate,
            config.protocol_fee_rate,
            config.fund_fee_rate,
        ) {
            Ok(f) => f,
            Err(e) => {
                return Err(e);
            },
        };
        let total: u128 = fees.lp_fee as u128 + fees.protocol_fee as u128 + fees.fund_fee as u128;
        if total > amount_in as u128 {
            return Err(ErrorCode::ArithmeticUnderflow);
        }
        let (reserve_in, reserve_out) = match direction {
            TradeDirection::ZeroForOne => (reserve_0, reserve_1),
            TradeDirection::OneForZero => (reserve_1, reserve_0),
        };
        Ok(SwapQuote { fees, effective_input: amount_in - total as u64, reserve_in, reserve_out })
    }

    /// Settles a trade for which the curve has named `output`.
    ///
    /// The trade is priced as `swap_quote` says and then held against the
    /// output: see `swap_settled`. This is the whole of a trade but the
    /// curve, for every output that a curve may name.
    pub fn apply_swap(
        &mut self,
        config: &AmmConfig,
        observation: &mut ObservationState,
        vault_0: u64,
        vault_1: u64,
        amount_in: u64,
        minimum_amount_out: u64,
        direction: TradeDirection,
        block_timestamp: u64,
        output: u64,
    ) -> (r: Result<SwapResult, ErrorCode>)
        requires
            old(observation).wf(),
        ensures
            final(observation).wf(),
            Self::swap_settled(
                *old(self),
                config,
                *old(observation),
                vault_0,
                vault_1,
                amount_in,
                minimum_amount_out,
                direction,
                block_timestamp,
                output,
                r,
                *final(self),
                *final(observation),
            ),
    {
        let quote = match self.swap_quote(
            config,
            vault_0,
            vault_1,
            amount_in,
            direction,
            block_timestamp,
        ) {
            Ok(q) => q,
            Err(e) => {
                return Err(e);
            },
        };
        if output >= quote.reserve_out {
            return Err(ErrorCode::InsufficientLiquidity);
        }
        if output < minimum_amount_out {
            return Err(ErrorCode::SlippageExceeded);
        }
        let (protocol_in, fund_in, vault_in) = match direction {
            TradeDirection::ZeroForOne => (
                self.protocol_fees_token_0,
                self.fund_fees_token_0,
                vault_0,
            ),
            TradeDirection::OneForZero => (
                self.protocol_fees_token_1,
                self.fund_fees_token_1,
                vault_1,
            ),
        };
        if quote.fees.protocol_fee > u64::MAX - protocol_in || quote.fees.fund_fee > u64::MAX
            - fund_in || amount_in > u64::MAX - vault_in {
            return Err(ErrorCode::ArithmeticOverflow);
        }
        let (price_0, price_1) = match self.token_price_x32(vault_0, vault_1) {
            Ok(p) => p,
            Err(e) => {
                return Err(e);
            },
        };
        match direction {
            TradeDirection::ZeroForOne => {
                self.protocol_fees_token_0 = protocol_in + quote.fees.protocol_fee;
                self.fund_fees_token_0 = fund_in + quote.fees.fund_fee;
            },
            TradeDirection::OneForZero => {
                self.protocol_fees_token_1 = protocol_in + quote.fees.protocol_fee;
                self.fund_fees_token_1 = fund_in + quote.fees.fund_fee;
            },
        }
        observation.maybe_update(block_timestamp, price_0, price_1);
        Ok(SwapResult { input_amount: amount_in, output_amount: output, fees: quote.fees })
    }

    /// Trades one asset for the other along the curve handed in.
    ///
    /// The curve is any function of the reserve paid into, the reserve paid
    /// out of and the amount paid in less the fee; nothing is taken for
    /// granted of what it returns. A trade that `swap_quote` refuses never
    /// reaches the curve. Otherwise the curve is asked once, with the three
    /// numbers of the quote, and the trade ends as `swap_settled` says for
    /// the output that the curve named.
    pub fn swap<F: Fn(u64, u64, u64) -> u64>(
        &mut self,
        config: &AmmConfig,
        observation: &mut ObservationState,
        vault_0: u64,
        vault_1: u64,
        amount_in: u64,
        minimum_amount_out: u64,
        direction: TradeDirection,
        block_timestamp: u64,
        curve: F,
    ) -> (r: Result<SwapResult, ErrorCode>)
        requires
            old(observation).wf(),
            old(self).spec_swap_quote(
                config,
                vault_0,
                vault_1,
                amount_in,
                direction,
                block_timestamp,
            ) matches Ok(q) ==> curve.requires((q.reserve_in, q.reserve_out, q.effective_input)),
        ensures
            final(observation).wf(),
            match old(self).spec_swap_quote(
                config,
                vault_0,
                vault_1,
                amount_in,
                direction,
                block_timestamp,
            ) {
                Err(e) => r == Err::<SwapResult, ErrorCode>(e) && *final(self) == *old(self)
                    && *final(observation) == *old(observation),
                Ok(q) => exists|output: u64|
                    curve.ensures((q.reserve_in, q.reserve_out, q.effective_input), output)
                        && #[trigger] Self::swap_settled(
                        *old(self),
                        config,
                        *old(observation),
                        vault_0,
                        vault_1,
                        amount_in,
                        minimum_amount_out,
                        direction,
                        block_timestamp,
                        output,
                        r,
                        *final(self),
                        *final(observation),
                    ),
            },
    {
        let quote = match self.swap_quote(
            config,
            vault_0,
            vault_1,
            amount_in,
            direction,
            block_timestamp,
        ) {
            Ok(q) => q,
            Err(e) => {
                return Err(e);
            },
        };
        let output = curve(quote.reserve_in, quote.reserve_out, quote.effective_input);
        self.apply_swap(
            config,
            observation,
            vault_0,
            vault_1,
            amount_in,
            minimum_amount_out,
            direction,
            block_timestamp,
            output,
        )
    }
}

} // verus!
