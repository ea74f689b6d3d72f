use vstd::prelude::*;
use crate::address::Address;
use crate::errors::ErrorCode;
use crate::fees::{rates_in_order, FEE_RATE_DENOMINATOR_VALUE};

verus! {

/// One fee tier: the rates that pools of the tier trade at, the fee for
/// opening a pool, and who may collect what.
#[derive(Clone, Copy, Debug, PartialEq, Eq)]
pub struct AmmConfig {
    /// Bump of the derived address that holds the record.
    pub bump: u8,
    /// When set, no new pool may be opened under this tier.
    pub disable_create_pool: bool,
    /// The tier's number; it never changes.
    pub index: u16,
    /// The fee on a trade, in millionths of the amount traded.
    pub trade_fee_rate: u64,
    /// The part of the trade rate that goes to the protocol.
    pub protocol_fee_rate: u64,
    /// The part of the trade rate that goes to the fund.
    pub fund_fee_rate: u64,
    /// The fee for opening a pool.
    pub create_pool_fee: u64,
    /// Who administers the tier and collects the protocol fees.
    pub protocol_owner: Address,
    /// Who collects the fund fees.
    pub fund_owner: Address,
    /// Room for fields to come.
    pub padding: [u64; 16],
}

/// One change to a fee tier. Each field is changed on its own.
#[derive(Clone, Copy, Debug, PartialEq, Eq)]
pub enum ConfigUpdate {
    TradeFeeRate(u64),
    ProtocolFeeRate(u64),
    FundFeeRate(u64),
    CreatePoolFee(u64),
    DisableCreatePool(bool),
    ProtocolOwner(Address),
    FundOwner(Address),
}

impl AmmConfig {
    /// Bytes of the stored record, its eight-byte tag included.
    pub const LEN: usize = 8 + 1 + 1 + 2 + 4 * 8 + 32 * 2 + 8 * 16;

    /// A tier is well formed when its rates are in order.
    pub open spec fn wf(&self) -> bool {
        rates_in_order(self.trade_fee_rate, self.protocol_fee_rate, self.fund_fee_rate)
    }

    /// The tier holds the given values and is otherwise as new: it admits
    /// pools, and its bump and padding are zero.
    pub open spec fn created_with(
        &self,
        index: u16,
        trade_fee_rate: u64,
        protocol_fee_rate: u64,
        fund_fee_rate: u64,
        create_pool_fee: u64,
        protocol_owner: Address,
        fund_owner: Address,
    ) -> bool {
        &&& self.bump == 0
        &&& !self.disable_create_pool
        &&& self.index == index
        &&& self.trade_fee_rate == trade_fee_rate
        &&& self.protocol_fee_rate == protocol_fee_rate
        &&& self.fund_fee_rate == fund_fee_rate
        &&& self.create_pool_fee == create_pool_fee
        &&& self.protocol_owner == protocol_owner
        &&& self.fund_owner == fund_owner
        &&& self.padding@ == Seq::new(16, |i: int| 0u64)
    }

    /// The tier after one change, whether or not the change is admissible.
    pub open spec fn changed(self, change: ConfigUpdate) -> AmmConfig {
        match change {
            ConfigUpdate::TradeFeeRate(v) => AmmConfig { trade_fee_rate: v, ..self },
            ConfigUpdate::ProtocolFeeRate(v) => AmmConfig { protocol_fee_rate: v, ..self },
            ConfigUpdate::FundFeeRate(v) => AmmConfig { fund_fee_rate: v, ..self },
            ConfigUpdate::CreatePoolFee(v) => AmmConfig { create_pool_fee: v, ..self },
            ConfigUpdate::DisableCreatePool(v) => AmmConfig { disable_create_pool: v, ..self },
            ConfigUpdate::ProtocolOwner(v) => AmmConfig { protocol_owner: v, ..self },
            ConfigUpdate::FundOwner(v) => AmmConfig { fund_owner: v, ..self },
        }
    }

    /// Why a change is refused, if it is: the caller has to be the tier's
    /// protocol owner, and a change of rate has to leave the rates in order.
    pub open spec fn update_refusal(self, caller: Address, change: ConfigUpdate) -> Option<ErrorCode> {
        if caller@ != self.protocol_owner@ {
            Some(ErrorCode::Unauthorized)
        } else if (change is TradeFeeRate || change is ProtocolFeeRate || change is FundFeeRate)
            && !self.changed(change).wf() {
            Some(ErrorCode::InvalidFeeRate)
        } else {
            None
        }
    }

    /// Whether the rates of the tier are in order.
    pub fn is_well_formed(&self) -> (b: bool)
        ensures
            b == self.wf(),
    {
        rates_are_in_order(self.trade_fee_rate, self.protocol_fee_rate, self.fund_fee_rate)
    }

    /// A new tier with the given number, rates, pool-opening fee and owners.
    ///
    /// The rates have to be in order; otherwise the tier is refused with
    /// `InvalidFeeRate`. The new tier admits pools, and its bump and padding
    /// are zero.
    pub fn create(
        index: u16,
        trade_fee_rate: u64,
        protocol_fee_rate: u64,
        fund_fee_rate: u64,
        create_pool_fee: u64,
        protocol_owner: Address,
        fund_owner: Address,
    ) -> (r: Result<AmmConfig, ErrorCode>)
        ensures
            rates_in_order(trade_fee_rate, protocol_fee_rate, fund_fee_rate) ==> (r matches Ok(c)
                && c.wf() && c.created_with(
                index,
                trade_fee_rate,
                protocol_fee_rate,
                fund_fee_rate,
                create_pool_fee,
                protocol_owner,
                fund_owner,
            )),
            !rates_in_order(trade_fee_rate, protocol_fee_rate, fund_fee_rate) ==> r == Err::<
                AmmConfig,
                ErrorCode,
            >(ErrorCode::InvalidFeeRate),
    {
        if !rates_are_in_order(trade_fee_rate, protocol_fee_rate, fund_fee_rate) {
            return Err(ErrorCode::InvalidFeeRate);
        }
        let c = AmmConfig {
            bump: 0,
            disable_create_pool: false,
            index,
            trade_fee_rate,
            protocol_fee_rate,
            fund_fee_rate,
            create_pool_fee,
            protocol_owner,
            fund_owner,
            padding: [0u64; 16],
        };
        assert(c.padding@ =~= Seq::new(16, |i: int| 0u64));
        Ok(c)
    }

    /// Applies one change to the tier, on behalf of `caller`.
    ///
    /// Only the protocol owner may change a tier (`Unauthorized`), and a
    /// change of rate that would leave the rates out of order is refused
    /// (`InvalidFeeRate`). A refused change leaves the tier as it was. Fees
    /// that pools have already accrued are not touched: the tier holds none.
    pub fn update(&mut self, caller: &Address, change: ConfigUpdate) -> (r: Result<(), ErrorCode>)
        ensures
            match old(self).update_refusal(*caller, change) {
                Some(e) => r == Err::<(), ErrorCode>(e) && *final(self) == *old(self),
                None => r == Ok::<(), ErrorCode>(()) && *final(self) == old(self).changed(change),
            },
            final(self).index == old(self).index,
            old(self).wf() ==> final(self).wf(),
    {
        if !caller.same(&self.protocol_owner) {
            return Err(ErrorCode::Unauthorized);
        }
        match change {
            ConfigUpdate::TradeFeeRate(v) => {
                if !rates_are_in_order(v, self.protocol_fee_rate, self.fund_fee_rate) {
                    return Err(ErrorCode::InvalidFeeRate);
                }
                self.trade_fee_rate = v;
            },
            ConfigUpdate::ProtocolFeeRate(v) => {
                if !rates_are_in_order(self.trade_fee_rate, v, self.fund_fee_rate) {
                    return Err(ErrorCode::InvalidFeeRate);
                }
                self.protocol_fee_rate = v;
            },
            ConfigUpdate::FundFeeRate(v) => {
                if !rates_are_in_order(self.trade_fee_rate, self.protocol_fee_rate, v) {
                    return Err(ErrorCode::InvalidFeeRate);
                }
                self.fund_fee_rate = v;
            },
            ConfigUpdate::CreatePoolFee(v) => {
                self.create_pool_fee = v;
            },
            ConfigUpdate::DisableCreatePool(v) => {
                self.disable_create_pool = v;
            },
            ConfigUpdate::ProtocolOwner(v) => {
                self.protocol_owner = v;
            },
            ConfigUpdate::FundOwner(v) => {
                self.fund_owner = v;
            },
        }
        Ok(())
    }
}

/// Whether three rates are in order: each below the denominator, and the
/// protocol and fund rates together within the trade rate.
pub fn rates_are_in_order(trade_fee_rate: u64, protocol_fee_rate: u64, fund_fee_rate: u64) -> (b: bool)
    ensures
        b == rates_in_order(trade_fee_rate, protocol_fee_rate, fund_fee_rate),
{
    trade_fee_rate < FEE_RATE_DENOMINATOR_VALUE && protocol_fee_rate < FEE_RATE_DENOMINATOR_VALUE
        && fund_fee_rate < FEE_RATE_DENOMINATOR_VALUE && protocol_fee_rate + fund_fee_rate
        <= trade_fee_rate
}

} // verus!
