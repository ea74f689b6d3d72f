use vstd::prelude::*;
use crate::address::Address;
use crate::config::{AmmConfig, ConfigUpdate};
use crate::errors::ErrorCode;
use crate::fees::rates_in_order;

verus! {

/// The fee tiers that exist, each under its own number.
///
/// A tier is added once and never taken away; no two tiers share a number.
pub struct ConfigRegistry {
    configs: Vec<AmmConfig>,
}

impl View for ConfigRegistry {
    type V = Map<u16, AmmConfig>;

    /// The tiers by number.
    closed spec fn view(&self) -> Map<u16, AmmConfig> {
        Map::new(
            |i: u16| slot_of(self.configs@, i) is Some,
            |i: u16| self.configs@[slot_of(self.configs@, i).unwrap()],
        )
    }
}

/// Where in the list the tier with the given number stands, if it is there.
spec fn slot_of(configs: Seq<AmmConfig>, index: u16) -> Option<int> {
    if exists|k: int| 0 <= k < configs.len() && configs[k].index == index {
        Some(choose|k: int| 0 <= k < configs.len() && configs[k].index == index)
    } else {
        None
    }
}

/// No number occurs twice in the list, and every tier in it is well formed.
spec fn list_in_order(configs: Seq<AmmConfig>) -> bool {
    &&& forall|j: int, k: int|
        0 <= j < configs.len() && 0 <= k < configs.len() && configs[j].index == configs[k].index
            ==> j == k
    &&& forall|k: int| 0 <= k < configs.len() ==> (#[trigger] configs[k]).wf()
}

/// In a list without repeated numbers a tier stands at the slot of its number.
proof fn lemma_slot_found(configs: Seq<AmmConfig>, k: int)
    requires
        list_in_order(configs),
        0 <= k < configs.len(),
    ensures
        slot_of(configs, configs[k].index) == Some(k),
{
}

impl ConfigRegistry {
    /// No two tiers share a number, and the rates of every tier are in
    /// order. `new` establishes this and every method keeps it.
    pub closed spec fn wf(&self) -> bool {
        list_in_order(self.configs@)
    }

    /// A registry without tiers.
    pub fn new() -> (r: ConfigRegistry)
        ensures
            r.wf(),
            r@ == Map::<u16, AmmConfig>::empty(),
    {
        let r = ConfigRegistry { configs: Vec::new() };
        assert(r@ =~= Map::<u16, AmmConfig>::empty());
        r
    }

    /// Position of the tier with the given number.
    fn find(&self, index: u16) -> (r: Option<usize>)
        requires
            self.wf(),
        ensures
            r matches Some(k) ==> k < self.configs@.len() && slot_of(self.configs@, index) == Some(
                k as int,
            ),
            r is None ==> slot_of(self.configs@, index) is None,
    {
        let mut k: usize = 0;
        while k < self.configs.len()
            invariant
                k <= self.configs@.len(),
                list_in_order(self.configs@),
                forall|j: int| 0 <= j < k ==> self.configs@[j].index != index,
            decreases self.configs@.len() - k,
        {
            if self.configs[k].index == index {
                proof {
                    lemma_slot_found(self.configs@, k as int);
                }
                return Some(k);
            }
            k += 1;
        }
        None
    }

    /// How many tiers there are.
    pub fn len(&self) -> (n: usize)
        requires
            self.wf(),
        ensures
            n == self@.dom().len(),
            self@.dom().finite(),
    {
        proof {
            lemma_domain_size(self.configs@);
            assert(self@.dom() =~= numbers_of(self.configs@));
        }
        self.configs.len()
    }

    /// The tier with the given number, if there is one. A tier found this
    /// way carries the number it was asked by, and its rates are in order.
    pub fn get(&self, index: u16) -> (r: Option<AmmConfig>)
        requires
            self.wf(),
        ensures
            r == (if self@.contains_key(index) {
                Some(self@[index])
            } else {
                None
            }),
            r matches Some(c) ==> c.index == index && c.wf(),
    {
        match self.find(index) {
            Some(k) => Some(self.configs[k]),
            None => None,
        }
    }

    /// Adds a tier under a number that is still free.
    ///
    /// A number already in use is refused with `InvalidIndex`, rates out of
    /// order with `InvalidFeeRate`; either way the registry stays as it was.
    /// Otherwise the new tier is returned and stands under its number, and
    /// every other tier is unchanged. No tier ever leaves the registry.
    pub fn create(
        &mut self,
        index: u16,
        trade_fee_rate: u64,
        protocol_fee_rate: u64,
        fund_fee_rate: u64,
        create_pool_fee: u64,
        protocol_owner: Address,
        fund_owner: Address,
    ) -> (r: Result<AmmConfig, ErrorCode>)
        requires
            old(self).wf(),
        ensures
            final(self).wf(),
            forall|i: u16| old(self)@.contains_key(i) ==> final(self)@.contains_key(i),
            old(self)@.contains_key(index) ==> r == Err::<AmmConfig, ErrorCode>(
                ErrorCode::InvalidIndex,
            ) && final(self)@ == old(self)@,
            !old(self)@.contains_key(index) && !rates_in_order(
                trade_fee_rate,
                protocol_fee_rate,
                fund_fee_rate,
            ) ==> r == Err::<AmmConfig, ErrorCode>(ErrorCode::InvalidFeeRate) && final(self)@
                == old(self)@,
            !old(self)@.contains_key(index) && rates_in_order(
                trade_fee_rate,
                protocol_fee_rate,
                fund_fee_rate,
            ) ==> (r matches Ok(c) && final(self)@ == old(self)@.insert(index, c) && c.wf()
                && c.created_with(
                index,
                trade_fee_rate,
                protocol_fee_rate,
                fund_fee_rate,
                create_pool_fee,
                protocol_owner,
                fund_owner,
            )),
    {
        if self.find(index).is_some() {
            return Err(ErrorCode::InvalidIndex);
        }
        let c = match AmmConfig::create(
            index,
            trade_fee_rate,
            protocol_fee_rate,
            fund_fee_rate,
            create_pool_fee,
            protocol_owner,
            fund_owner,
        ) {
            Ok(c) => c,
            Err(e) => {
                return Err(e);
            },
        };
        let ghost before = self.configs@;
        self.configs.push(c);
        proof {
            let after = self.configs@;
            assert(list_in_order(after));
            assert forall|i: u16| slot_of(after, i) is Some <==> (i == index || slot_of(
                before,
                i,
            ) is Some) by {
                if i == index {
                    assert(after[before.len() as int].index == index);
                } else if slot_of(before, i) is Some {
                    let k = slot_of(before, i).unwrap();
                    assert(after[k].index == i);
                } else if slot_of(after, i) is Some {
                    let k = slot_of(after, i).unwrap();
                    assert(before[k].index == i);
                }
            }
            assert forall|i: u16| slot_of(after, i) is Some implies after[slot_of(
                after,
                i,
            ).unwrap()] == (if i == index {
                c
            } else {
                before[slot_of(before, i).unwrap()]
            }) by {
                let k = slot_of(after, i).unwrap();
                if i != index {
                    let j = slot_of(before, i).unwrap();
                    assert(after[j].index == i);
                }
            }
            assert(self@ =~= old(self)@.insert(index, c));
        }
        Ok(c)
    }

    /// Applies one change to the tier with the given number, on behalf of
    /// `caller`.
    ///
    /// A number that no tier has is refused with `InvalidIndex`; otherwise the
    /// change is admitted or refused as `AmmConfig::update` says. No other
    /// tier changes, and no tier changes its number.
    pub fn update(&mut self, caller: &Address, index: u16, change: ConfigUpdate) -> (r: Result<
        (),
        ErrorCode,
    >)
        requires
            old(self).wf(),
        ensures
            final(self).wf(),
            forall|i: u16| old(self)@.contains_key(i) ==> final(self)@.contains_key(i),
            !old(self)@.contains_key(index) ==> r == Err::<(), ErrorCode>(ErrorCode::InvalidIndex)
                && final(self)@ == old(self)@,
            old(self)@.contains_key(index) ==> match old(self)@[index].update_refusal(
                *caller,
                change,
            ) {
                Some(e) => r == Err::<(), ErrorCode>(e) && final(self)@ == old(self)@,
                None => r == Ok::<(), ErrorCode>(()) && final(self)@ == old(self)@.insert(
                    index,
                    old(self)@[index].changed(change),
                ),
            },
    {
        let k = match self.find(index) {
            Some(k) => k,
            None => {
                return Err(ErrorCode::InvalidIndex);
            },
        };
        let mut c = self.configs[k];
        let ghost before = self.configs@;
        match c.update(caller, change) {
            Ok(()) => {},
            Err(e) => {
                return Err(e);
            },
        }
        self.configs.set(k, c);
        proof {
            let after = self.configs@;
            assert(forall|j: int| 0 <= j < after.len() ==> after[j].index == before[j].index);
            assert(list_in_order(after));
            assert forall|i: u16| slot_of(after, i) == slot_of(before, i) by {
                if slot_of(before, i) is Some {
                    let j = slot_of(before, i).unwrap();
                    assert(after[j].index == i);
                    lemma_slot_found(after, j);
                } else if slot_of(after, i) is Some {
                    let j = slot_of(after, i).unwrap();
                    assert(before[j].index == i);
                }
            }
            assert(self@ =~= old(self)@.insert(index, c));
        }
        Ok(())
    }
}

/// The numbers that occur in a list of tiers.
spec fn numbers_of(configs: Seq<AmmConfig>) -> Set<u16> {
    Set::new(|i: u16| slot_of(configs, i) is Some)
}

/// A list without repeated numbers holds as many numbers as tiers.
proof fn lemma_domain_size(configs: Seq<AmmConfig>)
    requires
        list_in_order(configs),
    ensures
        numbers_of(configs).finite(),
        numbers_of(configs).len() == configs.len(),
    decreases configs.len(),
{
    if configs.len() == 0 {
        assert(numbers_of(configs) =~= Set::<u16>::empty());
    } else {
        let rest = configs.drop_last();
        let last = configs.last();
        assert(list_in_order(rest));
        lemma_domain_size(rest);
        assert(slot_of(rest, last.index) is None) by {
            if slot_of(rest, last.index) is Some {
                let k = slot_of(rest, last.index).unwrap();
                assert(configs[k].index == configs[configs.len() - 1].index);
            }
        }
        assert(numbers_of(configs) =~= numbers_of(rest).insert(last.index)) by {
            assert forall|i: u16| numbers_of(configs).contains(i) <==> numbers_of(rest).insert(
                last.index,
            ).contains(i) by {
                if i == last.index {
                    assert(configs[configs.len() - 1].index == i);
                } else if slot_of(rest, i) is Some {
                    let k = slot_of(rest, i).unwrap();
                    assert(configs[k].index == i);
                } else if slot_of(configs, i) is Some {
                    let k = slot_of(configs, i).unwrap();
                    assert(rest[k].index == i);
                }
            }
        }
    }
}

} // verus!
