//! Escrowed collateral of each gateway, mirrored from the escrow contract,
//! and the local spend that it gates.
use crate::address::Address;
use crate::address_map::AddressMap;
use vstd::prelude::*;

verus! {

/// The balance after one subtraction of `amount` from `balance`: it happens
/// only when the balance covers it.
pub open spec fn subtract_step(balance: u128, amount: u128) -> u128 {
    if amount <= balance {
        (balance - amount) as u128
    } else {
        balance
    }
}

/// The balance after subtracting each of `amounts` in turn from `balance`.
pub open spec fn balance_after(balance: u128, amounts: Seq<u128>) -> u128
    decreases amounts.len(),
{
    if amounts.len() == 0 {
        balance
    } else {
        subtract_step(balance_after(balance, amounts.drop_last()), amounts.last())
    }
}

/// The sum of the subtractions among `amounts` that succeeded.
pub open spec fn granted_total(balance: u128, amounts: Seq<u128>) -> nat
    decreases amounts.len(),
{
    if amounts.len() == 0 {
        0
    } else {
        let before = balance_after(balance, amounts.drop_last());
        granted_total(balance, amounts.drop_last()) + if amounts.last() <= before {
            amounts.last() as nat
        } else {
            0
        }
    }
}

/// The sum of all of `amounts`.
pub open spec fn requested_total(amounts: Seq<u128>) -> nat
    decreases amounts.len(),
{
    if amounts.len() == 0 {
        0
    } else {
        requested_total(amounts.drop_last()) + amounts.last() as nat
    }
}

/// Whatever run of subtractions a gateway sees, what was granted plus what is
/// left is the starting balance, so the balance never goes below zero; and
/// when the amounts sum to more than the balance, some subtraction was refused.
pub proof fn lemma_collateral_never_negative(balance: u128, amounts: Seq<u128>)
    ensures
        granted_total(balance, amounts) + balance_after(balance, amounts) == balance,
        granted_total(balance, amounts) <= balance,
        granted_total(balance, amounts) <= requested_total(amounts),
        requested_total(amounts) > balance ==> granted_total(balance, amounts) < requested_total(
            amounts,
        ),
    decreases amounts.len(),
{
    if amounts.len() > 0 {
        lemma_collateral_never_negative(balance, amounts.drop_last());
    }
}

/// Why a collateral operation was refused.
#[derive(Clone, Copy, Debug, PartialEq, Eq, Structural)]
pub enum AdapterError {
    /// The gateway's balance does not cover the amount.
    InsufficientCollateral { available: u128, requested: u128 },
}

/// The collateral available to each gateway. A gateway the ledger has never
/// heard of has none.
pub struct CollateralAdapter {
    balances: AddressMap<u128>,
}

impl CollateralAdapter {
    pub closed spec fn balances(&self) -> Map<Seq<u8>, u128> {
        self.balances.view()
    }

    pub closed spec fn wf(&self) -> bool {
        self.balances.wf()
    }

    /// The collateral of `gateway`: its mirrored balance, or zero.
    pub open spec fn available(&self, gateway: Seq<u8>) -> u128 {
        if self.balances().contains_key(gateway) {
            self.balances()[gateway]
        } else {
            0
        }
    }

    pub fn new() -> (r: CollateralAdapter)
        ensures
            r.wf(),
            r.balances() == Map::<Seq<u8>, u128>::empty(),
    {
        CollateralAdapter { balances: AddressMap::new() }
    }

    /// Mirrors the balance that the escrow contract holds for `gateway_id`.
    pub fn set_collateral(&mut self, gateway_id: &Address, amount: u128)
        requires
            old(self).wf(),
        ensures
            final(self).wf(),
            final(self).balances() == old(self).balances().insert(gateway_id@, amount),
    {
        self.balances.upsert(gateway_id, amount);
    }

    pub fn get_available_collateral(&self, gateway_id: &Address) -> (r: u128)
        requires
            self.wf(),
        ensures
            r == self.available(gateway_id@),
    {
        match self.balances.get(gateway_id) {
            Some(amount) => amount,
            None => 0,
        }
    }

    /// Spends `value` of the gateway's collateral, if its balance covers it.
    pub fn subtract_collateral(&mut self, gateway_id: &Address, value: u128) -> (r: Result<
        (),
        AdapterError,
    >)
        requires
            old(self).wf(),
        ensures
            final(self).wf(),
            r is Ok <==> value <= old(self).available(gateway_id@),
            final(self).available(gateway_id@) == subtract_step(
                old(self).available(gateway_id@),
                value,
            ),
            r is Ok ==> final(self).balances() == old(self).balances().insert(
                gateway_id@,
                (old(self).available(gateway_id@) - value) as u128,
            ),
            r is Err ==> final(self).balances() == old(self).balances() && r == Err::<
                (),
                AdapterError,
            >(
                AdapterError::InsufficientCollateral {
                    available: old(self).available(gateway_id@),
                    requested: value,
                },
            ),
    {
        let available = self.get_available_collateral(gateway_id);
        if value > available {
            return Err(AdapterError::InsufficientCollateral { available, requested: value });
        }
        self.balances.upsert(gateway_id, available - value);
        Ok(())
    }
}

} // verus!
