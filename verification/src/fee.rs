//! Fee arithmetic of the drain transaction, in whole numbers.

use vstd::prelude::*;

verus! {

/// A fee rate in thousandths of the smallest currency unit per virtual byte,
/// so that fractional rates are exact: 1250 stands for 1.25 units.
#[derive(Clone, Copy, Debug, PartialEq, Eq, Structural)]
pub struct FeeRate {
    pub milli_per_vbyte: u64,
}

/// What a drain pays out and what it leaves to the miners.
#[derive(Clone, Copy, Debug, PartialEq, Eq, Structural)]
pub struct DrainAmounts {
    /// The value of the single payment output.
    pub amount: u64,
    /// The fee.
    pub fee: u64,
}

/// Why a value cannot be drained.
#[derive(Clone, Copy, Debug, PartialEq, Eq, Structural)]
pub enum DrainError {
    /// The fee is not below the value: nothing would be left to pay out.
    FeeExceedsValue { fee: u64, value: u64 },
    /// The fee is too large to be held.
    FeeOverflow,
}

/// The virtual size of a transaction of a given weight: a quarter, rounded up.
pub open spec fn vsize_of(weight: nat) -> nat {
    (weight + 3) / 4
}

/// The fee of a transaction of a given virtual size at a given rate: the
/// product in whole units, rounded up.
pub open spec fn fee_for(milli_per_vbyte: nat, vsize: nat) -> nat {
    (milli_per_vbyte * vsize + 999) / 1000
}

/// The weight of a transaction as it is estimated before it is signed: the
/// unsigned transaction, the two units of the witness header, and the
/// largest satisfaction for each input.
pub open spec fn estimate_of(unsigned_weight: nat, inputs: nat, satisfaction: nat) -> nat {
    unsigned_weight + 2 + inputs * satisfaction
}

/// A fee that is within one unit of the rate times the virtual size of a
/// weight.
pub open spec fn within_one_unit(fee: nat, milli_per_vbyte: nat, weight: nat) -> bool {
    milli_per_vbyte * vsize_of(weight) < 1000 * (fee + 1) && 1000 * fee < milli_per_vbyte * vsize_of(weight)
        + 1000
}

/// The weight of a transaction as it is estimated before it is signed, or
/// `None` where it is too large to be held.
pub fn estimated_weight(unsigned_weight: usize, inputs: usize, satisfaction: usize) -> (r: Option<u64>)
    ensures
        match r {
            Some(weight) => weight == estimate_of(unsigned_weight as nat, inputs as nat, satisfaction as nat),
            None => estimate_of(unsigned_weight as nat, inputs as nat, satisfaction as nat) > u64::MAX,
        },
{
    let count: u128 = inputs as u128;
    let each: u128 = satisfaction as u128;
    assert(count * each <= 0xffff_ffff_ffff_ffff * 0xffff_ffff_ffff_ffff) by (nonlinear_arith)
        requires
            count <= 0xffff_ffff_ffff_ffff,
            each <= 0xffff_ffff_ffff_ffff,
    ;
    let weight: u128 = unsigned_weight as u128 + 2 + count * each;
    if weight > u64::MAX as u128 {
        None
    } else {
        Some(weight as u64)
    }
}

/// The virtual size of a transaction of a given weight.
pub fn virtual_size(weight: u64) -> (vsize: u64)
    ensures
        vsize == vsize_of(weight as nat),
{
    if weight % 4 == 0 {
        weight / 4
    } else {
        weight / 4 + 1
    }
}

impl FeeRate {
    /// A rate given in thousandths of a unit per virtual byte.
    pub fn from_milli_per_vbyte(milli_per_vbyte: u64) -> (rate: FeeRate)
        ensures
            rate.milli_per_vbyte == milli_per_vbyte,
    {
        FeeRate { milli_per_vbyte }
    }

    /// The fee for a virtual size at this rate, or `None` where it is too large
    /// to be held.
    pub fn fee(&self, vsize: u64) -> (r: Option<u64>)
        ensures
            match r {
                Some(fee) => fee == fee_for(self.milli_per_vbyte as nat, vsize as nat),
                None => fee_for(self.milli_per_vbyte as nat, vsize as nat) > u64::MAX,
            },
    {
        let rate: u128 = self.milli_per_vbyte as u128;
        let size: u128 = vsize as u128;
        assert(rate * size <= 0xffff_ffff_ffff_ffff * 0xffff_ffff_ffff_ffff) by (nonlinear_arith)
            requires
                rate <= 0xffff_ffff_ffff_ffff,
                size <= 0xffff_ffff_ffff_ffff,
        ;
        let fee: u128 = (rate * size + 999) / 1000;
        if fee > u64::MAX as u128 {
            None
        } else {
            Some(fee as u64)
        }
    }

    /// Tells whether a fee is within one unit of this rate times the virtual
    /// size of a weight, as that of the transaction once it is signed.
    pub fn is_paid_within_one_unit(&self, fee: u64, weight: u64) -> (b: bool)
        ensures
            b == within_one_unit(fee as nat, self.milli_per_vbyte as nat, weight as nat),
    {
        let rate: u128 = self.milli_per_vbyte as u128;
        let size: u128 = virtual_size(weight) as u128;
        assert(rate * size <= 0xffff_ffff_ffff_ffff * 0xffff_ffff_ffff_ffff) by (nonlinear_arith)
            requires
                rate <= 0xffff_ffff_ffff_ffff,
                size <= 0xffff_ffff_ffff_ffff,
        ;
        let due: u128 = rate * size;
        let paid: u128 = 1000 * (fee as u128);
        due < paid + 1000 && paid < due + 1000
    }
}

/// The amounts of a transaction that spends a value in full at a fee rate:
/// the fee for its weight, and all the rest in one payment, where something
/// is left to pay.
pub open spec fn drained(value: u64, milli_per_vbyte: u64, weight: u64) -> Result<DrainAmounts, DrainError> {
    let fee = fee_for(milli_per_vbyte as nat, vsize_of(weight as nat));
    if fee > u64::MAX {
        Err(DrainError::FeeOverflow)
    } else if fee >= value {
        Err(DrainError::FeeExceedsValue { fee: fee as u64, value })
    } else {
        Ok(DrainAmounts { amount: (value - fee) as u64, fee: fee as u64 })
    }
}

/// The amounts of a transaction that spends `value` in full at a fee rate:
/// the fee for its weight, and all the rest in one payment.
pub fn drain_amounts(value: u64, rate: FeeRate, weight: u64) -> (r: Result<DrainAmounts, DrainError>)
    ensures
        r == drained(value, rate.milli_per_vbyte, weight),
{
    match rate.fee(virtual_size(weight)) {
        None => Err(DrainError::FeeOverflow),
        Some(fee) => {
            if fee >= value {
                Err(DrainError::FeeExceedsValue { fee, value })
            } else {
                Ok(DrainAmounts { amount: value - fee, fee })
            }
        },
    }
}

/// The fee of a full drain is within one unit of the rate times the virtual
/// size of the weight that it was computed over.
pub proof fn lemma_drained_fee_is_within_one_unit(value: u64, milli_per_vbyte: u64, weight: u64)
    requires
        drained(value, milli_per_vbyte, weight) is Ok,
    ensures
        within_one_unit(
            drained(value, milli_per_vbyte, weight)->Ok_0.fee as nat,
            milli_per_vbyte as nat,
            weight as nat,
        ),
{
}

/// A full drain leaves nothing behind and pays the rate exactly: the payment
/// and the fee add up to the value spent, and the fee is the rate times the
/// virtual size, rounded up by less than one unit.
pub proof fn lemma_full_drain(value: nat, milli_per_vbyte: nat, weight: nat)
    requires
        fee_for(milli_per_vbyte, vsize_of(weight)) < value,
    ensures
        ({
            let vsize = vsize_of(weight);
            let fee = fee_for(milli_per_vbyte, vsize);
            let amount = value - fee;
            &&& amount + fee == value
            &&& amount > 0
            &&& milli_per_vbyte * vsize <= 1000 * fee < milli_per_vbyte * vsize + 1000
            &&& weight <= 4 * vsize < weight + 4
        }),
{
}

} // verus!
