//! Waiting for the test validator to reach the next epoch or slot: the
//! decisions taken on each observed slot.

use vstd::prelude::*;

verus! {

/// Slots left in the epoch that holds `slot`, counting `slot` itself.
pub open spec fn spec_slots_remaining(slots_per_epoch: nat, slot: nat) -> int {
    slots_per_epoch - slot % slots_per_epoch
}

/// How much of the epoch has passed before `slot`, in whole percent.
pub open spec fn spec_progress_percent(slots_per_epoch: nat, slot: nat) -> int {
    ((slots_per_epoch - spec_slots_remaining(slots_per_epoch, slot)) * 100) / (slots_per_epoch as int)
}

/// What one observation of the current slot tells the epoch wait.
#[derive(Clone, Copy, Debug, PartialEq, Eq, Structural)]
pub struct EpochProgress {
    /// Slots left in the current epoch, the observed one included.
    pub slots_remaining: u64,
    /// Position reached in the epoch, in percent, for the progress bar.
    pub percent: u64,
    /// Whether the observed slot is the last of its epoch, so that the wait
    /// ends (after a short pause).
    pub epoch_ends: bool,
}

/// Slots left in the epoch of `slot`.
pub fn slots_remaining(slots_per_epoch: u64, slot: u64) -> (r: u64)
    requires
        slots_per_epoch > 0,
    ensures
        r == spec_slots_remaining(slots_per_epoch as nat, slot as nat),
        1 <= r <= slots_per_epoch,
{
    slots_per_epoch - (slot % slots_per_epoch)
}

/// Decides, for an observed slot, what the epoch wait shows and whether it
/// stops.
///
/// The progress is computed as `(slots_per_epoch - slots_remaining) * 100`,
/// divided by `slots_per_epoch`; the product must fit in a `u64`.
pub fn observe_slot(slots_per_epoch: u64, slot: u64) -> (r: EpochProgress)
    requires
        slots_per_epoch > 0,
        (slot % slots_per_epoch) * 100 <= u64::MAX,
    ensures
        r.slots_remaining == spec_slots_remaining(slots_per_epoch as nat, slot as nat),
        r.percent == spec_progress_percent(slots_per_epoch as nat, slot as nat),
        r.epoch_ends == (r.slots_remaining == 1),
{
    let remaining = slots_remaining(slots_per_epoch, slot);
    let percent = (slots_per_epoch - remaining) * 100 / slots_per_epoch;
    EpochProgress { slots_remaining: remaining, percent, epoch_ends: remaining == 1 }
}

/// The epoch wait stops exactly on the last slot of an epoch, and the
/// progress it shows is always below 100 percent.
pub proof fn lemma_wait_ends_on_last_slot(slots_per_epoch: nat, slot: nat)
    requires
        slots_per_epoch > 0,
    ensures
        (spec_slots_remaining(slots_per_epoch, slot) == 1) <==> (slot % slots_per_epoch
            == slots_per_epoch - 1),
        0 <= spec_progress_percent(slots_per_epoch, slot) < 100,
{
    let m = slot % slots_per_epoch;
    assert(spec_slots_remaining(slots_per_epoch, slot) == slots_per_epoch - m);
    assert(0 <= m < slots_per_epoch);
    assert((slots_per_epoch - (slots_per_epoch - m)) == m);
    assert(m * 100 < slots_per_epoch * 100) by (nonlinear_arith)
        requires
            m < slots_per_epoch,
    ;
    assert(0 <= ((m * 100) as int) / (slots_per_epoch as int) < 100) by (nonlinear_arith)
        requires
            0 <= m,
            m * 100 < slots_per_epoch * 100,
            slots_per_epoch > 0,
    ;
}

/// Successive slots of one epoch count the remaining slots down by one.
pub proof fn lemma_remaining_counts_down(slots_per_epoch: nat, slot: nat)
    requires
        slots_per_epoch > 0,
        spec_slots_remaining(slots_per_epoch, slot) > 1,
    ensures
        spec_slots_remaining(slots_per_epoch, slot + 1) == spec_slots_remaining(
            slots_per_epoch,
            slot,
        ) - 1,
{
    vstd::arithmetic::div_mod::lemma_mod_add_multiples_vanish(0, slots_per_epoch as int);
    let m = slot % slots_per_epoch;
    assert(m + 1 < slots_per_epoch);
    vstd::arithmetic::div_mod::lemma_fundamental_div_mod(slot as int, slots_per_epoch as int);
    let q = slot / slots_per_epoch;
    assert(slot + 1 == q * slots_per_epoch + (m + 1));
    vstd::arithmetic::div_mod::lemma_mod_multiples_vanish(q as int, (m + 1) as int, slots_per_epoch as int);
    vstd::arithmetic::div_mod::lemma_small_mod((m + 1) as nat, slots_per_epoch);
}

} // verus!
