//! The decisions of the keeper's main loop: what to do with a read, and how long to sleep.

use crate::fees::FeeEstimate;
use crate::pipeline::{
    build_update_pool_aum_tx, AccountMeta, ProgramAccounts, Pubkey, UpdateAumTransaction,
    UpdatePoolAumAccounts, SIGN_TIMEOUT_MS, UPDATE_AUM_CU_LIMIT,
};
use crate::prices::{
    format_chaos_labs_oracle_entry_to_params, spec_format, AssetsPrices, FormatError,
};
use vstd::prelude::*;

verus! {

/// Target length of a cycle that reached the formatter, in milliseconds.
pub const CYCLE_PERIOD_MS: u64 = 3000;

/// Pause after a cycle that found no snapshot or could not read one, in milliseconds.
pub const RETRY_DELAY_MS: u64 = 500;

/// The outcome of reading the latest snapshot.
pub enum SnapshotRead {
    Found(AssetsPrices),
    /// The store holds no snapshot yet: a normal condition.
    Absent,
    /// The store could not be reached or queried.
    Failed,
}

/// What one cycle does after its read.
pub enum CycleStep {
    /// Sign and send this AUM update.
    Submit(UpdateAumTransaction),
    /// The snapshot could not be formatted; nothing is submitted.
    FormatFailed(FormatError),
    /// No snapshot yet; nothing is formatted or submitted.
    NoSnapshot,
    /// The read failed; nothing is formatted or submitted.
    ReadFailed,
}

impl CycleStep {
    /// A cycle that did not reach the formatter, and waits the short delay.
    pub open spec fn is_idle(&self) -> bool {
        self is NoSnapshot || self is ReadFailed
    }
}

/// Decides a cycle from its read: a snapshot is formatted, and only a formatted
/// message is submitted, at the current fee estimate and with the pool's
/// remaining accounts.
pub fn plan_cycle(
    read: SnapshotRead,
    fee: &FeeEstimate,
    payer: &Pubkey,
    program: &ProgramAccounts,
    remaining_accounts: &Vec<AccountMeta>,
) -> (r: CycleStep)
    ensures
        match read {
            SnapshotRead::Found(e) => match spec_format(e) {
                Ok(b) => r matches CycleStep::Submit(tx) && tx.params.oracle_prices matches Some(
                    m,
                ) && m@ == b && tx.compute_unit_price == fee.micro_lamports_per_cu
                    && tx.compute_unit_limit == UPDATE_AUM_CU_LIMIT && tx.accounts == (
                UpdatePoolAumAccounts {
                    payer: *payer,
                    cortex: program.cortex,
                    pool: program.pool,
                    oracle: program.oracle,
                    lp_token_mint: program.lp_token_mint,
                }) && tx.remaining_accounts@ == remaining_accounts@ && tx.sign_timeout_ms
                    == SIGN_TIMEOUT_MS && tx.skip_preflight && tx.max_retries == 0,
                Err(err) => r == CycleStep::FormatFailed(err),
            },
            SnapshotRead::Absent => r is NoSnapshot,
            SnapshotRead::Failed => r is ReadFailed,
        },
{
    match read {
        SnapshotRead::Found(e) => match format_chaos_labs_oracle_entry_to_params(&e) {
            Ok(m) => CycleStep::Submit(
                build_update_pool_aum_tx(
                    payer,
                    program,
                    fee.current(),
                    m,
                    remaining_accounts.clone(),
                ),
            ),
            Err(err) => CycleStep::FormatFailed(err),
        },
        SnapshotRead::Absent => CycleStep::NoSnapshot,
        SnapshotRead::Failed => CycleStep::ReadFailed,
    }
}

/// How long to sleep after a cycle of step `step` that took `elapsed_ms`: the
/// short delay after an idle cycle, else what is left of the cycle period, and
/// nothing once the period is used up.
pub open spec fn spec_sleep_ms(step: CycleStep, elapsed_ms: u64) -> u64 {
    if step.is_idle() {
        RETRY_DELAY_MS
    } else if elapsed_ms >= CYCLE_PERIOD_MS {
        0
    } else {
        (CYCLE_PERIOD_MS - elapsed_ms) as u64
    }
}

/// The sleep that ends a cycle, in milliseconds.
pub fn sleep_after_ms(step: &CycleStep, elapsed_ms: u64) -> (r: u64)
    ensures
        r == spec_sleep_ms(*step, elapsed_ms),
        r <= CYCLE_PERIOD_MS,
{
    match step {
        CycleStep::NoSnapshot | CycleStep::ReadFailed => RETRY_DELAY_MS,
        _ => {
            if elapsed_ms >= CYCLE_PERIOD_MS {
                0
            } else {
                CYCLE_PERIOD_MS - elapsed_ms
            }
        },
    }
}

/// A cycle that found no snapshot, or could not read one, submits nothing and
/// waits the short delay, however long it took.
pub proof fn lemma_idle_cycle_waits_retry_delay(step: CycleStep, elapsed_ms: u64)
    requires
        step.is_idle(),
    ensures
        !(step is Submit),
        !(step is FormatFailed),
        spec_sleep_ms(step, elapsed_ms) == RETRY_DELAY_MS,
{
}

/// A cycle that overran its period sleeps not at all, and a shorter one sleeps
/// until the period is over.
pub proof fn lemma_overrun_cycle_sleeps_zero(step: CycleStep, elapsed_ms: u64)
    requires
        !step.is_idle(),
    ensures
        elapsed_ms >= CYCLE_PERIOD_MS ==> spec_sleep_ms(step, elapsed_ms) == 0,
        elapsed_ms < CYCLE_PERIOD_MS ==> elapsed_ms + spec_sleep_ms(step, elapsed_ms)
            == CYCLE_PERIOD_MS,
{
}

} // verus!
