//! Assembly of the AUM update transaction: fee directives, the update
//! instruction, its accounts and the submission policy.

use crate::prices::ChaosLabsBatchPrices;
use vstd::prelude::*;

verus! {

/// Compute-unit ceiling declared by every AUM update.
pub const UPDATE_AUM_CU_LIMIT: u32 = 120_000;

/// Deadline for building and signing the transaction, in milliseconds.
pub const SIGN_TIMEOUT_MS: u64 = 2000;

/// A 32-byte account address.
pub type Pubkey = [u8; 32];

/// The all-zero address, which marks an unused custody slot.
pub open spec fn is_default_key(k: Pubkey) -> bool {
    forall|i: int| 0 <= i < 32 ==> #[trigger] k@[i] == 0u8
}

/// Whether `k` is the all-zero address.
pub fn is_default_pubkey(k: &Pubkey) -> (r: bool)
    ensures
        r == is_default_key(*k),
{
    let mut i: usize = 0;
    while i < 32
        invariant
            i <= 32,
            forall|j: int| 0 <= j < i ==> #[trigger] k@[j] == 0u8,
        decreases 32 - i,
    {
        if k[i] != 0 {
            return false;
        }
        i = i + 1;
    }
    true
}

/// An account reference of an instruction.
#[derive(Clone, Copy, Debug, PartialEq, Eq)]
pub struct AccountMeta {
    pub pubkey: Pubkey,
    pub is_signer: bool,
    pub is_writable: bool,
}

pub open spec fn readonly_meta(k: Pubkey) -> AccountMeta {
    AccountMeta { pubkey: k, is_signer: false, is_writable: false }
}

/// Read-only, non-signer references to the keys that are not the all-zero
/// address, in their order.
pub open spec fn custody_metas(keys: Seq<Pubkey>) -> Seq<AccountMeta>
    decreases keys.len(),
{
    if keys.len() == 0 {
        Seq::empty()
    } else {
        let prev = custody_metas(keys.drop_last());
        if is_default_key(keys.last()) {
            prev
        } else {
            prev.push(readonly_meta(keys.last()))
        }
    }
}

/// The remaining accounts of the update: the pool's custodies, unused slots left out.
pub fn custody_accounts(custodies: &Vec<Pubkey>) -> (r: Vec<AccountMeta>)
    ensures
        r@ == custody_metas(custodies@),
{
    let mut r: Vec<AccountMeta> = Vec::new();
    let mut i: usize = 0;
    while i < custodies.len()
        invariant
            i <= custodies@.len(),
            r@ == custody_metas(custodies@.subrange(0, i as int)),
        decreases custodies@.len() - i,
    {
        let k = custodies[i];
        assert(custodies@.subrange(0, i as int + 1).drop_last() =~= custodies@.subrange(0, i as int));
        if !is_default_pubkey(&k) {
            r.push(AccountMeta { pubkey: k, is_signer: false, is_writable: false });
        }
        i = i + 1;
    }
    assert(custodies@.subrange(0, custodies@.len() as int) =~= custodies@);
    r
}

/// The program's fixed accounts that the update instruction names.
#[derive(Clone, Copy, Debug, PartialEq, Eq)]
pub struct ProgramAccounts {
    pub cortex: Pubkey,
    pub pool: Pubkey,
    pub oracle: Pubkey,
    pub lp_token_mint: Pubkey,
}

/// The static accounts of the update instruction.
#[derive(Clone, Copy, Debug, PartialEq, Eq)]
pub struct UpdatePoolAumAccounts {
    pub payer: Pubkey,
    pub cortex: Pubkey,
    pub pool: Pubkey,
    pub oracle: Pubkey,
    pub lp_token_mint: Pubkey,
}

/// The parameters of the update instruction.
#[derive(Clone, Debug)]
pub struct UpdatePoolAumParams {
    pub oracle_prices: Option<ChaosLabsBatchPrices>,
}

/// Builds the update instruction's parameters and static accounts.
pub fn create_update_pool_aum_ix(
    payer: &Pubkey,
    program: &ProgramAccounts,
    last_trading_prices: Option<ChaosLabsBatchPrices>,
) -> (r: (UpdatePoolAumParams, UpdatePoolAumAccounts))
    ensures
        r.0.oracle_prices == last_trading_prices,
        r.1 == (UpdatePoolAumAccounts {
            payer: *payer,
            cortex: program.cortex,
            pool: program.pool,
            oracle: program.oracle,
            lp_token_mint: program.lp_token_mint,
        }),
{
    let params = UpdatePoolAumParams { oracle_prices: last_trading_prices };
    let accounts = UpdatePoolAumAccounts {
        payer: *payer,
        cortex: program.cortex,
        pool: program.pool,
        oracle: program.oracle,
        lp_token_mint: program.lp_token_mint,
    };
    (params, accounts)
}

/// An AUM update transaction before signing. Its instructions are, in order:
/// the compute-unit price, the compute-unit limit, and the update itself with
/// its static accounts followed by the remaining accounts. It is signed within
/// `sign_timeout_ms` and sent once, without preflight and with no retries.
#[derive(Clone, Debug)]
pub struct UpdateAumTransaction {
    pub compute_unit_price: u64,
    pub compute_unit_limit: u32,
    pub params: UpdatePoolAumParams,
    pub accounts: UpdatePoolAumAccounts,
    pub remaining_accounts: Vec<AccountMeta>,
    pub sign_timeout_ms: u64,
    pub skip_preflight: bool,
    pub max_retries: usize,
}

/// Assembles the AUM update for a formatted message at the given fee estimate.
pub fn build_update_pool_aum_tx(
    payer: &Pubkey,
    program: &ProgramAccounts,
    median_priority_fee: u64,
    last_trading_prices: ChaosLabsBatchPrices,
    remaining_accounts: Vec<AccountMeta>,
) -> (r: UpdateAumTransaction)
    ensures
        r.compute_unit_price == median_priority_fee,
        r.compute_unit_limit == UPDATE_AUM_CU_LIMIT,
        r.params.oracle_prices == Some(last_trading_prices),
        r.accounts == (UpdatePoolAumAccounts {
            payer: *payer,
            cortex: program.cortex,
            pool: program.pool,
            oracle: program.oracle,
            lp_token_mint: program.lp_token_mint,
        }),
        r.remaining_accounts@ == remaining_accounts@,
        r.sign_timeout_ms == SIGN_TIMEOUT_MS,
        r.skip_preflight,
        r.max_retries == 0,
{
    let (params, accounts) = create_update_pool_aum_ix(payer, program, Some(last_trading_prices));
    UpdateAumTransaction {
        compute_unit_price: median_priority_fee,
        compute_unit_limit: UPDATE_AUM_CU_LIMIT,
        params,
        accounts,
        remaining_accounts,
        sign_timeout_ms: SIGN_TIMEOUT_MS,
        skip_preflight: true,
        max_retries: 0,
    }
}

/// Why an AUM update was not sent. The keeper logs it and goes on with the next cycle.
#[derive(Clone, Copy, Debug, PartialEq, Eq)]
pub enum SubmitError {
    /// The message does not fit the program's binding (a signature of another length).
    InvalidMessage,
    /// Building and signing did not finish within the deadline.
    BuildTimeout,
    /// Building or signing failed.
    BuildFailed,
    /// The network refused the signed transaction.
    SendFailed,
}

} // verus!
