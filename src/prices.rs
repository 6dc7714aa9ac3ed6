//! The price snapshot, the price-batch message and the conversion between them.

use crate::decimal::DecimalValue;
use crate::signature::{
    decode_signature, hex_decode, is_hex, spec_decode_signature, SignatureError, SIGNATURE_LEN,
};
use vstd::prelude::*;

verus! {

/// Number of price feeds in a snapshot and in a message.
pub const FEED_COUNT: usize = 6;

/// The six price feeds. Their on-chain ids are fixed by the receiving program.
#[derive(Clone, Copy, Debug, PartialEq, Eq)]
pub enum Feed {
    /// SOL/USD, id 0.
    Sol,
    /// JitoSOL/USD, id 1.
    JitoSol,
    /// BTC/USD, id 2.
    Btc,
    /// WBTC/USD, id 3.
    Wbtc,
    /// BONK/USD, id 4.
    Bonk,
    /// USDC/USD, id 5.
    Usdc,
}

impl Feed {
    pub open spec fn spec_id(self) -> u8 {
        match self {
            Feed::Sol => 0,
            Feed::JitoSol => 1,
            Feed::Btc => 2,
            Feed::Wbtc => 3,
            Feed::Bonk => 4,
            Feed::Usdc => 5,
        }
    }

    /// The feed's on-chain id.
    #[verifier::when_used_as_spec(spec_id)]
    pub fn id(self) -> (r: u8)
        ensures
            r == self.spec_id(),
    {
        match self {
            Feed::Sol => 0,
            Feed::JitoSol => 1,
            Feed::Btc => 2,
            Feed::Wbtc => 3,
            Feed::Bonk => 4,
            Feed::Usdc => 5,
        }
    }

    /// Where the feed stands in a message.
    pub open spec fn position(self) -> int {
        match self {
            Feed::JitoSol => 0,
            Feed::Sol => 1,
            Feed::Wbtc => 2,
            Feed::Btc => 3,
            Feed::Bonk => 4,
            Feed::Usdc => 5,
        }
    }
}

/// The feed at position `i` of a message: JitoSOL, SOL, WBTC, BTC, BONK, USDC.
pub open spec fn feed_at(i: int) -> Feed {
    if i == 0 {
        Feed::JitoSol
    } else if i == 1 {
        Feed::Sol
    } else if i == 2 {
        Feed::Wbtc
    } else if i == 3 {
        Feed::Btc
    } else if i == 4 {
        Feed::Bonk
    } else {
        Feed::Usdc
    }
}

/// The feed at position `i` of a message.
pub fn emission_feed(i: usize) -> (r: Feed)
    requires
        i < FEED_COUNT,
    ensures
        r == feed_at(i as int),
{
    if i == 0 {
        Feed::JitoSol
    } else if i == 1 {
        Feed::Sol
    } else if i == 2 {
        Feed::Wbtc
    } else if i == 3 {
        Feed::Btc
    } else if i == 4 {
        Feed::Bonk
    } else {
        Feed::Usdc
    }
}

/// The latest attested prices: one decimal price and one observation time (Unix
/// seconds) per feed, a hex-encoded signature over them and its recovery id.
#[derive(Clone, Debug)]
pub struct AssetsPrices {
    pub solusd_price: DecimalValue,
    pub jitosolusd_price: DecimalValue,
    pub btcusd_price: DecimalValue,
    pub wbtcusd_price: DecimalValue,
    pub bonkusd_price: DecimalValue,
    pub usdcusd_price: DecimalValue,
    pub solusd_price_ts: i64,
    pub jitosolusd_price_ts: i64,
    pub btcusd_price_ts: i64,
    pub wbtcusd_price_ts: i64,
    pub bonkusd_price_ts: i64,
    pub usdcusd_price_ts: i64,
    pub signature: String,
    pub recovery_id: i32,
    pub latest_timestamp: i64,
}

impl AssetsPrices {
    pub open spec fn spec_price_of(&self, f: Feed) -> DecimalValue {
        match f {
            Feed::Sol => self.solusd_price,
            Feed::JitoSol => self.jitosolusd_price,
            Feed::Btc => self.btcusd_price,
            Feed::Wbtc => self.wbtcusd_price,
            Feed::Bonk => self.bonkusd_price,
            Feed::Usdc => self.usdcusd_price,
        }
    }

    pub open spec fn spec_timestamp_of(&self, f: Feed) -> i64 {
        match f {
            Feed::Sol => self.solusd_price_ts,
            Feed::JitoSol => self.jitosolusd_price_ts,
            Feed::Btc => self.btcusd_price_ts,
            Feed::Wbtc => self.wbtcusd_price_ts,
            Feed::Bonk => self.bonkusd_price_ts,
            Feed::Usdc => self.usdcusd_price_ts,
        }
    }

    /// The decimal price of feed `f`.
    #[verifier::when_used_as_spec(spec_price_of)]
    pub fn price_of(&self, f: Feed) -> (r: DecimalValue)
        ensures
            r == self.spec_price_of(f),
    {
        match f {
            Feed::Sol => self.solusd_price,
            Feed::JitoSol => self.jitosolusd_price,
            Feed::Btc => self.btcusd_price,
            Feed::Wbtc => self.wbtcusd_price,
            Feed::Bonk => self.bonkusd_price,
            Feed::Usdc => self.usdcusd_price,
        }
    }

    /// The observation time of feed `f` itself, not the snapshot's latest time.
    #[verifier::when_used_as_spec(spec_timestamp_of)]
    pub fn timestamp_of(&self, f: Feed) -> (r: i64)
        ensures
            r == self.spec_timestamp_of(f),
    {
        match f {
            Feed::Sol => self.solusd_price_ts,
            Feed::JitoSol => self.jitosolusd_price_ts,
            Feed::Btc => self.btcusd_price_ts,
            Feed::Wbtc => self.wbtcusd_price_ts,
            Feed::Bonk => self.bonkusd_price_ts,
            Feed::Usdc => self.usdcusd_price_ts,
        }
    }
}

/// One price of a message: feed id, integer price and observation time.
#[derive(Clone, Copy, Debug, PartialEq, Eq)]
pub struct PriceData {
    pub feed_id: u8,
    pub price: u64,
    pub timestamp: i64,
}

/// The price-batch message: six prices in emission order, a 64-byte signature
/// and a recovery id.
#[derive(Clone, Debug)]
pub struct ChaosLabsBatchPrices {
    pub prices: Vec<PriceData>,
    pub signature: Vec<u8>,
    pub recovery_id: u8,
}

/// The mathematical content of a price-batch message.
pub struct BatchView {
    pub prices: Seq<PriceData>,
    pub signature: Seq<u8>,
    pub recovery_id: u8,
}

impl View for ChaosLabsBatchPrices {
    type V = BatchView;

    open spec fn view(&self) -> BatchView {
        BatchView { prices: self.prices@, signature: self.signature@, recovery_id: self.recovery_id }
    }
}

/// Why a snapshot could not be turned into a message.
#[derive(Clone, Copy, Debug, PartialEq, Eq)]
pub enum FormatError {
    SignatureDecode(SignatureError),
    /// The price of this feed is negative or does not fit in `u64`.
    PriceConversion(Feed),
}

/// The message entry for feed `f` of `e`.
pub open spec fn entry_of(e: AssetsPrices, f: Feed) -> PriceData {
    PriceData {
        feed_id: f.spec_id(),
        price: e.spec_price_of(f).price_u64()->0,
        timestamp: e.spec_timestamp_of(f),
    }
}

/// The first feed, from position `i` on in emission order, whose price does not convert.
pub open spec fn first_unconvertible(e: AssetsPrices, i: int) -> Option<Feed>
    decreases 6 - i,
{
    if i >= 6 || i < 0 {
        None
    } else if e.spec_price_of(feed_at(i)).price_u64() is None {
        Some(feed_at(i))
    } else {
        first_unconvertible(e, i + 1)
    }
}

/// What formatting `e` gives: the signature is checked first, then the prices in
/// emission order; the first failure is reported.
pub open spec fn spec_format(e: AssetsPrices) -> Result<BatchView, FormatError> {
    match spec_decode_signature(e.signature@) {
        Err(se) => Err(FormatError::SignatureDecode(se)),
        Ok(sig) => match first_unconvertible(e, 0) {
            Some(f) => Err(FormatError::PriceConversion(f)),
            None => Ok(
                BatchView {
                    prices: Seq::new(6, |i: int| entry_of(e, feed_at(i))),
                    signature: sig,
                    recovery_id: e.recovery_id as u8,
                },
            ),
        },
    }
}

/// Turns a snapshot into the price-batch message of the AUM update.
pub fn format_chaos_labs_oracle_entry_to_params(e: &AssetsPrices) -> (r: Result<
    ChaosLabsBatchPrices,
    FormatError,
>)
    ensures
        match r {
            Ok(b) => spec_format(*e) == Ok::<BatchView, FormatError>(b@),
            Err(err) => spec_format(*e) == Err::<BatchView, FormatError>(err),
        },
{
    let signature = match decode_signature(e.signature.as_str()) {
        Ok(s) => s,
        Err(se) => {
            return Err(FormatError::SignatureDecode(se));
        },
    };
    let mut prices: Vec<PriceData> = Vec::new();
    let mut i: usize = 0;
    while i < FEED_COUNT
        invariant
            i <= FEED_COUNT,
            prices@.len() == i,
            forall|j: int| 0 <= j < i ==> prices@[j] == entry_of(*e, feed_at(j)),
            first_unconvertible(*e, 0) == first_unconvertible(*e, i as int),
            spec_decode_signature(e.signature@) == Ok::<Seq<u8>, SignatureError>(signature@),
        decreases FEED_COUNT - i,
    {
        let feed = emission_feed(i);
        match e.price_of(feed).to_u64() {
            None => {
                assert(first_unconvertible(*e, i as int) == Some(feed));
                return Err(FormatError::PriceConversion(feed));
            },
            Some(p) => {
                prices.push(PriceData { feed_id: feed.id(), price: p, timestamp: e.timestamp_of(feed) });
            },
        }
        i = i + 1;
    }
    let b = ChaosLabsBatchPrices { prices, signature, recovery_id: #[verifier::truncate] (e.recovery_id as u8) };
    assert(b@.prices =~= Seq::new(6, |i: int| entry_of(*e, feed_at(i))));
    Ok(b)
}

/// Every message that formatting produces holds six entries whose feed ids are
/// 1, 0, 3, 2, 4, 5, in that order, each with the feed's own observation time.
pub proof fn lemma_format_emission_order(e: AssetsPrices)
    requires
        spec_format(e) is Ok,
    ensures
        spec_format(e)->Ok_0.prices.len() == 6,
        spec_format(e)->Ok_0.prices.map_values(|p: PriceData| p.feed_id) == seq![
            1u8,
            0u8,
            3u8,
            2u8,
            4u8,
            5u8,
        ],
        forall|i: int|
            0 <= i < 6 ==> (#[trigger] spec_format(e)->Ok_0.prices[i]).timestamp
                == e.spec_timestamp_of(feed_at(i)),
{
    let b = spec_format(e)->Ok_0;
    assert(b.prices.map_values(|p: PriceData| p.feed_id) =~= seq![1u8, 0u8, 3u8, 2u8, 4u8, 5u8]);
}

/// A signature that is not an even number of hex digits, or that decodes to a
/// length other than 64 bytes, makes formatting fail with a signature error.
pub proof fn lemma_bad_signature_rejected(e: AssetsPrices)
    requires
        !is_hex(e.signature@) || hex_decode(e.signature@).len() != SIGNATURE_LEN,
    ensures
        spec_format(e) matches Err(FormatError::SignatureDecode(_)),
{
}

/// With a valid signature, a negative price makes formatting fail with a
/// conversion error; the feed it names does not convert and stands no later
/// than the negative one.
pub proof fn lemma_negative_price_rejected(e: AssetsPrices, f: Feed)
    requires
        spec_decode_signature(e.signature@) is Ok,
        e.spec_price_of(f).mantissa < 0,
    ensures
        spec_format(e) matches Err(FormatError::PriceConversion(g)) && e.spec_price_of(
            g,
        ).price_u64() is None && g.position() <= f.position(),
{
    lemma_first_unconvertible_finds(e, 0, f);
}

proof fn lemma_first_unconvertible_finds(e: AssetsPrices, i: int, f: Feed)
    requires
        0 <= i <= f.position(),
        e.spec_price_of(f).price_u64() is None,
    ensures
        first_unconvertible(e, i) matches Some(g) && e.spec_price_of(g).price_u64() is None && i
            <= g.position() <= f.position(),
    decreases f.position() - i,
{
    assert(feed_at(f.position()) == f);
    if e.spec_price_of(feed_at(i)).price_u64() is None {
        assert(feed_at(i).position() == i);
    } else {
        lemma_first_unconvertible_finds(e, i + 1, f);
    }
}

/// A snapshot whose signature is 128 hex digits and whose six prices all
/// convert is formatted into a message of six entries that carries the 64
/// decoded signature bytes exactly.
pub proof fn lemma_valid_snapshot_formats(e: AssetsPrices)
    requires
        e.signature@.len() == 2 * SIGNATURE_LEN,
        is_hex(e.signature@),
        forall|f: Feed| (#[trigger] e.spec_price_of(f)).price_u64() is Some,
    ensures
        spec_format(e) is Ok,
        spec_format(e)->Ok_0.prices.len() == FEED_COUNT,
        spec_format(e)->Ok_0.signature.len() == SIGNATURE_LEN,
        spec_format(e)->Ok_0.signature == hex_decode(e.signature@),
        forall|i: int|
            0 <= i < FEED_COUNT ==> (#[trigger] spec_format(e)->Ok_0.prices[i]).price == e.spec_price_of(
                feed_at(i),
            ).price_u64()->0,
{
    lemma_all_convert(e, 0);
}

proof fn lemma_all_convert(e: AssetsPrices, i: int)
    requires
        0 <= i,
        forall|f: Feed| (#[trigger] e.spec_price_of(f)).price_u64() is Some,
    ensures
        first_unconvertible(e, i) is None,
    decreases 6 - i,
{
    if i < 6 {
        assert(e.spec_price_of(feed_at(i)).price_u64() is Some);
        lemma_all_convert(e, i + 1);
    }
}

} // verus!
