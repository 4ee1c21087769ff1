use vstd::prelude::*;
use std::collections::BTreeMap;

verus! {

// ---------------------------------------------------------------------------
// Data carriers of the market-registry module. These are pure value types
// with no transformation logic of their own.
// ---------------------------------------------------------------------------

/// The market-registry module's parameters.
#[derive(Clone, Debug, PartialEq, Eq)]
pub struct Params {
    pub version: u64,
    pub market_authorities: Vec<String>,
}

/// A pair of currencies quoted against each other.
#[derive(Clone, Debug, PartialEq, Eq)]
pub struct CurrencyPair {
    pub base: String,
    pub quote: String,
}

/// One price-feed provider's configuration for a market.
#[derive(Clone, Debug, PartialEq, Eq)]
pub struct ProviderConfig {
    /// Name of the provider the configuration is set for.
    pub name: String,
    /// The provider's own representation of the ticker, unique per
    /// provider, used to fetch the price from the provider.
    pub off_chain_ticker: String,
    /// The currency pair this ticker is normalized by, when the market is
    /// reached through an intermediate quote.
    pub normalize_by_pair: CurrencyPair,
    /// Whether the base and quote of the market should be inverted.
    pub invert: bool,
    /// Extra provider configuration, encoded as a string of JSON.
    pub metadata_json: String,
}

/// A ticker and its bounds for price fetching.
#[derive(Clone, Debug, PartialEq, Eq)]
pub struct Ticker {
    pub currency_pair: CurrencyPair,
    /// Number of decimal places used to render the price.
    pub decimals: u64,
    /// Minimum number of providers required to consider the ticker valid.
    pub min_provider_count: u64,
    /// Whether the ticker is enabled for price fetching by an oracle.
    pub enabled: bool,
    /// Extra ticker configuration, encoded as a string of JSON.
    pub metadata_json: String,
}

/// One market: its ticker and the provider configurations stored for it.
#[derive(Clone, Debug, PartialEq, Eq)]
pub struct Market {
    pub ticker: Ticker,
    pub provider_configs: Vec<ProviderConfig>,
}

/// The full registry of markets, keyed by ticker name.
#[derive(Clone, Debug, PartialEq, Eq)]
pub struct MarketMap {
    pub markets: BTreeMap<String, Market>,
}

} // verus!
