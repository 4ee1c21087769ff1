use std::collections::BTreeMap;

use neutron_sdk::marketmap::{CurrencyPair, Market, MarketMap, Params, ProviderConfig, Ticker};
use neutron_sdk::types::{Coin, MinInterchainQueryDepositResponse};

#[test]
fn market_registry_types_hold_their_fields() {
    let pair = CurrencyPair { base: String::from("BTC"), quote: String::from("USD") };
    let market = Market {
        ticker: Ticker {
            currency_pair: pair.clone(),
            decimals: 8,
            min_provider_count: 3,
            enabled: true,
            metadata_json: String::new(),
        },
        provider_configs: vec![ProviderConfig {
            name: String::from("provider"),
            off_chain_ticker: String::from("BTC/USDT"),
            normalize_by_pair: CurrencyPair {
                base: String::from("USDT"),
                quote: String::from("USD"),
            },
            invert: false,
            metadata_json: String::new(),
        }],
    };
    let mut markets = BTreeMap::new();
    markets.insert(String::from("BTC/USD"), market.clone());
    let map = MarketMap { markets };
    assert_eq!(map.markets.get("BTC/USD"), Some(&market));
    assert_eq!(market.ticker.currency_pair, pair);
    assert_eq!(market.provider_configs[0].off_chain_ticker, "BTC/USDT");

    let params = Params { version: 2, market_authorities: vec![String::from("neutron1gov")] };
    assert_eq!(params.version, 2);
    assert_eq!(params.market_authorities.len(), 1);
}

#[test]
fn min_deposit_response_holds_its_coins() {
    let r = MinInterchainQueryDepositResponse {
        query_deposit: vec![Coin { denom: String::from("untrn"), amount: 1_000_000 }],
    };
    assert_eq!(r.query_deposit[0].denom, "untrn");
    assert_eq!(r.query_deposit[0].amount, 1_000_000);
}
