use trading_core::exchange::{ExchangeInfo, ExchangeService};
use trading_core::news::{NewsItem, NewsService, NEWS_CACHE_TTL_MS};

fn info(name: &str, testnet: bool) -> ExchangeInfo {
    ExchangeInfo {
        name: name.to_string(),
        status: "connected".to_string(),
        api_key: None,
        secret_key: None,
        testnet,
    }
}

fn article(id: &str) -> NewsItem {
    NewsItem {
        id: id.to_string(),
        title: format!("headline {}", id),
        description: "body".to_string(),
        url: format!("https://example.com/news/{}", id),
        image_url: None,
        source: "CoinDesk".to_string(),
        published_at: "2024-01-01T00:00:00Z".to_string(),
        categories: vec!["crypto".to_string()],
    }
}

#[test]
fn exchange_registry_keeps_one_connection_per_name() {
    let mut s = ExchangeService::new();
    s.connect_exchange("binance".to_string(), info("binance", false)).unwrap();
    s.connect_exchange("kraken".to_string(), info("kraken", false)).unwrap();
    s.connect_exchange("binance".to_string(), info("binance", true)).unwrap();
    let connected = s.get_connected_exchanges();
    assert_eq!(connected.len(), 2);
    assert!(connected[0].testnet);
    assert_eq!(connected[1].name, "kraken");
}

#[test]
fn exchange_disconnect_is_idempotent() {
    let mut s = ExchangeService::new_with_testnet(true);
    s.connect_exchange("binance".to_string(), info("binance", false)).unwrap();
    s.disconnect_exchange("binance").unwrap();
    s.disconnect_exchange("binance").unwrap();
    assert!(s.get_connected_exchanges().is_empty());
}

#[test]
fn supported_exchanges_are_listed() {
    let s = ExchangeService::new();
    let names = s.get_supported_exchanges();
    assert_eq!(names, vec!["binance", "bybit", "bitmart", "coinbase", "kraken"]);
}

#[test]
fn news_cache_answers_only_while_fresh() {
    let mut n = NewsService::new();
    assert!(n.cached_crypto_news(1_000, 10).is_none());

    n.store_crypto_news(vec![article("a"), article("b"), article("c")], 1_000);
    let fresh = n.cached_crypto_news(1_000 + NEWS_CACHE_TTL_MS, 10).unwrap();
    assert_eq!(fresh.len(), 3);
    assert_eq!(fresh[0].id, "a");

    // One millisecond past the TTL the batch is stale.
    assert!(n.cached_crypto_news(1_001 + NEWS_CACHE_TTL_MS, 10).is_none());
}

#[test]
fn news_cache_respects_the_limit() {
    let mut n = NewsService::new();
    n.store_crypto_news(vec![article("a"), article("b"), article("c")], 1_000);
    let two = n.cached_crypto_news(1_500, 2).unwrap();
    assert_eq!(two.len(), 2);
    assert_eq!(two[1].id, "b");
}
