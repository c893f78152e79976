use price_monitor::tokens::{SortKey, TokenInfo, TokenTable};

fn token(order: u8, symbol: &str) -> TokenInfo {
    TokenInfo {
        order,
        symbol: symbol.to_string(),
        full_name: format!("{symbol} token"),
        mint_addr: format!("{symbol}-mint"),
        market_addr: format!("{symbol}-market"),
        sell_addr: format!("{symbol}-sell"),
        buy_addr: format!("{symbol}-buy"),
    }
}

fn table() -> TokenTable {
    let mut t = TokenTable::new();
    t.insert("sol".to_string(), token(2, "SOL"));
    t.insert("btc".to_string(), token(1, "BTC"));
    t.insert("usdc".to_string(), token(3, "USDC"));
    t.insert("bonk".to_string(), token(2, "BONK"));
    t
}

#[test]
fn table_lookup() {
    let t = table();
    assert_eq!(t.len(), 4);
    assert_eq!(t.get("btc").map(|i| i.symbol.as_str()), Some("BTC"));
    assert_eq!(t.get("usdc").map(|i| i.order), Some(3));
    assert!(t.get("eth").is_none());
    assert!(t.get("BTC").is_none());
}

#[test]
fn insert_replaces_existing_id() {
    let mut t = table();
    t.insert("btc".to_string(), token(9, "WBTC"));
    assert_eq!(t.len(), 4);
    assert_eq!(t.get("btc").map(|i| i.symbol.as_str()), Some("WBTC"));
}

#[test]
fn variants_sorted_by_order_stably() {
    let t = table();
    let v = TokenInfo::variants(&t);
    let symbols: Vec<&str> = v.iter().map(|i| i.symbol.as_str()).collect();
    assert_eq!(symbols, vec!["BTC", "SOL", "BONK", "USDC"]);
    assert_eq!(t.sorted_indices(SortKey::Order), vec![1, 0, 3, 2]);
}

#[test]
fn ids_sorted_by_symbol() {
    let t = table();
    assert_eq!(t.ids_by_symbol(), vec!["bonk", "btc", "sol", "usdc"]);
    assert_eq!(t.sorted_indices(SortKey::Symbol), vec![3, 1, 0, 2]);
}

#[test]
fn empty_table_sorts_to_nothing() {
    let t = TokenTable::new();
    assert!(TokenInfo::variants(&t).is_empty());
    assert!(t.ids_by_symbol().is_empty());
}

#[test]
fn clone_keeps_every_field() {
    let a = token(4, "JUP");
    let b = a.clone();
    assert_eq!(b.order, 4);
    assert_eq!(b.symbol, "JUP");
    assert_eq!(b.full_name, "JUP token");
    assert_eq!(b.mint_addr, "JUP-mint");
    assert_eq!(b.market_addr, "JUP-market");
    assert_eq!(b.sell_addr, "JUP-sell");
    assert_eq!(b.buy_addr, "JUP-buy");
}
