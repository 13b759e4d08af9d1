use market_stream::topics::{
    agg_trade_stream, all_book_ticker_stream, all_mini_ticker_stream, all_ticker_stream,
    book_ticker_stream, combined_stream, decimal_text, diff_book_depth_stream, kline_stream,
    mini_ticker_stream, partial_book_depth_stream, ticker_stream, trade_stream, STREAM_ENDPOINT,
    WS_ENDPOINT,
};

#[test]
fn market_wide_topics_are_fixed() {
    assert_eq!(all_ticker_stream(), "!ticker@arr");
    assert_eq!(all_book_ticker_stream(), "!bookTicker");
    assert_eq!(all_mini_ticker_stream(), "!miniTicker@arr");
}

#[test]
fn ticker_stream_appends_its_suffix() {
    assert_eq!(ticker_stream("btcusdt"), "btcusdt@ticker");
    assert_eq!(ticker_stream(""), "@ticker");
    assert_eq!(ticker_stream("ETH/usdt é"), "ETH/usdt é@ticker");
}

#[test]
fn per_symbol_topics_append_their_suffix() {
    assert_eq!(agg_trade_stream("btcusdt"), "btcusdt@aggTrade");
    assert_eq!(trade_stream("btcusdt"), "btcusdt@trade");
    assert_eq!(book_ticker_stream("btcusdt"), "btcusdt@bookTicker");
    assert_eq!(mini_ticker_stream("btcusdt"), "btcusdt@miniTicker");
}

#[test]
fn kline_stream_names_symbol_and_interval() {
    assert_eq!(kline_stream("btcusdt", "1m"), "btcusdt@kline_1m");
    assert_eq!(kline_stream("ethbtc", "4h"), "ethbtc@kline_4h");
    assert_eq!(kline_stream("x", ""), "x@kline_");
}

#[test]
fn partial_depth_for_every_level_and_speed() {
    assert_eq!(partial_book_depth_stream("bnbbtc", 5, 100), "bnbbtc@depth5@100ms");
    assert_eq!(partial_book_depth_stream("bnbbtc", 5, 1000), "bnbbtc@depth5@1000ms");
    assert_eq!(partial_book_depth_stream("bnbbtc", 10, 100), "bnbbtc@depth10@100ms");
    assert_eq!(partial_book_depth_stream("bnbbtc", 10, 1000), "bnbbtc@depth10@1000ms");
    assert_eq!(partial_book_depth_stream("bnbbtc", 20, 100), "bnbbtc@depth20@100ms");
    assert_eq!(partial_book_depth_stream("bnbbtc", 20, 1000), "bnbbtc@depth20@1000ms");
}

#[test]
fn partial_depth_does_not_validate() {
    assert_eq!(partial_book_depth_stream("bnbbtc", 0, 7), "bnbbtc@depth0@7ms");
    assert_eq!(partial_book_depth_stream("bnbbtc", 65535, 65535), "bnbbtc@depth65535@65535ms");
}

#[test]
fn diff_depth_for_every_speed() {
    assert_eq!(diff_book_depth_stream("bnbbtc", 100), "bnbbtc@depth@100ms");
    assert_eq!(diff_book_depth_stream("bnbbtc", 1000), "bnbbtc@depth@1000ms");
    assert_eq!(diff_book_depth_stream("bnbbtc", 0), "bnbbtc@depth@0ms");
}

#[test]
fn decimal_text_agrees_with_the_standard_rendering() {
    for n in [0u16, 1, 9, 10, 11, 99, 100, 101, 999, 1000, 1001, 9999, 10000, 12345, 65535] {
        assert_eq!(decimal_text(n), n.to_string());
    }
}

#[test]
fn decimal_text_of_every_number() {
    let mut n: u16 = 0;
    loop {
        assert_eq!(decimal_text(n), format!("{}", n));
        if n == u16::MAX {
            break;
        }
        n += 1;
    }
}

#[test]
fn combining_two_topics() {
    let path = combined_stream(vec!["a@ticker".to_string(), "b@trade".to_string()]);
    assert_eq!(path, "a@ticker/b@trade");
}

#[test]
fn combining_one_topic_gives_it_back() {
    assert_eq!(combined_stream(vec!["a@ticker".to_string()]), "a@ticker");
}

#[test]
fn combining_no_topics_gives_nothing() {
    assert_eq!(combined_stream(Vec::new()), "");
}

#[test]
fn combining_keeps_order_and_duplicates() {
    let topics = vec![
        "z@trade".to_string(),
        "a@trade".to_string(),
        "z@trade".to_string(),
        "".to_string(),
        "m@depth@100ms".to_string(),
    ];
    assert_eq!(combined_stream(topics), "z@trade/a@trade/z@trade//m@depth@100ms");
}

#[test]
fn combining_agrees_with_join() {
    let topics: Vec<String> = vec![
        ticker_stream("btcusdt"),
        kline_stream("ethusdt", "5m"),
        partial_book_depth_stream("bnbbtc", 20, 100),
        all_ticker_stream().to_string(),
    ];
    let expected = topics.join("/");
    assert_eq!(combined_stream(topics), expected);
    assert_eq!(
        expected,
        "btcusdt@ticker/ethusdt@kline_5m/bnbbtc@depth20@100ms/!ticker@arr"
    );
}

#[test]
fn combining_a_split_list_is_joining_the_halves() {
    let first = vec!["a".to_string(), "b".to_string()];
    let second = vec!["c".to_string(), "d".to_string(), "e".to_string()];
    let mut all = first.clone();
    all.extend(second.iter().cloned());
    let joined = format!("{}/{}", combined_stream(first), combined_stream(second));
    assert_eq!(combined_stream(all), joined);
}

#[test]
fn endpoint_segments() {
    assert_eq!(STREAM_ENDPOINT, "stream");
    assert_eq!(WS_ENDPOINT, "ws");
}
