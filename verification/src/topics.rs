//! Names of the subscription topics of the streaming endpoint.
//!
//! Every function here is pure: a topic name is a fixed piece of text around
//! the symbol it is asked for. Parameters are not validated.

use vstd::prelude::*;

verus! {

/// Path segment of the combined multi-stream endpoint.
pub const STREAM_ENDPOINT: &'static str = "stream";

/// Path segment of the single-stream endpoint.
pub const WS_ENDPOINT: &'static str = "ws";

/// Event tag of an account update.
pub const OUTBOUND_ACCOUNT_INFO: &'static str = "outboundAccountInfo";

/// Event tag of a balance update.
pub const OUTBOUND_ACCOUNT_POSITION: &'static str = "outboundAccountPosition";

/// Event tag of an order update.
pub const EXECUTION_REPORT: &'static str = "executionReport";

/// Event tag of a candlestick update.
pub const KLINE: &'static str = "kline";

/// Event tag of an aggregated trade.
pub const AGGREGATED_TRADE: &'static str = "aggTrade";

/// Event tag of an incremental order-book update.
pub const DEPTH_ORDERBOOK: &'static str = "depthUpdate";

/// Field by which a partial order-book snapshot is recognised.
pub const PARTIAL_ORDERBOOK: &'static str = "lastUpdateId";

/// Event tag of a rolling-window ticker.
pub const DAYTICKER: &'static str = "24hrTicker";

/// The character that stands for the digit `d` in base ten.
pub open spec fn digit_char(d: nat) -> char {
    if d == 0 {
        '0'
    } else if d == 1 {
        '1'
    } else if d == 2 {
        '2'
    } else if d == 3 {
        '3'
    } else if d == 4 {
        '4'
    } else if d == 5 {
        '5'
    } else if d == 6 {
        '6'
    } else if d == 7 {
        '7'
    } else if d == 8 {
        '8'
    } else {
        '9'
    }
}

/// The base-ten numeral of `n`, most significant digit first, without padding.
pub open spec fn decimal(n: nat) -> Seq<char>
    decreases n,
{
    if n < 10 {
        seq![digit_char(n)]
    } else {
        decimal(n / 10).push(digit_char(n % 10))
    }
}

/// The topics joined by `/`, in the order given.
pub open spec fn joined(topics: Seq<Seq<char>>) -> Seq<char>
    decreases topics.len(),
{
    if topics.len() == 0 {
        Seq::empty()
    } else if topics.len() == 1 {
        topics[0]
    } else {
        joined(topics.drop_last()) + seq!['/'] + topics.last()
    }
}

/// No topics give the empty path, and one topic gives itself.
pub proof fn law_joined_small(topic: Seq<char>)
    ensures
        joined(Seq::empty()) == Seq::<char>::empty(),
        joined(seq![topic]) == topic,
{
}

/// Joining keeps the order: the path of two lists of topics, one after the
/// other, is the path of the first, a `/`, and the path of the second.
pub proof fn law_joined_in_order(first: Seq<Seq<char>>, second: Seq<Seq<char>>)
    requires
        first.len() > 0,
        second.len() > 0,
    ensures
        joined(first + second) == joined(first) + seq!['/'] + joined(second),
    decreases second.len(),
{
    let all = first + second;
    assert(all.drop_last() =~= first + second.drop_last());
    assert(all.last() == second.last());
    if second.len() == 1 {
        assert(first + second.drop_last() =~= first);
        assert(joined(second) == second.last());
    } else {
        law_joined_in_order(first, second.drop_last());
        assert(joined(all) =~= joined(first) + seq!['/'] + joined(second));
    }
}

fn digit_text(d: u16) -> (text: &'static str)
    requires
        d < 10,
    ensures
        text@ == seq![digit_char(d as nat)],
{
    proof {
        reveal_strlit("0");
        reveal_strlit("1");
        reveal_strlit("2");
        reveal_strlit("3");
        reveal_strlit("4");
        reveal_strlit("5");
        reveal_strlit("6");
        reveal_strlit("7");
        reveal_strlit("8");
        reveal_strlit("9");
    }
    let text = if d == 0 {
        "0"
    } else if d == 1 {
        "1"
    } else if d == 2 {
        "2"
    } else if d == 3 {
        "3"
    } else if d == 4 {
        "4"
    } else if d == 5 {
        "5"
    } else if d == 6 {
        "6"
    } else if d == 7 {
        "7"
    } else if d == 8 {
        "8"
    } else {
        "9"
    };
    assert(text@ =~= seq![digit_char(d as nat)]);
    text
}

/// Writes `n` in base ten.
pub fn decimal_text(n: u16) -> (text: String)
    ensures
        text@ == decimal(n as nat),
    decreases n,
{
    if n < 10 {
        String::from_str(digit_text(n))
    } else {
        let mut text = decimal_text(n / 10);
        text.append(digit_text(n % 10));
        assert(text@ =~= decimal((n / 10) as nat).push(digit_char((n % 10) as nat)));
        text
    }
}

/// `symbol` followed by a fixed suffix.
fn suffixed(symbol: &str, suffix: &str) -> (topic: String)
    ensures
        topic@ == symbol@ + suffix@,
{
    let mut topic = String::from_str(symbol);
    topic.append(suffix);
    topic
}

/// Ticker of every symbol of the market.
pub fn all_ticker_stream() -> (topic: &'static str)
    ensures
        topic@ == "!ticker@arr"@,
{
    "!ticker@arr"
}

/// Ticker of one symbol.
pub fn ticker_stream(symbol: &str) -> (topic: String)
    ensures
        topic@ == symbol@ + "@ticker"@,
{
    suffixed(symbol, "@ticker")
}

/// Aggregated trades of one symbol.
pub fn agg_trade_stream(symbol: &str) -> (topic: String)
    ensures
        topic@ == symbol@ + "@aggTrade"@,
{
    suffixed(symbol, "@aggTrade")
}

/// Raw trades of one symbol.
pub fn trade_stream(symbol: &str) -> (topic: String)
    ensures
        topic@ == symbol@ + "@trade"@,
{
    suffixed(symbol, "@trade")
}

/// Candlesticks of one symbol at the given interval.
pub fn kline_stream(symbol: &str, interval: &str) -> (topic: String)
    ensures
        topic@ == symbol@ + "@kline_"@ + interval@,
{
    let mut topic = suffixed(symbol, "@kline_");
    topic.append(interval);
    topic
}

/// Best bid and ask of one symbol.
pub fn book_ticker_stream(symbol: &str) -> (topic: String)
    ensures
        topic@ == symbol@ + "@bookTicker"@,
{
    suffixed(symbol, "@bookTicker")
}

/// Best bid and ask of every symbol of the market.
pub fn all_book_ticker_stream() -> (topic: &'static str)
    ensures
        topic@ == "!bookTicker"@,
{
    "!bookTicker"
}

/// Mini-ticker of every symbol of the market.
pub fn all_mini_ticker_stream() -> (topic: &'static str)
    ensures
        topic@ == "!miniTicker@arr"@,
{
    "!miniTicker@arr"
}

/// Mini-ticker of one symbol.
pub fn mini_ticker_stream(symbol: &str) -> (topic: String)
    ensures
        topic@ == symbol@ + "@miniTicker"@,
{
    suffixed(symbol, "@miniTicker")
}

/// Partial order book of one symbol.
///
/// * `levels`: number of price levels, 5, 10 or 20
/// * `update_speed`: update interval in milliseconds, 1000 or 100
///
/// Neither number is checked: any value is written out as it is.
pub fn partial_book_depth_stream(symbol: &str, levels: u16, update_speed: u16) -> (topic: String)
    ensures
        topic@ == symbol@ + "@depth"@ + decimal(levels as nat) + "@"@ + decimal(
            update_speed as nat,
        ) + "ms"@,
{
    let mut topic = suffixed(symbol, "@depth");
    let levels_text = decimal_text(levels);
    topic.append(levels_text.as_str());
    topic.append("@");
    let speed_text = decimal_text(update_speed);
    topic.append(speed_text.as_str());
    topic.append("ms");
    topic
}

/// Incremental order-book updates of one symbol.
///
/// * `update_speed`: update interval in milliseconds, 1000 or 100
///
/// The number is not checked: any value is written out as it is.
pub fn diff_book_depth_stream(symbol: &str, update_speed: u16) -> (topic: String)
    ensures
        topic@ == symbol@ + "@depth@"@ + decimal(update_speed as nat) + "ms"@,
{
    let mut topic = suffixed(symbol, "@depth@");
    let speed_text = decimal_text(update_speed);
    topic.append(speed_text.as_str());
    topic.append("ms");
    topic
}

/// Joins topic names into the path of a multi-stream subscription: the names
/// in the order given, separated by `/`. Nothing is sorted or removed.
pub fn combined_stream(streams: Vec<String>) -> (path: String)
    ensures
        path@ == joined(streams.deep_view()),
{
    let mut path = String::new();
    let mut i: usize = 0;
    while i < streams.len()
        invariant
            i <= streams.len(),
            path@ == joined(streams.deep_view().take(i as int)),
        decreases streams.len() - i,
    {
        proof {
            reveal_strlit("/");
            let all = streams.deep_view();
            let before = all.take(i as int);
            let after = all.take(i as int + 1);
            assert(after.drop_last() =~= before);
            assert(after.last() == streams[i as int]@);
            assert("/"@ =~= seq!['/']);
        }
        if i > 0 {
            path.append("/");
        }
        path.append(streams[i].as_str());
        i = i + 1;
    }
    proof {
        assert(streams.deep_view().take(streams.len() as int) =~= streams.deep_view());
    }
    path
}

} // verus!
