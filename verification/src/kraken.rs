//! The engine-side pieces of the Kraken adapter: plain configuration and
//! result records, symbol translation, and balance selection. The
//! transport, signing and JSON live with the adapter outside this crate.

use vstd::prelude::*;

use crate::execution::order_action::Side;
use crate::execution::order_report::OrderReport;
use crate::types::instrument::Instrument;
use crate::types::price::Price;

verus! {

/// Credentials for the venue's private endpoints, loaded by the caller.
#[derive(Debug, Clone, PartialEq)]
pub struct KrakenConfig {
    pub api_key: String,
    pub api_secret: String,
}

/// The market-data endpoint the adapter connects to.
#[derive(Debug, Clone, PartialEq)]
pub struct KrakenMarket {
    pub websocket_url: String,
}

impl KrakenMarket {
    pub fn new(websocket_url: String) -> (r: Self)
        ensures
            r.websocket_url@ == websocket_url@,
    {
        KrakenMarket { websocket_url }
    }
}

impl Default for KrakenMarket {
    /// The venue's public websocket endpoint.
    fn default() -> (r: Self)
        ensures
            r.websocket_url@ == "wss://ws.kraken.com"@,
    {
        KrakenMarket::new(String::from_str("wss://ws.kraken.com"))
    }
}

/// The venue's answer to an order placement.
#[derive(Debug, Clone, PartialEq)]
pub struct AddOrderResult {
    pub txid: Vec<String>,
    pub descr: AddOrderDescr,
}

/// The venue's human-readable description of a placed order.
#[derive(Debug, Clone, PartialEq)]
pub struct AddOrderDescr {
    pub order: String,
}

/// The venue's answer to a single-order cancel.
#[derive(Debug, Clone, Copy, PartialEq, Eq, Structural)]
pub struct CancelOrderResult {
    pub count: i64,
}

/// The venue's answer to a cancel-all.
#[derive(Debug, Clone, Copy, PartialEq, Eq, Structural)]
pub struct CancelAllResult {
    pub count: i64,
}

/// One asset's balance as the venue reports it, in fixed-point units.
#[derive(Debug, Clone, PartialEq)]
pub struct BalanceRecord {
    pub asset: String,
    pub balance: i64,
    pub wallets: Vec<WalletRecord>,
}

/// One wallet's balance within an asset's record.
#[derive(Debug, Clone, PartialEq)]
pub struct WalletRecord {
    pub wallet_type: String,
    pub wallet_id: String,
    pub balance: i64,
}

/// The venue's codes under which a symbol's balance may be reported.
pub open spec fn spec_balance_codes(sym: Seq<char>) -> Seq<Seq<char>> {
    if sym == "BTC"@ || sym == "XBT"@ {
        seq!["XBT"@, "XXBT"@, "BTC"@]
    } else if sym == "GBP"@ {
        seq!["GBP"@, "ZGBP"@]
    } else if sym == "USD"@ {
        seq!["USD"@, "ZUSD"@]
    } else if sym == "EUR"@ {
        seq!["EUR"@, "ZEUR"@]
    } else {
        seq![sym]
    }
}

/// The balance codes to try, in order, for an upper-case symbol.
pub fn kraken_balance_codes(sym: &str) -> (r: Vec<String>)
    ensures
        r.deep_view() =~= spec_balance_codes(sym@),
{
    let s = String::from_str(sym);
    let mut r: Vec<String> = Vec::new();
    if s == String::from_str("BTC") || s == String::from_str("XBT") {
        r.push(String::from_str("XBT"));
        r.push(String::from_str("XXBT"));
        r.push(String::from_str("BTC"));
    } else if s == String::from_str("GBP") {
        r.push(String::from_str("GBP"));
        r.push(String::from_str("ZGBP"));
    } else if s == String::from_str("USD") {
        r.push(String::from_str("USD"));
        r.push(String::from_str("ZUSD"));
    } else if s == String::from_str("EUR") {
        r.push(String::from_str("EUR"));
        r.push(String::from_str("ZEUR"));
    } else {
        r.push(s);
    }
    r
}

/// The balance a record reports: the spot main wallet's when present,
/// else the top-level one.
pub open spec fn spec_record_balance(entry: BalanceRecord) -> i64 {
    match spec_first_spot_main(entry.wallets@) {
        Some(w) => w.balance,
        None => entry.balance,
    }
}

/// The first wallet that is the spot main wallet.
pub open spec fn spec_first_spot_main(wallets: Seq<WalletRecord>) -> Option<WalletRecord>
    decreases wallets.len(),
{
    if wallets.len() == 0 {
        None
    } else if wallets[0].wallet_type@ == "spot"@ && wallets[0].wallet_id@ == "main"@ {
        Some(wallets[0])
    } else {
        spec_first_spot_main(wallets.skip(1))
    }
}

/// The first record whose asset matches `code`.
pub open spec fn spec_first_entry(entries: Seq<BalanceRecord>, code: Seq<char>) -> Option<
    BalanceRecord,
>
    decreases entries.len(),
{
    if entries.len() == 0 {
        None
    } else if entries[0].asset@ == code {
        Some(entries[0])
    } else {
        spec_first_entry(entries.skip(1), code)
    }
}

/// The balance selected for a symbol: the first code with a matching
/// record decides.
pub open spec fn spec_pick_balance(entries: Seq<BalanceRecord>, codes: Seq<Seq<char>>) -> Option<
    i64,
>
    decreases codes.len(),
{
    if codes.len() == 0 {
        None
    } else {
        match spec_first_entry(entries, codes[0]) {
            Some(entry) => Some(spec_record_balance(entry)),
            None => spec_pick_balance(entries, codes.skip(1)),
        }
    }
}

fn first_spot_main(wallets: &Vec<WalletRecord>) -> (r: Option<WalletRecord>)
    ensures
        r == spec_first_spot_main(wallets@),
{
    let spot = String::from_str("spot");
    let main = String::from_str("main");
    let n = wallets.len();
    proof {
        assert(wallets@.skip(0) =~= wallets@);
    }
    for i in 0..n
        invariant
            n == wallets@.len(),
            spot@ == "spot"@,
            main@ == "main"@,
            spec_first_spot_main(wallets@) == spec_first_spot_main(wallets@.skip(i as int)),
            forall|j: int|
                0 <= j < i ==> !((#[trigger] wallets@[j]).wallet_type@ == "spot"@
                    && wallets@[j].wallet_id@ == "main"@),
    {
        proof {
            assert(wallets@.skip(i as int)[0] == wallets@[i as int]);
            assert(wallets@.skip(i as int).skip(1) =~= wallets@.skip(i as int + 1));
        }
        if wallets[i].wallet_type == spot && wallets[i].wallet_id == main {
            return Some(
                WalletRecord {
                    wallet_type: wallets[i].wallet_type.clone(),
                    wallet_id: wallets[i].wallet_id.clone(),
                    balance: wallets[i].balance,
                },
            );
        }
    }
    proof {
        assert(wallets@.skip(n as int) =~= Seq::<WalletRecord>::empty());
    }
    None
}

fn first_entry_balance(entries: &Vec<BalanceRecord>, code: &String) -> (r: Option<i64>)
    ensures
        r == match spec_first_entry(entries@, code@) {
            Some(entry) => Some(spec_record_balance(entry)),
            None => Option::<i64>::None,
        },
{
    let n = entries.len();
    proof {
        assert(entries@.skip(0) =~= entries@);
    }
    for i in 0..n
        invariant
            n == entries@.len(),
            spec_first_entry(entries@, code@) == spec_first_entry(
                entries@.skip(i as int),
                code@,
            ),
            forall|j: int| 0 <= j < i ==> !((#[trigger] entries@[j]).asset@ == code@),
    {
        proof {
            assert(entries@.skip(i as int)[0] == entries@[i as int]);
            assert(entries@.skip(i as int).skip(1) =~= entries@.skip(i as int + 1));
        }
        if entries[i].asset == *code {
            let w = first_spot_main(&entries[i].wallets);
            return match w {
                Some(wallet) => Some(wallet.balance),
                None => Some(entries[i].balance),
            };
        }
    }
    proof {
        assert(entries@.skip(n as int) =~= Seq::<BalanceRecord>::empty());
    }
    None
}

/// Picks the balance for a symbol out of the venue's records: the first
/// code in order that has a matching record decides, the spot main
/// wallet's balance preferred over the record's top-level one.
pub fn pick_balance(entries: &Vec<BalanceRecord>, codes: &Vec<String>) -> (r: Option<i64>)
    ensures
        r == spec_pick_balance(entries@, codes.deep_view()),
{
    let n = codes.len();
    proof {
        assert(codes.deep_view().skip(0) =~= codes.deep_view());
    }
    for i in 0..n
        invariant
            n == codes@.len(),
            codes.deep_view().len() == codes@.len(),
            forall|j: int| 0 <= j < codes@.len() ==> codes.deep_view()[j] == codes@[j]@,
            spec_pick_balance(entries@, codes.deep_view()) == spec_pick_balance(
                entries@,
                codes.deep_view().skip(i as int),
            ),
            forall|j: int|
                0 <= j < i ==> spec_first_entry(entries@, codes.deep_view()[j]) is None,
    {
        proof {
            assert(codes.deep_view().skip(i as int)[0] == codes.deep_view()[i as int]);
            assert(codes.deep_view().skip(i as int).skip(1) =~= codes.deep_view().skip(
                i as int + 1,
            ));
        }
        if let Some(balance) = first_entry_balance(entries, &codes[i]) {
            return Some(balance);
        }
    }
    proof {
        assert(codes.deep_view().skip(n as int) =~= Seq::<Seq<char>>::empty());
    }
    None
}

/// Classifies one execution frame, already broken into plain values, as
/// an engine report: `new` accepts, `trade` partially fills, `filled`
/// completes, `canceled` cancels, `expired` rejects, and everything else
/// carries no order news. The cumulative quantity is never reported
/// smaller than the last fill.
pub fn execution_report(
    exec_type: &str,
    order_id: String,
    instrument: Instrument,
    side: Side,
    price: Price,
    quantity: u64,
    cum_quantity: u64,
) -> (r: Option<OrderReport>)
    ensures
        exec_type@ == "new"@ ==> (r matches Some(OrderReport::Accepted {
            order_id: c,
            side: cs,
            price: cp,
            quantity: cq,
            ..
        }) && c@ == order_id@ && cs == side && cp == price && cq == quantity),
        exec_type@ == "trade"@ ==> (r matches Some(OrderReport::PartiallyFilled {
            order_id: c,
            side: cs,
            price: cp,
            quantity: cq,
            cum_quantity: cc,
            ..
        }) && c@ == order_id@ && cs == side && cp == price && cq == quantity && cc == (
        if cum_quantity >= quantity {
            cum_quantity
        } else {
            quantity
        })),
        exec_type@ == "filled"@ ==> (r matches Some(OrderReport::Filled {
            order_id: c,
            side: cs,
            price: cp,
            quantity: cq,
            cum_quantity: cc,
            ..
        }) && c@ == order_id@ && cs == side && cp == price && cq == quantity && cc == (
        if cum_quantity >= quantity {
            cum_quantity
        } else {
            quantity
        })),
        exec_type@ == "canceled"@ ==> (r matches Some(OrderReport::Cancelled {
            order_id: c,
            side: cs,
            ..
        }) && c@ == order_id@ && cs == side),
        exec_type@ == "expired"@ ==> (r matches Some(OrderReport::Rejected {
            order_id: c,
            side: cs,
            reason,
            ..
        }) && c@ == order_id@ && cs == side && reason@ == "expired"@),
        (exec_type@ != "new"@ && exec_type@ != "trade"@ && exec_type@ != "filled"@ && exec_type@
            != "canceled"@ && exec_type@ != "expired"@) ==> r is None,
{
    proof {
        reveal_strlit("new");
        reveal_strlit("trade");
        reveal_strlit("filled");
        reveal_strlit("canceled");
        reveal_strlit("expired");
        assert("new"@.len() == 3 && "trade"@.len() == 5 && "filled"@.len() == 6 && "canceled"@.len()
            == 8 && "expired"@.len() == 7);
    }
    let kind = String::from_str(exec_type);
    let cum = if cum_quantity >= quantity {
        cum_quantity
    } else {
        quantity
    };
    if kind == String::from_str("new") {
        Some(OrderReport::Accepted { order_id, instrument, side, price, quantity })
    } else if kind == String::from_str("trade") {
        Some(
            OrderReport::PartiallyFilled {
                order_id,
                instrument,
                side,
                price,
                quantity,
                cum_quantity: cum,
            },
        )
    } else if kind == String::from_str("filled") {
        Some(
            OrderReport::Filled {
                order_id,
                instrument,
                side,
                price,
                quantity,
                cum_quantity: cum,
            },
        )
    } else if kind == String::from_str("canceled") {
        Some(OrderReport::Cancelled { order_id, instrument, side })
    } else if kind == String::from_str("expired") {
        Some(
            OrderReport::Rejected {
                order_id,
                instrument,
                side,
                reason: String::from_str("expired"),
            },
        )
    } else {
        None
    }
}

/// The venue's pair name for an instrument: the symbols joined, with
/// `BTC` written as `XBT`.
pub fn instrument_to_kraken_pair(instrument: &Instrument) -> (r: String)
    ensures
        r@ == (if instrument.spec_base() == "BTC"@ {
            "XBT"@
        } else {
            instrument.spec_base()
        }) + instrument.spec_quote(),
{
    let base = String::from_str(instrument.base());
    let mut pair = if base == String::from_str("BTC") {
        String::from_str("XBT")
    } else {
        base
    };
    pair.append(instrument.quote());
    pair
}

} // verus!
