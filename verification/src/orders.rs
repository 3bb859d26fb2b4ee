//! Order routing for the exchange: endpoints, request query strings, HMAC
//! signatures, and the ledger that accepts or refuses a new order.

use vstd::prelude::*;
use vstd::utf8::encode_utf8;
use hmac::{Hmac, Mac};
use sha2::Sha256;
use crate::query::{Param, param_views, query_text, serialize_params, sort_params};
use crate::text::{views, concat, digit_char, i64_to_string, signed_decimal, str_eq};

verus! {

/// What HMAC-SHA256 (crates `hmac` and `sha2`) computes from a key and a message.
pub uninterp spec fn hmac_sha256(key: Seq<u8>, message: Seq<u8>) -> Seq<u8>;

/// Runs HMAC-SHA256 over `message` keyed with `key` through `hmac::Hmac<sha2::Sha256>`
/// (`new_from_slice`, `update`, `finalize`). The tag is named `hmac_sha256`; its
/// length is SHA-256's output size, 32 bytes. `new_from_slice` accepts keys of
/// every length for HMAC, so the call does not fail.
#[verifier::external_body]
fn hmac_sha256_tag(key: &[u8], message: &[u8]) -> (tag: Vec<u8>)
    ensures
        tag@ == hmac_sha256(key@, message@),
        tag@.len() == 32,
{
    let mut mac = <Hmac<Sha256> as Mac>::new_from_slice(key).expect("HMAC takes keys of any size");
    mac.update(message);
    mac.finalize().into_bytes().to_vec()
}

/// A lower-case hexadecimal digit.
pub open spec fn hex_digit(n: nat) -> char
    recommends
        n < 16,
{
    if n < 10 {
        digit_char(n)
    } else {
        ((97 + n - 10) as int) as char
    }
}

/// Lower-case hexadecimal rendering of bytes, two digits per byte, high nibble first.
pub open spec fn hex_lower(bytes: Seq<u8>) -> Seq<char>
    decreases bytes.len(),
{
    if bytes.len() == 0 {
        Seq::empty()
    } else {
        seq![hex_digit((bytes[0] / 16) as nat), hex_digit((bytes[0] % 16) as nat)] + hex_lower(
            bytes.drop_first(),
        )
    }
}

/// Calls `hex::encode`, which renders each byte as two lower-case hexadecimal
/// digits, high nibble first (the crate's `HEX_CHARS_LOWER` table).
#[verifier::external_body]
fn hex_encode(bytes: &[u8]) -> (s: String)
    ensures
        s@ == hex_lower(bytes@),
{
    hex::encode(bytes)
}

/// The signature of a query: HMAC-SHA256 of its UTF-8 bytes under the
/// secret's UTF-8 bytes, in lower-case hexadecimal.
pub open spec fn signature_of(secret: Seq<char>, query: Seq<char>) -> Seq<char> {
    hex_lower(hmac_sha256(encode_utf8(secret), encode_utf8(query)))
}

/// Signs a query string with an API secret.
pub fn hmac_sha256_hex(secret: &str, query: &str) -> (sig: String)
    ensures
        sig@ == signature_of(secret@, query@),
{
    let tag = hmac_sha256_tag(secret.as_bytes(), query.as_bytes());
    hex_encode(tag.as_slice())
}

// ---------------------------------------------------------------------------
// Endpoints

/// Base URL of the exchange for a network and a market.
pub open spec fn exchange_base_url(testnet: bool, futures: bool) -> Seq<char> {
    if testnet {
        if futures {
            "https://demo-fapi.binance.com"@
        } else {
            "https://testnet.binance.vision"@
        }
    } else {
        if futures {
            "https://fapi.binance.com"@
        } else {
            "https://api.binance.com"@
        }
    }
}

/// Path of the order endpoint of a market.
pub open spec fn order_path(futures: bool) -> Seq<char> {
    if futures {
        "/fapi/v1/order"@
    } else {
        "/api/v3/order"@
    }
}

/// Whether a market type names the futures market.
pub open spec fn is_futures(market_type: Seq<char>) -> bool {
    market_type == "FUTURES"@
}

/// Base URL for a command's market on the chosen network.
pub fn base_url(testnet: bool, market_type: &str) -> (url: &'static str)
    ensures
        url@ == exchange_base_url(testnet, is_futures(market_type@)),
{
    let futures = str_eq(market_type, "FUTURES");
    if testnet {
        if futures {
            "https://demo-fapi.binance.com"
        } else {
            "https://testnet.binance.vision"
        }
    } else {
        if futures {
            "https://fapi.binance.com"
        } else {
            "https://api.binance.com"
        }
    }
}

/// Full URL of the order endpoint for a command's market on the chosen network.
pub fn order_url(testnet: bool, market_type: &str) -> (url: String)
    ensures
        url@ == exchange_base_url(testnet, is_futures(market_type@)) + order_path(
            is_futures(market_type@),
        ),
{
    let base = base_url(testnet, market_type);
    let path = if str_eq(market_type, "FUTURES") {
        "/fapi/v1/order"
    } else {
        "/api/v3/order"
    };
    concat(base, path)
}

// ---------------------------------------------------------------------------
// Signed order form

/// The parameters of a new order before signing: symbol, side, type,
/// quantity, `newOrderRespType=FULL`, then price and `timeInForce=GTC` for a
/// priced LIMIT order, then the timestamp.
pub open spec fn order_params(
    symbol: Seq<char>,
    side: Seq<char>,
    order_type: Seq<char>,
    quantity: Seq<char>,
    price: Option<Seq<char>>,
    timestamp_ms: i64,
) -> Seq<(Seq<char>, Seq<char>)> {
    let base = seq![
        ("symbol"@, symbol),
        ("side"@, side),
        ("type"@, order_type),
        ("quantity"@, quantity),
        ("newOrderRespType"@, "FULL"@),
    ];
    let priced = if order_type == "LIMIT"@ && price is Some {
        base + seq![("price"@, price->0), ("timeInForce"@, "GTC"@)]
    } else {
        base
    };
    priced.push(("timestamp"@, signed_decimal(timestamp_ms as int)))
}

/// The form of a new order: its parameters followed by the signature of
/// their sorted query string.
pub open spec fn signed_order_form(
    symbol: Seq<char>,
    side: Seq<char>,
    order_type: Seq<char>,
    quantity: Seq<char>,
    price: Option<Seq<char>>,
    timestamp_ms: i64,
    secret: Seq<char>,
) -> Seq<(Seq<char>, Seq<char>)> {
    let params = order_params(symbol, side, order_type, quantity, price, timestamp_ms);
    params.push(("signature"@, signature_of(secret, query_text(sort_params(params)))))
}

/// Builds the signed form of a new order. `quantity` and `price` are the
/// decimal texts of the amounts.
pub fn build_signed_order(
    symbol: &str,
    side: &str,
    order_type: &str,
    quantity: &str,
    price: Option<&str>,
    timestamp_ms: i64,
    secret: &str,
) -> (form: Vec<Param>)
    ensures
        param_views(form@) == signed_order_form(
            symbol@,
            side@,
            order_type@,
            quantity@,
            match price {
                Some(p) => Some(p@),
                None => None,
            },
            timestamp_ms,
            secret@,
        ),
{
    let ghost price_view: Option<Seq<char>> = match price {
        Some(p) => Some(p@),
        None => None,
    };
    let mut params: Vec<Param> = Vec::new();
    params.push(Param::new("symbol", symbol));
    params.push(Param::new("side", side));
    params.push(Param::new("type", order_type));
    params.push(Param::new("quantity", quantity));
    params.push(Param::new("newOrderRespType", "FULL"));
    let limit = str_eq(order_type, "LIMIT");
    if limit {
        match price {
            Some(p) => {
                params.push(Param::new("price", p));
                params.push(Param::new("timeInForce", "GTC"));
            },
            None => {},
        }
    }
    let ts = i64_to_string(timestamp_ms);
    params.push(Param { name: String::from_str("timestamp"), value: ts });
    proof {
        let spec_params = order_params(
            symbol@,
            side@,
            order_type@,
            quantity@,
            price_view,
            timestamp_ms,
        );
        assert(param_views(params@) =~= spec_params);
    }
    let query = serialize_params(&params);
    let signature = hmac_sha256_hex(secret, query.as_str());
    params.push(Param { name: String::from_str("signature"), value: signature });
    params
}

// ---------------------------------------------------------------------------
// Admission of new orders

/// Why a new order is refused.
#[derive(Debug, PartialEq, Eq)]
pub enum OrderRejection {
    /// The day's trade count has reached the configured maximum.
    DailyTradeLimit,
    /// A position is already open for the symbol.
    PositionExists(String),
}

/// Open positions (by symbol) and the number of trades placed today.
pub struct PositionLedger {
    open_symbols: Vec<String>,
    daily_trades: usize,
}

impl PositionLedger {
    /// Symbols with an open position.
    pub closed spec fn symbols(&self) -> Seq<Seq<char>> {
        views(self.open_symbols@)
    }

    /// Trades placed today.
    pub closed spec fn trades(&self) -> nat {
        self.daily_trades as nat
    }

    /// Well-formed: no symbol is listed twice.
    pub closed spec fn wf(&self) -> bool {
        self.symbols().no_duplicates()
    }

    /// An empty ledger: no position, no trade.
    pub fn new() -> (l: PositionLedger)
        ensures
            l.wf(),
            l.symbols() == Seq::<Seq<char>>::empty(),
            l.trades() == 0,
    {
        let l = PositionLedger { open_symbols: Vec::new(), daily_trades: 0 };
        assert(l.symbols() =~= Seq::<Seq<char>>::empty());
        l
    }

    /// Trades placed today.
    pub fn daily_trades(&self) -> (n: usize)
        ensures
            n == self.trades(),
    {
        self.daily_trades
    }

    /// Whether a position is open for `symbol`.
    pub fn has_position(&self, symbol: &str) -> (r: bool)
        ensures
            r == self.symbols().contains(symbol@),
    {
        let mut i: usize = 0;
        while i < self.open_symbols.len()
            invariant
                i <= self.open_symbols.len(),
                forall|j: int| 0 <= j < i ==> self.symbols()[j] != symbol@,
            decreases self.open_symbols.len() - i,
        {
            if str_eq(self.open_symbols[i].as_str(), symbol) {
                assert(self.symbols()[i as int] == symbol@);
                return true;
            }
            i = i + 1;
        }
        proof {
            if self.symbols().contains(symbol@) {
                let k = choose|k: int| 0 <= k < self.symbols().len() && self.symbols()[k] == symbol@;
                assert(self.symbols()[k] != symbol@);
            }
        }
        false
    }

    /// Whether a new order for `symbol` may be placed now.
    pub open spec fn accepts(&self, symbol: Seq<char>, max_daily_trades: nat) -> bool {
        self.trades() < max_daily_trades && !self.symbols().contains(symbol)
    }

    /// Decides whether a new order for `symbol` may be placed: the daily limit is
    /// checked first, then an open position for the symbol.
    pub fn check_order(&self, symbol: &str, max_daily_trades: usize) -> (r: Result<(), OrderRejection>)
        ensures
            self.trades() >= max_daily_trades ==> r == Err::<(), OrderRejection>(
                OrderRejection::DailyTradeLimit,
            ),
            self.trades() < max_daily_trades && self.symbols().contains(symbol@) ==> (r matches Err(
                OrderRejection::PositionExists(s),
            ) && s@ == symbol@),
            r is Ok <==> self.accepts(symbol@, max_daily_trades as nat),
    {
        if self.daily_trades >= max_daily_trades {
            return Err(OrderRejection::DailyTradeLimit);
        }
        if self.has_position(symbol) {
            return Err(OrderRejection::PositionExists(String::from_str(symbol)));
        }
        Ok(())
    }

    /// Records a placed order: the symbol now has an open position and the
    /// day's count grows by one.
    pub fn record_fill(&mut self, symbol: &str)
        requires
            old(self).wf(),
            !old(self).symbols().contains(symbol@),
            old(self).trades() < usize::MAX,
        ensures
            final(self).wf(),
            final(self).symbols() == old(self).symbols().push(symbol@),
            final(self).trades() == old(self).trades() + 1,
    {
        self.open_symbols.push(String::from_str(symbol));
        self.daily_trades = self.daily_trades + 1;
        proof {
            assert(self.symbols() =~= old(self).symbols().push(symbol@));
        }
    }

    /// Closes the position of `symbol`, if one is open.
    pub fn close_position(&mut self, symbol: &str)
        requires
            old(self).wf(),
        ensures
            final(self).wf(),
            final(self).trades() == old(self).trades(),
            !final(self).symbols().contains(symbol@),
            forall|s: Seq<char>| s != symbol@ ==> (final(self).symbols().contains(s)
                <==> old(self).symbols().contains(s)),
    {
        let mut kept: Vec<String> = Vec::new();
        let mut i: usize = 0;
        let ghost old_syms = self.symbols();
        while i < self.open_symbols.len()
            invariant
                i <= self.open_symbols.len(),
                old_syms == self.symbols(),
                old_syms.no_duplicates(),
                views(kept@).no_duplicates(),
                forall|s: Seq<char>| #[trigger] views(kept@).contains(s) <==> (
                s != symbol@ && old_syms.take(i as int).contains(s)),
            decreases self.open_symbols.len() - i,
        {
            let ghost kv = views(kept@);
            let ghost x = old_syms[i as int];
            assert(old_syms.take(i + 1) =~= old_syms.take(i as int).push(x));
            if !str_eq(self.open_symbols[i].as_str(), symbol) {
                let c = self.open_symbols[i].clone();
                kept.push(c);
                proof {
                    let kv2 = views(kept@);
                    assert(kv2 =~= kv.push(x));
                    assert(!kv.contains(x)) by {
                        if kv.contains(x) {
                            assert(old_syms.take(i as int).contains(x));
                            let t0 = old_syms.take(i as int);
                            let k = choose|k: int| 0 <= k < t0.len() && t0[k] == x;
                            assert(old_syms[k] == old_syms[i as int]);
                        }
                    }
                    let t0 = old_syms.take(i as int);
                    let t1 = old_syms.take(i + 1);
                    assert(x != symbol@);
                    assert forall|s: Seq<char>| #[trigger] kv2.contains(s) <==> (s != symbol@
                        && t1.contains(s)) by {
                        if kv2.contains(s) {
                            let k = choose|k: int| 0 <= k < kv2.len() && kv2[k] == s;
                            if k < kv.len() {
                                assert(kv[k] == s);
                                assert(kv.contains(s));
                                let k2 = choose|k2: int| 0 <= k2 < t0.len() && t0[k2] == s;
                                assert(t1[k2] == s);
                            } else {
                                assert(s == x);
                                assert(t1[i as int] == x);
                            }
                        }
                        if s != symbol@ && t1.contains(s) {
                            let k = choose|k: int| 0 <= k < t1.len() && t1[k] == s;
                            if k < i {
                                assert(t0[k] == s);
                                assert(t0.contains(s));
                                assert(kv.contains(s));
                                let k3 = choose|k3: int| 0 <= k3 < kv.len() && kv[k3] == s;
                                assert(kv2[k3] == s);
                            } else {
                                assert(s == x);
                                assert(kv2[kv.len() as int] == x);
                            }
                        }
                    }
                }
            } else {
                proof {
                    assert forall|s: Seq<char>| #[trigger] kv.contains(s) <==> (s != symbol@
                        && old_syms.take(i + 1).contains(s)) by {
                        let t1 = old_syms.take(i + 1);
                        if t1.contains(s) && s != symbol@ {
                            let k = choose|k: int| 0 <= k < t1.len() && t1[k] == s;
                            assert(old_syms.take(i as int)[k] == s);
                        }
                    }
                }
            }
            i = i + 1;
        }
        assert(old_syms.take(i as int) =~= old_syms);
        self.open_symbols = kept;
    }
}

/// Recording an accepted order keeps the day's count within the limit, and
/// every further order for the same symbol is refused until its position is
/// closed, whatever the limit.
pub proof fn lemma_recorded_order_refused_again(
    before: PositionLedger,
    after: PositionLedger,
    symbol: Seq<char>,
    max_daily_trades: nat,
)
    requires
        before.accepts(symbol, max_daily_trades),
        after.symbols() == before.symbols().push(symbol),
        after.trades() == before.trades() + 1,
    ensures
        after.trades() <= max_daily_trades,
        forall|m: nat| !after.accepts(symbol, m),
{
    assert(after.symbols()[before.symbols().len() as int] == symbol);
}

/// Closing the position of a symbol lets orders for it through again as soon as
/// the day's limit allows, and leaves the other symbols' positions as they were.
pub proof fn lemma_closed_position_admits_again(
    before: PositionLedger,
    after: PositionLedger,
    symbol: Seq<char>,
    max_daily_trades: nat,
)
    requires
        after.trades() == before.trades(),
        !after.symbols().contains(symbol),
        forall|s: Seq<char>| s != symbol ==> (after.symbols().contains(s)
            <==> before.symbols().contains(s)),
    ensures
        after.accepts(symbol, max_daily_trades) <==> before.trades() < max_daily_trades,
        forall|s: Seq<char>| s != symbol ==> (#[trigger] after.accepts(s, max_daily_trades)
            <==> before.accepts(s, max_daily_trades)),
{
}


// ---------------------------------------------------------------------------
// Exchange client requests

/// Market served by an exchange client.
#[derive(Debug, Clone, Copy, PartialEq, Eq, Structural)]
pub enum MarketType {
    Spot,
    Futures,
}

/// The client a command is routed to: futures for `FUTURES`, spot otherwise.
pub fn route_market(market_type: &str) -> (m: MarketType)
    ensures
        is_futures(market_type@) ==> m == MarketType::Futures,
        !is_futures(market_type@) ==> m == MarketType::Spot,
{
    if str_eq(market_type, "FUTURES") {
        MarketType::Futures
    } else {
        MarketType::Spot
    }
}

/// Base URL of the production endpoint of a market.
pub open spec fn market_base_url(m: MarketType) -> Seq<char> {
    match m {
        MarketType::Spot => "https://api.binance.com"@,
        MarketType::Futures => "https://fapi.binance.com"@,
    }
}

/// Production base URL of a market's client.
pub fn client_base_url(m: MarketType) -> (url: &'static str)
    ensures
        url@ == market_base_url(m),
{
    match m {
        MarketType::Spot => "https://api.binance.com",
        MarketType::Futures => "https://fapi.binance.com",
    }
}

/// Client order id: `zeroclaw_` followed by the millisecond timestamp.
pub open spec fn client_order_id_text(timestamp_ms: i64) -> Seq<char> {
    "zeroclaw_"@ + signed_decimal(timestamp_ms as int)
}

/// Client order id for an order created at `timestamp_ms`.
pub fn client_order_id(timestamp_ms: i64) -> (id: String)
    ensures
        id@ == client_order_id_text(timestamp_ms),
{
    let ts = i64_to_string(timestamp_ms);
    concat("zeroclaw_", ts.as_str())
}

/// The non-numeric terms of an order sent for an execution command; the
/// caller adds the quantity and, when `carries_price` holds, the price, both
/// rounded to the symbol's precision.
pub struct OrderTicket {
    /// Trading pair.
    pub symbol: String,
    /// BUY or SELL.
    pub side: String,
    /// Order type, such as MARKET or LIMIT.
    pub order_type: String,
    /// Whether the order is sent with a price (LIMIT orders only).
    pub carries_price: bool,
    /// Time in force: good-till-cancelled for LIMIT orders, none otherwise.
    pub time_in_force: Option<String>,
    /// Maker-only flag, as the command gives it.
    pub post_only: bool,
    /// Client order id, from the creation time.
    pub client_order_id: String,
}

/// The terms of the order for a command: symbol, side, type and maker flag as
/// given; a price and `GTC` only for a LIMIT order; the client order id of
/// the creation time.
pub fn order_ticket(symbol: &str, side: &str, order_type: &str, post_only: bool, now_ms: i64) -> (t:
    OrderTicket)
    ensures
        t.symbol@ == symbol@,
        t.side@ == side@,
        t.order_type@ == order_type@,
        t.carries_price == (order_type@ == "LIMIT"@),
        order_type@ == "LIMIT"@ ==> (t.time_in_force matches Some(tif) && tif@ == "GTC"@),
        order_type@ != "LIMIT"@ ==> t.time_in_force is None,
        t.post_only == post_only,
        t.client_order_id@ == client_order_id_text(now_ms),
{
    let limit = str_eq(order_type, "LIMIT");
    OrderTicket {
        symbol: String::from_str(symbol),
        side: String::from_str(side),
        order_type: String::from_str(order_type),
        carries_price: limit,
        time_in_force: if limit {
            Some(String::from_str("GTC"))
        } else {
            None
        },
        post_only,
        client_order_id: client_order_id(now_ms),
    }
}

/// Credentials and endpoint of a market's client.
pub struct ClientCredentials {
    api_key: String,
    secret_key: String,
    base_url: String,
}

impl ClientCredentials {
    /// The API key sent with each request.
    pub closed spec fn key(&self) -> Seq<char> {
        self.api_key@
    }

    /// The secret requests are signed with.
    pub closed spec fn secret(&self) -> Seq<char> {
        self.secret_key@
    }

    /// The endpoint requests go to.
    pub closed spec fn endpoint(&self) -> Seq<char> {
        self.base_url@
    }

    fn with(api_key: &str, secret_key: &str, base_url: &str) -> (c: Self)
        ensures
            c.key() == api_key@,
            c.secret() == secret_key@,
            c.endpoint() == base_url@,
    {
        ClientCredentials {
            api_key: String::from_str(api_key),
            secret_key: String::from_str(secret_key),
            base_url: String::from_str(base_url),
        }
    }

    /// The API key.
    pub fn api_key(&self) -> (k: &str)
        ensures
            k@ == self.key(),
    {
        self.api_key.as_str()
    }

    /// The endpoint.
    pub fn base_url(&self) -> (u: &str)
        ensures
            u@ == self.endpoint(),
    {
        self.base_url.as_str()
    }

    /// The secret requests are signed with.
    pub fn secret_key(&self) -> (k: &str)
        ensures
            k@ == self.secret(),
    {
        self.secret_key.as_str()
    }

    /// The signature of a query string under the secret.
    pub fn sign(&self, params: &str) -> (sig: String)
        ensures
            sig@ == signature_of(self.secret(), params@),
    {
        hmac_sha256_hex(self.secret_key.as_str(), params)
    }
}

/// A credential that an order cannot be placed without.
#[derive(Debug, Clone, Copy, PartialEq, Eq, Structural)]
pub enum MissingCredential {
    /// No API key is configured.
    ApiKey,
    /// No API secret is configured.
    ApiSecret,
}

/// The text of a refusal for a missing credential.
pub open spec fn missing_credential_text(m: MissingCredential) -> Seq<char> {
    match m {
        MissingCredential::ApiKey => "Binance API key not configured"@,
        MissingCredential::ApiSecret => "Binance API secret not configured"@,
    }
}

impl MissingCredential {
    /// The refusal's message.
    pub fn message(&self) -> (m: &'static str)
        ensures
            m@ == missing_credential_text(*self),
    {
        match self {
            MissingCredential::ApiKey => "Binance API key not configured",
            MissingCredential::ApiSecret => "Binance API secret not configured",
        }
    }
}

/// The credentials an order is placed with: the configured key and secret, on
/// the endpoint of the network (test or main) and market of the order. The key
/// is checked first: without it the order is refused for the key, otherwise
/// without a secret for the secret.
pub fn order_credentials(
    testnet: bool,
    market_type: &str,
    api_key: Option<&str>,
    api_secret: Option<&str>,
) -> (r: Result<ClientCredentials, MissingCredential>)
    ensures
        api_key is None ==> r == Err::<ClientCredentials, MissingCredential>(MissingCredential::ApiKey),
        api_key is Some && api_secret is None ==> r == Err::<ClientCredentials, MissingCredential>(
            MissingCredential::ApiSecret,
        ),
        r is Ok <==> api_key is Some && api_secret is Some,
        r matches Ok(c) ==> c.key() == api_key.unwrap()@ && c.secret() == api_secret.unwrap()@
            && c.endpoint() == exchange_base_url(testnet, is_futures(market_type@)),
{
    match api_key {
        None => Err(MissingCredential::ApiKey),
        Some(key) => match api_secret {
            None => Err(MissingCredential::ApiSecret),
            Some(secret) => Ok(ClientCredentials::with(key, secret, base_url(testnet, market_type))),
        },
    }
}

/// The spot market's client: credentials and the production endpoint.
pub struct SpotClient {
    credentials: ClientCredentials,
}

impl SpotClient {
    /// Its credentials.
    pub closed spec fn creds(&self) -> ClientCredentials {
        self.credentials
    }

    /// A spot client with the given credentials, on `https://api.binance.com`.
    pub fn with_credentials(api_key: &str, secret_key: &str) -> (c: Self)
        ensures
            c.creds().key() == api_key@,
            c.creds().secret() == secret_key@,
            c.creds().endpoint() == market_base_url(MarketType::Spot),
    {
        SpotClient { credentials: ClientCredentials::with(api_key, secret_key, "https://api.binance.com") }
    }

    /// The market it trades.
    pub fn market_type(&self) -> (m: MarketType)
        ensures
            m == MarketType::Spot,
    {
        MarketType::Spot
    }

    /// Its endpoint.
    pub fn base_url(&self) -> (u: &str)
        ensures
            u@ == self.creds().endpoint(),
    {
        self.credentials.base_url()
    }

    /// Its credentials.
    pub fn credentials(&self) -> (c: &ClientCredentials)
        ensures
            *c == self.creds(),
    {
        &self.credentials
    }

    /// The client order id of an order created at `now_ms`.
    pub fn generate_client_order_id(&self, now_ms: i64) -> (id: String)
        ensures
            id@ == client_order_id_text(now_ms),
    {
        client_order_id(now_ms)
    }
}

/// The futures market's client: credentials and the production endpoint.
pub struct FuturesClient {
    credentials: ClientCredentials,
}

impl FuturesClient {
    /// Its credentials.
    pub closed spec fn creds(&self) -> ClientCredentials {
        self.credentials
    }

    /// A futures client with the given credentials, on `https://fapi.binance.com`.
    pub fn with_credentials(api_key: &str, secret_key: &str) -> (c: Self)
        ensures
            c.creds().key() == api_key@,
            c.creds().secret() == secret_key@,
            c.creds().endpoint() == market_base_url(MarketType::Futures),
    {
        FuturesClient {
            credentials: ClientCredentials::with(api_key, secret_key, "https://fapi.binance.com"),
        }
    }

    /// The market it trades.
    pub fn market_type(&self) -> (m: MarketType)
        ensures
            m == MarketType::Futures,
    {
        MarketType::Futures
    }

    /// Its endpoint.
    pub fn base_url(&self) -> (u: &str)
        ensures
            u@ == self.creds().endpoint(),
    {
        self.credentials.base_url()
    }

    /// Its credentials.
    pub fn credentials(&self) -> (c: &ClientCredentials)
        ensures
            *c == self.creds(),
    {
        &self.credentials
    }

    /// The client order id of an order created at `now_ms`.
    pub fn generate_client_order_id(&self, now_ms: i64) -> (id: String)
        ensures
            id@ == client_order_id_text(now_ms),
    {
        client_order_id(now_ms)
    }
}

/// Query string of a new order on a market. LIMIT orders carry their price
/// and time in force when given; post-only orders ask for a full response on
/// the spot market and for `GTX` with a result response on futures.
pub open spec fn order_query_text(
    m: MarketType,
    symbol: Seq<char>,
    side: Seq<char>,
    order_type: Seq<char>,
    quantity: Seq<char>,
    price: Option<Seq<char>>,
    time_in_force: Option<Seq<char>>,
    post_only: bool,
    client_order_id: Seq<char>,
    timestamp_ms: i64,
) -> Seq<char> {
    let head = "symbol="@ + symbol + "&side="@ + side + "&type="@ + order_type + "&quantity="@
        + quantity + "&timestamp="@ + signed_decimal(timestamp_ms as int) + "&recvWindow=5000"@;
    let limit = if order_type == "LIMIT"@ {
        (if price is Some {
            "&price="@ + price->0
        } else {
            Seq::empty()
        }) + (if time_in_force is Some {
            "&timeInForce="@ + time_in_force->0
        } else {
            Seq::empty()
        })
    } else {
        Seq::empty()
    };
    let post = if post_only {
        match m {
            MarketType::Spot => "&newOrderRespType=FULL"@,
            MarketType::Futures => "&timeInForce=GTX"@ + "&newOrderRespType=RESULT"@,
        }
    } else {
        Seq::empty()
    };
    head + limit + post + "&newClientOrderId="@ + client_order_id
}

/// Post-only is the only switch that adds response and time-in-force
/// parameters of its own: without it the query is the same on both markets and
/// ends with the client order id right after the order's own parameters; with
/// it, the spot query inserts `&newOrderRespType=FULL` and the futures query
/// `&timeInForce=GTX&newOrderRespType=RESULT` just before the client order id.
/// A plain market order is its symbol, side, type, quantity, timestamp and
/// receive window, then the client order id, and nothing else.
pub proof fn lemma_order_query_post_only(
    symbol: Seq<char>,
    side: Seq<char>,
    order_type: Seq<char>,
    quantity: Seq<char>,
    price: Option<Seq<char>>,
    time_in_force: Option<Seq<char>>,
    client_order_id: Seq<char>,
    timestamp_ms: i64,
)
    ensures
        ({
            let tail = "&newClientOrderId="@ + client_order_id;
            let plain = order_query_text(
                MarketType::Spot,
                symbol,
                side,
                order_type,
                quantity,
                price,
                time_in_force,
                false,
                client_order_id,
                timestamp_ms,
            );
            let pre = plain.subrange(0, plain.len() - tail.len());
            &&& plain.len() >= tail.len()
            &&& plain == pre + tail
            &&& order_query_text(
                MarketType::Futures,
                symbol,
                side,
                order_type,
                quantity,
                price,
                time_in_force,
                false,
                client_order_id,
                timestamp_ms,
            ) == plain
            &&& order_query_text(
                MarketType::Spot,
                symbol,
                side,
                order_type,
                quantity,
                price,
                time_in_force,
                true,
                client_order_id,
                timestamp_ms,
            ) == pre + "&newOrderRespType=FULL"@ + tail
            &&& order_query_text(
                MarketType::Futures,
                symbol,
                side,
                order_type,
                quantity,
                price,
                time_in_force,
                true,
                client_order_id,
                timestamp_ms,
            ) == pre + "&timeInForce=GTX&newOrderRespType=RESULT"@ + tail
        }),
        order_type != "LIMIT"@ ==> order_query_text(
            MarketType::Futures,
            symbol,
            side,
            order_type,
            quantity,
            price,
            time_in_force,
            false,
            client_order_id,
            timestamp_ms,
        ) == "symbol="@ + symbol + "&side="@ + side + "&type="@ + order_type + "&quantity="@
            + quantity + "&timestamp="@ + signed_decimal(timestamp_ms as int)
            + "&recvWindow=5000&newClientOrderId="@ + client_order_id,
        (order_type == "LIMIT"@ && price is Some && time_in_force is Some) ==> order_query_text(
            MarketType::Spot,
            symbol,
            side,
            order_type,
            quantity,
            price,
            time_in_force,
            false,
            client_order_id,
            timestamp_ms,
        ) == "symbol="@ + symbol + "&side="@ + side + "&type="@ + order_type + "&quantity="@
            + quantity + "&timestamp="@ + signed_decimal(timestamp_ms as int)
            + "&recvWindow=5000&price="@ + price->0 + "&timeInForce="@ + time_in_force->0
            + "&newClientOrderId="@ + client_order_id,
{
    reveal_strlit("&timeInForce=GTX");
    reveal_strlit("&price=");
    reveal_strlit("&recvWindow=5000&price=");
    reveal_strlit("&newOrderRespType=RESULT");
    reveal_strlit("&timeInForce=GTX&newOrderRespType=RESULT");
    reveal_strlit("&recvWindow=5000");
    reveal_strlit("&newClientOrderId=");
    reveal_strlit("&recvWindow=5000&newClientOrderId=");
    let tail = "&newClientOrderId="@ + client_order_id;
    let head = "symbol="@ + symbol + "&side="@ + side + "&type="@ + order_type + "&quantity="@
        + quantity + "&timestamp="@ + signed_decimal(timestamp_ms as int) + "&recvWindow=5000"@;
    let limit = if order_type == "LIMIT"@ {
        (if price is Some {
            "&price="@ + price->0
        } else {
            Seq::empty()
        }) + (if time_in_force is Some {
            "&timeInForce="@ + time_in_force->0
        } else {
            Seq::empty()
        })
    } else {
        Seq::empty()
    };
    let plain = order_query_text(
        MarketType::Spot,
        symbol,
        side,
        order_type,
        quantity,
        price,
        time_in_force,
        false,
        client_order_id,
        timestamp_ms,
    );
    assert(plain =~= (head + limit) + tail);
    let pre = plain.subrange(0, plain.len() - tail.len());
    assert(pre =~= head + limit);
    assert("&timeInForce=GTX"@ + "&newOrderRespType=RESULT"@ =~= "&timeInForce=GTX&newOrderRespType=RESULT"@);
    assert("&recvWindow=5000"@ + "&newClientOrderId="@ =~= "&recvWindow=5000&newClientOrderId="@);
    assert(order_query_text(
        MarketType::Spot,
        symbol,
        side,
        order_type,
        quantity,
        price,
        time_in_force,
        true,
        client_order_id,
        timestamp_ms,
    ) =~= pre + "&newOrderRespType=FULL"@ + tail);
    assert(order_query_text(
        MarketType::Futures,
        symbol,
        side,
        order_type,
        quantity,
        price,
        time_in_force,
        true,
        client_order_id,
        timestamp_ms,
    ) =~= pre + "&timeInForce=GTX&newOrderRespType=RESULT"@ + tail);
    assert(order_query_text(
        MarketType::Futures,
        symbol,
        side,
        order_type,
        quantity,
        price,
        time_in_force,
        false,
        client_order_id,
        timestamp_ms,
    ) =~= plain);
    if order_type == "LIMIT"@ && price is Some && time_in_force is Some {
        assert("&recvWindow=5000"@ + "&price="@ =~= "&recvWindow=5000&price="@);
        assert(plain =~= "symbol="@ + symbol + "&side="@ + side + "&type="@ + order_type
            + "&quantity="@ + quantity + "&timestamp="@ + signed_decimal(timestamp_ms as int)
            + "&recvWindow=5000&price="@ + price->0 + "&timeInForce="@ + time_in_force->0
            + "&newClientOrderId="@ + client_order_id);
    }
    if order_type != "LIMIT"@ {
        assert(plain =~= "symbol="@ + symbol + "&side="@ + side + "&type="@ + order_type
            + "&quantity="@ + quantity + "&timestamp="@ + signed_decimal(timestamp_ms as int)
            + "&recvWindow=5000&newClientOrderId="@ + client_order_id);
    }
}

/// The view of an optional string.
pub open spec fn opt_view(o: Option<&str>) -> Option<Seq<char>> {
    match o {
        Some(s) => Some(s@),
        None => None,
    }
}

/// Builds the query string of a new order. Amounts are given as decimal text.
pub fn order_query(
    m: MarketType,
    symbol: &str,
    side: &str,
    order_type: &str,
    quantity: &str,
    price: Option<&str>,
    time_in_force: Option<&str>,
    post_only: bool,
    client_order_id: &str,
    timestamp_ms: i64,
) -> (q: String)
    ensures
        q@ == order_query_text(
            m,
            symbol@,
            side@,
            order_type@,
            quantity@,
            opt_view(price),
            opt_view(time_in_force),
            post_only,
            client_order_id@,
            timestamp_ms,
        ),
{
    let ts = i64_to_string(timestamp_ms);
    let mut q = String::from_str("symbol=");
    q.append(symbol);
    q.append("&side=");
    q.append(side);
    q.append("&type=");
    q.append(order_type);
    q.append("&quantity=");
    q.append(quantity);
    q.append("&timestamp=");
    q.append(ts.as_str());
    q.append("&recvWindow=5000");
    let ghost head = q@;
    let mut limit = String::new();
    if str_eq(order_type, "LIMIT") {
        match price {
            Some(p) => {
                limit.append("&price=");
                limit.append(p);
            },
            None => {},
        }
        let ghost mid = limit@;
        match time_in_force {
            Some(t) => {
                limit.append("&timeInForce=");
                limit.append(t);
            },
            None => {},
        }
        proof {
            let pv = opt_view(price);
            let tv = opt_view(time_in_force);
            let pp: Seq<char> = if pv is Some {
                "&price="@ + pv->0
            } else {
                Seq::empty()
            };
            let tt: Seq<char> = if tv is Some {
                "&timeInForce="@ + tv->0
            } else {
                Seq::empty()
            };
            assert(mid =~= pp);
            assert(limit@ =~= pp + tt);
        }
    }
    q.append(limit.as_str());
    let ghost with_limit = q@;
    let mut post = String::new();
    if post_only {
        match m {
            MarketType::Spot => {
                post.append("&newOrderRespType=FULL");
            },
            MarketType::Futures => {
                post.append("&timeInForce=GTX");
                post.append("&newOrderRespType=RESULT");
            },
        }
    }
    q.append(post.as_str());
    q.append("&newClientOrderId=");
    q.append(client_order_id);
    proof {
        assert(post@ =~= (if post_only {
            match m {
                MarketType::Spot => "&newOrderRespType=FULL"@,
                MarketType::Futures => "&timeInForce=GTX"@ + "&newOrderRespType=RESULT"@,
            }
        } else {
            Seq::<char>::empty()
        }));
    }
    q
}

/// Query string of an order cancellation.
pub open spec fn cancel_query_text(symbol: Seq<char>, order_id: Seq<char>, timestamp_ms: i64) -> Seq<char> {
    "symbol="@ + symbol + "&orderId="@ + order_id + "&timestamp="@ + signed_decimal(
        timestamp_ms as int,
    ) + "&recvWindow=5000"@
}

/// Builds the query string that cancels an order.
pub fn cancel_query(symbol: &str, order_id: &str, timestamp_ms: i64) -> (q: String)
    ensures
        q@ == cancel_query_text(symbol@, order_id@, timestamp_ms),
{
    let ts = i64_to_string(timestamp_ms);
    let mut q = String::from_str("symbol=");
    q.append(symbol);
    q.append("&orderId=");
    q.append(order_id);
    q.append("&timestamp=");
    q.append(ts.as_str());
    q.append("&recvWindow=5000");
    q
}

/// Query string of an account or position read.
pub open spec fn account_query_text(timestamp_ms: i64) -> Seq<char> {
    "timestamp="@ + signed_decimal(timestamp_ms as int) + "&recvWindow=5000"@
}

/// Builds the query string of an account, balance or position read.
pub fn account_query(timestamp_ms: i64) -> (q: String)
    ensures
        q@ == account_query_text(timestamp_ms),
{
    let ts = i64_to_string(timestamp_ms);
    let mut q = String::from_str("timestamp=");
    q.append(ts.as_str());
    q.append("&recvWindow=5000");
    q
}

// ---------------------------------------------------------------------------
// Order placement retries

/// Most retries of one order placement.
pub const MAX_PLACE_ATTEMPTS: u32 = 3;

/// What a placement attempt returned.
#[derive(Debug, Clone, Copy, PartialEq, Eq, Structural)]
pub enum PlaceOutcome {
    /// The exchange accepted the order; `expired` when its status is EXPIRED.
    Placed { expired: bool },
    /// The request failed.
    Failed,
}

/// What to do after a placement attempt.
#[derive(Debug, Clone, Copy, PartialEq, Eq, Structural)]
pub enum PlaceStep {
    /// Stop: the order is placed.
    Done,
    /// Stop: the last failure is returned.
    GiveUp,
    /// Wait `delay_ms`, then try again with the retry count `attempts`.
    Retry { attempts: u32, delay_ms: u64 },
}

/// The retry policy of order placement: an expired order is retried after
/// 100 ms and a failed request after 500 ms, at most three times in all.
pub open spec fn place_step_spec(attempts: u32, outcome: PlaceOutcome) -> PlaceStep {
    match outcome {
        PlaceOutcome::Placed { expired } => {
            if expired && attempts < 3 {
                PlaceStep::Retry { attempts: (attempts + 1) as u32, delay_ms: 100 }
            } else {
                PlaceStep::Done
            }
        },
        PlaceOutcome::Failed => {
            if attempts >= 3 {
                PlaceStep::GiveUp
            } else {
                PlaceStep::Retry { attempts: (attempts + 1) as u32, delay_ms: 500 }
            }
        },
    }
}

/// Decides the next step after a placement attempt made with retry count `attempts`.
pub fn next_place_step(attempts: u32, outcome: PlaceOutcome) -> (step: PlaceStep)
    ensures
        step == place_step_spec(attempts, outcome),
{
    match outcome {
        PlaceOutcome::Placed { expired } => {
            if expired && attempts < MAX_PLACE_ATTEMPTS {
                PlaceStep::Retry { attempts: attempts + 1, delay_ms: 100 }
            } else {
                PlaceStep::Done
            }
        },
        PlaceOutcome::Failed => {
            if attempts >= MAX_PLACE_ATTEMPTS {
                PlaceStep::GiveUp
            } else {
                PlaceStep::Retry { attempts: attempts + 1, delay_ms: 500 }
            }
        },
    }
}

/// Starting from no retry, the retry count never passes three, so one order
/// is sent at most four times.
pub proof fn lemma_place_retries_bounded(attempts: u32, outcome: PlaceOutcome)
    requires
        attempts <= 3,
    ensures
        place_step_spec(attempts, outcome) matches PlaceStep::Retry { attempts: a, .. } ==> a
            <= 3 && a == attempts + 1,
{
}

} // verus!
