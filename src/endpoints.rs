//! The endpoints of the API: for each, the method, the path, the query
//! parameters built from typed values, and whether it is authenticated.
use vstd::prelude::*;
use vstd::string::*;
use crate::decimal::{dec_of, decimal_string, Decimal};
use crate::types::{
    params_view, push_param, BaseOrderType, CoinPair, Currency, OrderType, Pagination, Params,
};
use crate::request::HttpMethod;

verus! {

pub open spec fn owned_params_view(p: Option<Params>) -> Option<Seq<(Seq<char>, Seq<char>)>> {
    match p {
        Some(v) => Some(params_view(v@)),
        None => None,
    }
}

/// One call of the API, before it is built into a request.
#[derive(Debug, PartialEq, Eq)]
pub struct ApiRequest {
    pub method: HttpMethod,
    pub path: String,
    pub params: Option<Params>,
    pub use_auth: bool,
}

impl ApiRequest {
    /// Whether this call has the given method, path, parameters and auth flag.
    pub open spec fn is_call(
        self,
        method: HttpMethod,
        path: Seq<char>,
        params: Option<Seq<(Seq<char>, Seq<char>)>>,
        use_auth: bool,
    ) -> bool {
        &&& self.method == method
        &&& self.path@ == path
        &&& owned_params_view(self.params) == params
        &&& self.use_auth == use_auth
    }
}

fn call(method: HttpMethod, path: &str, params: Option<Params>, use_auth: bool) -> (r: ApiRequest)
    ensures
        r.method == method,
        r.path@ == path@,
        r.params == params,
        r.use_auth == use_auth,
{
    ApiRequest { method, path: path.to_owned(), params, use_auth }
}

/// The market data endpoints; none is authenticated.
pub struct Public;

impl Public {
    /// `GET /api/ticker`.
    pub fn ticker() -> (r: ApiRequest)
        ensures
            r.is_call(HttpMethod::Get, "/api/ticker"@, None, false),
    {
        call(HttpMethod::Get, "/api/ticker", None, false)
    }

    /// `GET /api/trades` for a pair.
    pub fn trades(pair: &CoinPair) -> (r: ApiRequest)
        ensures
            r.is_call(HttpMethod::Get, "/api/trades"@, Some(seq![("pair"@, pair.spec_str())]), false),
    {
        let mut p: Params = Vec::new();
        push_param(&mut p, "pair", pair.as_str().to_owned());
        assert(params_view(p@) =~= seq![("pair"@, pair.spec_str())]);
        call(HttpMethod::Get, "/api/trades", Some(p), false)
    }

    /// `GET /api/order_books`.
    pub fn order_book() -> (r: ApiRequest)
        ensures
            r.is_call(HttpMethod::Get, "/api/order_books"@, None, false),
    {
        call(HttpMethod::Get, "/api/order_books", None, false)
    }

    /// `GET /api/exchange/orders/rate` for an amount of the coin.
    pub fn order_rate_from_amount(order_type: &BaseOrderType, pair: &CoinPair, amount: Decimal) -> (r:
        ApiRequest)
        ensures
            r.is_call(
                HttpMethod::Get,
                "/api/exchange/orders/rate"@,
                Some(
                    seq![
                        ("order_type"@, order_type.spec_str()),
                        ("pair"@, pair.spec_str()),
                        ("amount"@, amount.spec_text()),
                    ],
                ),
                false,
            ),
    {
        let mut p: Params = Vec::new();
        push_param(&mut p, "order_type", order_type.as_str().to_owned());
        push_param(&mut p, "pair", pair.as_str().to_owned());
        push_param(&mut p, "amount", amount.to_text());
        assert(params_view(p@) =~= seq![
            ("order_type"@, order_type.spec_str()),
            ("pair"@, pair.spec_str()),
            ("amount"@, amount.spec_text()),
        ]);
        call(HttpMethod::Get, "/api/exchange/orders/rate", Some(p), false)
    }

    /// `GET /api/exchange/orders/rate` for a price in yen.
    pub fn order_rate_from_price(order_type: &BaseOrderType, pair: &CoinPair, price: Decimal) -> (r:
        ApiRequest)
        ensures
            r.is_call(
                HttpMethod::Get,
                "/api/exchange/orders/rate"@,
                Some(
                    seq![
                        ("order_type"@, order_type.spec_str()),
                        ("pair"@, pair.spec_str()),
                        ("price"@, price.spec_text()),
                    ],
                ),
                false,
            ),
    {
        let mut p: Params = Vec::new();
        push_param(&mut p, "order_type", order_type.as_str().to_owned());
        push_param(&mut p, "pair", pair.as_str().to_owned());
        push_param(&mut p, "price", price.to_text());
        assert(params_view(p@) =~= seq![
            ("order_type"@, order_type.spec_str()),
            ("pair"@, pair.spec_str()),
            ("price"@, price.spec_text()),
        ]);
        call(HttpMethod::Get, "/api/exchange/orders/rate", Some(p), false)
    }

    /// `GET /api/rate/<pair>`.
    pub fn marketplace_buy_rate(pair: &CoinPair) -> (r: ApiRequest)
        ensures
            r.is_call(HttpMethod::Get, "/api/rate/"@ + pair.spec_str(), None, false),
    {
        let path = "/api/rate/".to_owned().concat(pair.as_str());
        ApiRequest { method: HttpMethod::Get, path, params: None, use_auth: false }
    }
}

/// The account endpoints; all are authenticated.
pub struct Account;

impl Account {
    /// `GET /api/accounts/balance`.
    pub fn balance() -> (r: ApiRequest)
        ensures
            r.is_call(HttpMethod::Get, "/api/accounts/balance"@, None, true),
    {
        call(HttpMethod::Get, "/api/accounts/balance", None, true)
    }

    /// `GET /api/send_money` for bitcoin.
    pub fn sends() -> (r: ApiRequest)
        ensures
            r.is_call(HttpMethod::Get, "/api/send_money"@, Some(seq![("currency"@, Currency::Btc.spec_str())]), true),
    {
        let mut p: Params = Vec::new();
        push_param(&mut p, "currency", Currency::Btc.as_str().to_owned());
        assert(params_view(p@) =~= seq![("currency"@, Currency::Btc.spec_str())]);
        call(HttpMethod::Get, "/api/send_money", Some(p), true)
    }

    /// `GET /api/deposit_money` for bitcoin.
    pub fn deposits() -> (r: ApiRequest)
        ensures
            r.is_call(HttpMethod::Get, "/api/deposit_money"@, Some(seq![("currency"@, Currency::Btc.spec_str())]), true),
    {
        let mut p: Params = Vec::new();
        push_param(&mut p, "currency", Currency::Btc.as_str().to_owned());
        assert(params_view(p@) =~= seq![("currency"@, Currency::Btc.spec_str())]);
        call(HttpMethod::Get, "/api/deposit_money", Some(p), true)
    }

    /// `GET /api/accounts`.
    pub fn info() -> (r: ApiRequest)
        ensures
            r.is_call(HttpMethod::Get, "/api/accounts"@, None, true),
    {
        call(HttpMethod::Get, "/api/accounts", None, true)
    }
}

/// The JPY withdrawal endpoints; all are authenticated.
pub struct WithdrawsJpy;

impl WithdrawsJpy {
    /// `GET /api/bank_accounts`.
    pub fn bank_accounts() -> (r: ApiRequest)
        ensures
            r.is_call(HttpMethod::Get, "/api/bank_accounts"@, None, true),
    {
        call(HttpMethod::Get, "/api/bank_accounts", None, true)
    }

    /// `GET /api/withdraws`.
    pub fn withdraws() -> (r: ApiRequest)
        ensures
            r.is_call(HttpMethod::Get, "/api/withdraws"@, None, true),
    {
        call(HttpMethod::Get, "/api/withdraws", None, true)
    }
}

/// The parameters of a new order: pair and order type, then the given
/// amounts in order.
pub open spec fn order_params_of(
    pair: CoinPair,
    order_type: OrderType,
    rest: Seq<(Seq<char>, Seq<char>)>,
) -> Seq<(Seq<char>, Seq<char>)> {
    seq![("pair"@, pair.spec_str()), ("order_type"@, order_type.spec_str())] + rest
}

/// The path that new orders are posted to.
pub open spec fn orders_path() -> Seq<char> {
    "/api/exchange/orders"@
}

fn order_params(pair: &CoinPair, order_type: OrderType) -> (r: Params)
    ensures
        params_view(r@) == order_params_of(*pair, order_type, Seq::empty()),
{
    let mut p: Params = Vec::new();
    push_param(&mut p, "pair", pair.as_str().to_owned());
    push_param(&mut p, "order_type", order_type.as_str().to_owned());
    assert(params_view(p@) =~= order_params_of(*pair, order_type, Seq::empty()));
    p
}

/// The order endpoints; all are authenticated.
pub struct Order;

impl Order {
    /// `POST /api/exchange/orders` with parameters of the caller's choosing.
    pub fn new_any(params: Params) -> (r: ApiRequest)
        ensures
            r.is_call(HttpMethod::Post, orders_path(), Some(params_view(params@)), true),
    {
        call(HttpMethod::Post, "/api/exchange/orders", Some(params), true)
    }

    /// A limit order to buy `amount` at `rate`.
    pub fn new_limit_buy(pair: &CoinPair, rate: Decimal, amount: Decimal) -> (r: ApiRequest)
        ensures
            r.is_call(
                HttpMethod::Post,
                orders_path(),
                Some(
                    order_params_of(
                        *pair,
                        OrderType::Limit(BaseOrderType::Buy),
                        seq![("rate"@, rate.spec_text()), ("amount"@, amount.spec_text())],
                    ),
                ),
                true,
            ),
    {
        let mut p = order_params(pair, OrderType::Limit(BaseOrderType::Buy));
        push_param(&mut p, "rate", rate.to_text());
        push_param(&mut p, "amount", amount.to_text());
        assert(params_view(p@) =~= order_params_of(
            *pair,
            OrderType::Limit(BaseOrderType::Buy),
            seq![("rate"@, rate.spec_text()), ("amount"@, amount.spec_text())],
        ));
        Order::new_any(p)
    }

    /// A limit order to sell `amount` at `rate`.
    pub fn new_limit_sell(pair: &CoinPair, rate: Decimal, amount: Decimal) -> (r: ApiRequest)
        ensures
            r.is_call(
                HttpMethod::Post,
                orders_path(),
                Some(
                    order_params_of(
                        *pair,
                        OrderType::Limit(BaseOrderType::Sell),
                        seq![("rate"@, rate.spec_text()), ("amount"@, amount.spec_text())],
                    ),
                ),
                true,
            ),
    {
        let mut p = order_params(pair, OrderType::Limit(BaseOrderType::Sell));
        push_param(&mut p, "rate", rate.to_text());
        push_param(&mut p, "amount", amount.to_text());
        assert(params_view(p@) =~= order_params_of(
            *pair,
            OrderType::Limit(BaseOrderType::Sell),
            seq![("rate"@, rate.spec_text()), ("amount"@, amount.spec_text())],
        ));
        Order::new_any(p)
    }

    /// A stop-limit order to buy `amount` at `rate` once the price reaches
    /// `stop_loss_rate`.
    pub fn new_stop_limit_buy(pair: &CoinPair, rate: Decimal, amount: Decimal, stop_loss_rate: Decimal) -> (r:
        ApiRequest)
        ensures
            r.is_call(
                HttpMethod::Post,
                orders_path(),
                Some(
                    order_params_of(
                        *pair,
                        OrderType::Limit(BaseOrderType::Buy),
                        seq![
                            ("rate"@, rate.spec_text()),
                            ("amount"@, amount.spec_text()),
                            ("stop_loss_rate"@, stop_loss_rate.spec_text()),
                        ],
                    ),
                ),
                true,
            ),
    {
        let mut p = order_params(pair, OrderType::Limit(BaseOrderType::Buy));
        push_param(&mut p, "rate", rate.to_text());
        push_param(&mut p, "amount", amount.to_text());
        push_param(&mut p, "stop_loss_rate", stop_loss_rate.to_text());
        assert(params_view(p@) =~= order_params_of(
            *pair,
            OrderType::Limit(BaseOrderType::Buy),
            seq![
                ("rate"@, rate.spec_text()),
                ("amount"@, amount.spec_text()),
                ("stop_loss_rate"@, stop_loss_rate.spec_text()),
            ],
        ));
        Order::new_any(p)
    }

    /// A stop-limit order to sell `amount` at `rate` once the price reaches
    /// `stop_loss_rate`.
    pub fn new_stop_limit_sell(pair: &CoinPair, rate: Decimal, amount: Decimal, stop_loss_rate: Decimal) -> (r:
        ApiRequest)
        ensures
            r.is_call(
                HttpMethod::Post,
                orders_path(),
                Some(
                    order_params_of(
                        *pair,
                        OrderType::Limit(BaseOrderType::Sell),
                        seq![
                            ("rate"@, rate.spec_text()),
                            ("amount"@, amount.spec_text()),
                            ("stop_loss_rate"@, stop_loss_rate.spec_text()),
                        ],
                    ),
                ),
                true,
            ),
    {
        let mut p = order_params(pair, OrderType::Limit(BaseOrderType::Sell));
        push_param(&mut p, "rate", rate.to_text());
        push_param(&mut p, "amount", amount.to_text());
        push_param(&mut p, "stop_loss_rate", stop_loss_rate.to_text());
        assert(params_view(p@) =~= order_params_of(
            *pair,
            OrderType::Limit(BaseOrderType::Sell),
            seq![
                ("rate"@, rate.spec_text()),
                ("amount"@, amount.spec_text()),
                ("stop_loss_rate"@, stop_loss_rate.spec_text()),
            ],
        ));
        Order::new_any(p)
    }

    /// A market order to buy for `amount_jpy` yen.
    pub fn new_market_buy(pair: &CoinPair, amount_jpy: Decimal) -> (r: ApiRequest)
        ensures
            r.is_call(
                HttpMethod::Post,
                orders_path(),
                Some(order_params_of(*pair, OrderType::MarketBuy, seq![("market_buy_amount"@, amount_jpy.spec_text())])),
                true,
            ),
    {
        let mut p = order_params(pair, OrderType::MarketBuy);
        push_param(&mut p, "market_buy_amount", amount_jpy.to_text());
        assert(params_view(p@) =~= order_params_of(
            *pair,
            OrderType::MarketBuy,
            seq![("market_buy_amount"@, amount_jpy.spec_text())],
        ));
        Order::new_any(p)
    }

    /// A market order to sell `amount` of the coin.
    pub fn new_market_sell(pair: &CoinPair, amount: Decimal) -> (r: ApiRequest)
        ensures
            r.is_call(
                HttpMethod::Post,
                orders_path(),
                Some(order_params_of(*pair, OrderType::MarketSell, seq![("amount"@, amount.spec_text())])),
                true,
            ),
    {
        let mut p = order_params(pair, OrderType::MarketSell);
        push_param(&mut p, "amount", amount.to_text());
        assert(params_view(p@) =~= order_params_of(*pair, OrderType::MarketSell, seq![("amount"@, amount.spec_text())]));
        Order::new_any(p)
    }

    /// A stop-market order to buy for `amount_jpy` yen once the price reaches
    /// `stop_loss_rate`.
    pub fn new_stop_market_buy(pair: &CoinPair, amount_jpy: Decimal, stop_loss_rate: Decimal) -> (r: ApiRequest)
        ensures
            r.is_call(
                HttpMethod::Post,
                orders_path(),
                Some(
                    order_params_of(
                        *pair,
                        OrderType::MarketBuy,
                        seq![
                            ("market_buy_amount"@, amount_jpy.spec_text()),
                            ("stop_loss_rate"@, stop_loss_rate.spec_text()),
                        ],
                    ),
                ),
                true,
            ),
    {
        let mut p = order_params(pair, OrderType::MarketBuy);
        push_param(&mut p, "market_buy_amount", amount_jpy.to_text());
        push_param(&mut p, "stop_loss_rate", stop_loss_rate.to_text());
        assert(params_view(p@) =~= order_params_of(
            *pair,
            OrderType::MarketBuy,
            seq![
                ("market_buy_amount"@, amount_jpy.spec_text()),
                ("stop_loss_rate"@, stop_loss_rate.spec_text()),
            ],
        ));
        Order::new_any(p)
    }

    /// A stop-market order to sell `amount` of the coin once the price
    /// reaches `stop_loss_rate`.
    pub fn new_stop_market_sell(pair: &CoinPair, amount: Decimal, stop_loss_rate: Decimal) -> (r: ApiRequest)
        ensures
            r.is_call(
                HttpMethod::Post,
                orders_path(),
                Some(
                    order_params_of(
                        *pair,
                        OrderType::MarketSell,
                        seq![("amount"@, amount.spec_text()), ("stop_loss_rate"@, stop_loss_rate.spec_text())],
                    ),
                ),
                true,
            ),
    {
        let mut p = order_params(pair, OrderType::MarketSell);
        push_param(&mut p, "amount", amount.to_text());
        push_param(&mut p, "stop_loss_rate", stop_loss_rate.to_text());
        assert(params_view(p@) =~= order_params_of(
            *pair,
            OrderType::MarketSell,
            seq![("amount"@, amount.spec_text()), ("stop_loss_rate"@, stop_loss_rate.spec_text())],
        ));
        Order::new_any(p)
    }

    /// `GET /api/exchange/orders/opens`.
    pub fn opens() -> (r: ApiRequest)
        ensures
            r.is_call(HttpMethod::Get, "/api/exchange/orders/opens"@, None, true),
    {
        call(HttpMethod::Get, "/api/exchange/orders/opens", None, true)
    }

    /// `DELETE /api/exchange/orders/<id>`.
    pub fn cancel(id: u64) -> (r: ApiRequest)
        ensures
            r.is_call(HttpMethod::Delete, "/api/exchange/orders/"@ + dec_of(id as nat), None, true),
    {
        let path = "/api/exchange/orders/".to_owned().concat(decimal_string(id as u128).as_str());
        ApiRequest { method: HttpMethod::Delete, path, params: None, use_auth: true }
    }

    /// `GET /api/exchange/orders/cancel_status` for an order.
    pub fn cancel_status(id: u64) -> (r: ApiRequest)
        ensures
            r.is_call(
                HttpMethod::Get,
                "/api/exchange/orders/cancel_status"@,
                Some(seq![("id"@, dec_of(id as nat))]),
                true,
            ),
    {
        let mut p: Params = Vec::new();
        push_param(&mut p, "id", decimal_string(id as u128));
        assert(params_view(p@) =~= seq![("id"@, dec_of(id as nat))]);
        call(HttpMethod::Get, "/api/exchange/orders/cancel_status", Some(p), true)
    }

    /// `GET /api/exchange/orders/transactions`.
    pub fn transactions() -> (r: ApiRequest)
        ensures
            r.is_call(HttpMethod::Get, "/api/exchange/orders/transactions"@, None, true),
    {
        call(HttpMethod::Get, "/api/exchange/orders/transactions", None, true)
    }

    /// `GET /api/exchange/orders/transactions_pagination` for one page.
    pub fn transactions_pagination(pagination: &Pagination) -> (r: ApiRequest)
        ensures
            r.is_call(
                HttpMethod::Get,
                "/api/exchange/orders/transactions_pagination"@,
                Some(pagination.spec_params()),
                true,
            ),
    {
        call(HttpMethod::Get, "/api/exchange/orders/transactions_pagination", Some(pagination.to_params()), true)
    }
}

} // verus!
