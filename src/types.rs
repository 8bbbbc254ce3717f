//! Parameter values of the API and the request parameters built from them.
use vstd::prelude::*;
use vstd::string::*;
use crate::decimal::{dec_of, decimal_string, signed_dec_of, signed_decimal_string};

verus! {

/// Currency.
#[derive(Debug, Clone, Copy, PartialEq, Eq, Structural)]
pub enum Currency {
    Jpy,
    Btc,
}

impl Currency {
    pub open spec fn spec_str(self) -> Seq<char> {
        match self {
            Currency::Jpy => "JPY"@,
            Currency::Btc => "BTC"@,
        }
    }

    pub fn as_str(&self) -> (r: &'static str)
        ensures
            r@ == self.spec_str(),
    {
        match self {
            Currency::Jpy => "JPY",
            Currency::Btc => "BTC",
        }
    }
}

/// Trading pair.
#[derive(Debug, Clone, Copy, PartialEq, Eq, Structural)]
pub enum CoinPair {
    BtcJpy,
    EtcJpy,
    FctJpy,
    MonaJpy,
    PltJpy,
}

impl CoinPair {
    pub open spec fn spec_str(self) -> Seq<char> {
        match self {
            CoinPair::BtcJpy => "btc_jpy"@,
            CoinPair::EtcJpy => "etc_jpy"@,
            CoinPair::FctJpy => "fct_jpy"@,
            CoinPair::MonaJpy => "mona_jpy"@,
            CoinPair::PltJpy => "plt_jpy"@,
        }
    }

    pub fn as_str(&self) -> (r: &'static str)
        ensures
            r@ == self.spec_str(),
    {
        match self {
            CoinPair::BtcJpy => "btc_jpy",
            CoinPair::EtcJpy => "etc_jpy",
            CoinPair::FctJpy => "fct_jpy",
            CoinPair::MonaJpy => "mona_jpy",
            CoinPair::PltJpy => "plt_jpy",
        }
    }
}

/// Side of an order: buy or sell.
#[derive(Debug, Clone, Copy, PartialEq, Eq, Structural)]
pub enum BaseOrderType {
    Buy,
    Sell,
}

impl BaseOrderType {
    pub open spec fn spec_str(self) -> Seq<char> {
        match self {
            BaseOrderType::Buy => "buy"@,
            BaseOrderType::Sell => "sell"@,
        }
    }

    pub fn as_str(&self) -> (r: &'static str)
        ensures
            r@ == self.spec_str(),
    {
        match self {
            BaseOrderType::Buy => "buy",
            BaseOrderType::Sell => "sell",
        }
    }
}

/// How an order is placed.
#[derive(Debug, Clone, Copy, PartialEq, Eq, Structural)]
pub enum OrderType {
    Limit(BaseOrderType),
    MarketBuy,
    MarketSell,
}

impl OrderType {
    pub open spec fn spec_str(self) -> Seq<char> {
        match self {
            OrderType::Limit(base) => base.spec_str(),
            OrderType::MarketBuy => "market_buy"@,
            OrderType::MarketSell => "market_sell"@,
        }
    }

    pub fn as_str(&self) -> (r: &'static str)
        ensures
            r@ == self.spec_str(),
    {
        match self {
            OrderType::Limit(base) => base.as_str(),
            OrderType::MarketBuy => "market_buy",
            OrderType::MarketSell => "market_sell",
        }
    }
}

/// Sort order of a listing.
#[derive(Debug, Clone, Copy, PartialEq, Eq, Structural)]
pub enum SortOrder {
    Asc,
    Desc,
}

/// The text was neither `asc` nor `desc`.
#[derive(Debug, Clone, Copy, PartialEq, Eq, Structural)]
pub struct UnknownSortOrder;

/// Whether two texts hold the same characters.
fn same_text(a: &str, b: &str) -> (r: bool)
    ensures
        r == (a@ == b@),
{
    let n = a.unicode_len();
    if n != b.unicode_len() {
        return false;
    }
    let mut i: usize = 0;
    while i < n
        invariant
            n == a@.len(),
            n == b@.len(),
            i <= n,
            a@.subrange(0, i as int) == b@.subrange(0, i as int),
        decreases n - i,
    {
        if a.get_char(i) != b.get_char(i) {
            return false;
        }
        assert(a@.subrange(0, i + 1) =~= a@.subrange(0, i as int).push(a@[i as int]));
        assert(b@.subrange(0, i + 1) =~= b@.subrange(0, i as int).push(b@[i as int]));
        i = i + 1;
    }
    assert(a@ =~= a@.subrange(0, n as int));
    assert(b@ =~= b@.subrange(0, n as int));
    true
}

impl SortOrder {
    pub open spec fn spec_str(self) -> Seq<char> {
        match self {
            SortOrder::Asc => "asc"@,
            SortOrder::Desc => "desc"@,
        }
    }

    /// The sort order whose text is `s`, if there is one.
    pub open spec fn spec_parse(s: Seq<char>) -> Option<SortOrder> {
        if s == "asc"@ {
            Some(SortOrder::Asc)
        } else if s == "desc"@ {
            Some(SortOrder::Desc)
        } else {
            None
        }
    }

    pub fn as_str(&self) -> (r: &'static str)
        ensures
            r@ == self.spec_str(),
    {
        match self {
            SortOrder::Asc => "asc",
            SortOrder::Desc => "desc",
        }
    }

    /// Reads a sort order from its text: `asc` or `desc`, nothing else.
    pub fn parse(s: &str) -> (r: Result<SortOrder, UnknownSortOrder>)
        ensures
            r == (match SortOrder::spec_parse(s@) {
                Some(o) => Ok(o),
                None => Err(UnknownSortOrder),
            }),
    {
        if same_text(s, SortOrder::Asc.as_str()) {
            Ok(SortOrder::Asc)
        } else if same_text(s, SortOrder::Desc.as_str()) {
            Ok(SortOrder::Desc)
        } else {
            Err(UnknownSortOrder)
        }
    }

    /// The text of the sort order, as an owned string.
    pub fn to_string(&self) -> (r: String)
        ensures
            r@ == self.spec_str(),
    {
        self.as_str().to_owned()
    }
}

impl std::str::FromStr for SortOrder {
    type Err = UnknownSortOrder;

    fn from_str(s: &str) -> Result<SortOrder, UnknownSortOrder> {
        SortOrder::parse(s)
    }
}

/// Writing a sort order as text and reading it back gives the same order;
/// a text that is neither `asc` nor `desc` reads as no order.
pub proof fn lemma_sort_order_round_trip(o: SortOrder, s: Seq<char>)
    ensures
        SortOrder::spec_parse(o.spec_str()) == Some(o),
        s != "asc"@ && s != "desc"@ ==> SortOrder::spec_parse(s) is None,
        SortOrder::spec_parse(s) matches Some(p) ==> p.spec_str() == s,
{
    reveal_strlit("asc");
    reveal_strlit("desc");
    assert("asc"@.len() != "desc"@.len());
}

/// Query parameters of a request: key and value pairs, in the order they are
/// sent.
pub type Params = Vec<(String, String)>;

/// The characters of each key and value.
pub open spec fn params_view(p: Seq<(String, String)>) -> Seq<(Seq<char>, Seq<char>)> {
    p.map_values(|kv: (String, String)| (kv.0@, kv.1@))
}

/// Appends one parameter.
pub fn push_param(p: &mut Params, key: &str, value: String)
    ensures
        params_view(final(p)@) == params_view(old(p)@).push((key@, value@)),
{
    p.push((key.to_owned(), value));
    assert(params_view(p@) =~= params_view(old(p)@).push((key@, value@)));
}

/// A page of a listing: how many records, in which order, and which record
/// the page starts after or ends before.
#[derive(Debug, Clone, Copy, PartialEq, Eq, Structural)]
pub struct Pagination {
    pub limit: i32,
    pub order: SortOrder,
    pub starting_after: Option<u64>,
    pub ending_before: Option<u64>,
}

impl Pagination {
    /// The query parameters of a page: `limit` and `order`, then
    /// `starting_after` and `ending_before` where they are set.
    pub open spec fn spec_params(self) -> Seq<(Seq<char>, Seq<char>)> {
        let base = seq![("limit"@, signed_dec_of(self.limit as int)), ("order"@, self.order.spec_str())];
        let with_after = match self.starting_after {
            Some(a) => base.push(("starting_after"@, dec_of(a as nat))),
            None => base,
        };
        match self.ending_before {
            Some(b) => with_after.push(("ending_before"@, dec_of(b as nat))),
            None => with_after,
        }
    }

    /// The query parameters of this page.
    pub fn to_params(&self) -> (r: Params)
        ensures
            params_view(r@) == self.spec_params(),
    {
        let mut p: Params = Vec::new();
        push_param(&mut p, "limit", signed_decimal_string(self.limit as i64));
        push_param(&mut p, "order", self.order.to_string());
        if let Some(a) = self.starting_after {
            push_param(&mut p, "starting_after", decimal_string(a as u128));
        }
        if let Some(b) = self.ending_before {
            push_param(&mut p, "ending_before", decimal_string(b as u128));
        }
        assert(params_view(p@) =~= self.spec_params());
        p
    }
}

} // verus!
