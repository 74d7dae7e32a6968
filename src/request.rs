use vstd::prelude::*;

use crate::date::Date;
use crate::error::Error;
use crate::region::PriceRegion;

verus! {

#[verifier::external_type_specification]
#[verifier::external_body]
pub struct ExUrl(url::Url);

/// Whether `url::Url::parse` accepts a text.
pub uninterp spec fn parses_as_url(text: Seq<char>) -> bool;

/// Relies on url::Url::parse: whether a text is accepted depends on the text alone.
#[verifier::external_body]
fn parse_url(text: &str) -> (r: Result<url::Url, url::ParseError>)
    ensures
        r is Ok <==> parses_as_url(text@),
{
    url::Url::parse(text)
}

/// The year of the earliest day that the price source covers.
pub const MIN_YEAR: i32 = 2021;

/// The month of the earliest day that the price source covers.
pub const MIN_MONTH: u32 = 12;

/// The day of the earliest day that the price source covers.
pub const MIN_DAY: u32 = 1;

/// A date strictly before the earliest day that the price source covers.
pub open spec fn before_min_date(d: (int, int, int)) -> bool {
    ||| d.0 < MIN_YEAR
    ||| d.0 == MIN_YEAR && d.1 < MIN_MONTH
    ||| d.0 == MIN_YEAR && d.1 == MIN_MONTH && d.2 < MIN_DAY
}

/// The root that request paths are resolved against.
pub open spec fn api_root() -> Seq<char> {
    "https://www.hvakosterstrommen.no/api/v1/prices/"@
}

/// The decimal digit for `n` (0 to 9).
pub open spec fn digit_char(n: int) -> char {
    seq!['0', '1', '2', '3', '4', '5', '6', '7', '8', '9'][n]
}

/// The decimal numeral of `n`, without leading zeros.
pub open spec fn decimal(n: nat) -> Seq<char>
    decreases n,
{
    if n < 10 {
        seq![digit_char(n as int)]
    } else {
        decimal(n / 10).push(digit_char((n % 10) as int))
    }
}

/// The numeral of a year: its decimal digits, with a minus sign where it is negative.
pub open spec fn year_text(y: int) -> Seq<char> {
    if y < 0 {
        seq!['-'] + decimal((-y) as nat)
    } else {
        decimal(y as nat)
    }
}

/// The two-digit numeral of `n` (0 to 99), with a leading zero below ten.
pub open spec fn two_digits(n: int) -> Seq<char> {
    seq![digit_char(n / 10), digit_char(n % 10)]
}

/// The path of a day's prices in a region: `{year}/{MM}-{DD}_{region}.json`.
pub open spec fn endpoint_spec(d: (int, int, int), region: PriceRegion) -> Seq<char> {
    year_text(d.0) + seq!['/'] + two_digits(d.1) + seq!['-'] + two_digits(d.2) + seq!['_']
        + region.token_spec() + seq!['.', 'j', 's', 'o', 'n']
}

/// A status of the success class.
pub open spec fn is_success(status: int) -> bool {
    200 <= status <= 299
}

/// A status of the class that the price source answers with when it has no prices.
pub open spec fn is_client_error(status: int) -> bool {
    400 <= status <= 499
}

fn digit_str(n: u32) -> (r: &'static str)
    requires
        n < 10,
    ensures
        r@ == seq![digit_char(n as int)],
{
    let r = match n {
        0 => "0",
        1 => "1",
        2 => "2",
        3 => "3",
        4 => "4",
        5 => "5",
        6 => "6",
        7 => "7",
        8 => "8",
        _ => "9",
    };
    proof {
        reveal_strlit("0");
        reveal_strlit("1");
        reveal_strlit("2");
        reveal_strlit("3");
        reveal_strlit("4");
        reveal_strlit("5");
        reveal_strlit("6");
        reveal_strlit("7");
        reveal_strlit("8");
        reveal_strlit("9");
    }
    assert(r@ =~= seq![digit_char(n as int)]);
    r
}

fn push_decimal(out: &mut String, n: u32)
    ensures
        final(out)@ == old(out)@ + decimal(n as nat),
    decreases n,
{
    if n >= 10 {
        push_decimal(out, n / 10);
    }
    out.append(digit_str(n % 10));
    assert(final(out)@ =~= old(out)@ + decimal(n as nat));
}

fn push_two_digits(out: &mut String, n: u32)
    requires
        n < 100,
    ensures
        final(out)@ == old(out)@ + two_digits(n as int),
{
    out.append(digit_str(n / 10));
    out.append(digit_str(n % 10));
    assert(final(out)@ =~= old(out)@ + two_digits(n as int));
}

fn push_literal(out: &mut String, s: &str)
    ensures
        final(out)@ == old(out)@ + s@,
{
    out.append(s);
}

/// The path, relative to the price source's root, of the prices of `date` in `region`.
pub fn endpoint(date: &Date, region: PriceRegion) -> (r: String)
    ensures
        r@ == endpoint_spec(date@, region),
{
    let mut out = String::new();
    let year = date.year();
    if year < 0 {
        push_literal(&mut out, "-");
        proof { reveal_strlit("-"); }
        push_decimal(&mut out, (0i64 - year as i64) as u32);
    } else {
        push_decimal(&mut out, year as u32);
    }
    assert(out@ =~= year_text(date@.0));
    push_literal(&mut out, "/");
    push_two_digits(&mut out, date.month());
    push_literal(&mut out, "-");
    push_two_digits(&mut out, date.day());
    push_literal(&mut out, "_");
    push_literal(&mut out, region.token());
    push_literal(&mut out, ".json");
    proof {
        reveal_strlit("/");
        reveal_strlit("-");
        reveal_strlit("_");
        reveal_strlit(".json");
    }
    assert(out@ =~= endpoint_spec(date@, region));
    out
}

/// The request side of the price source: which address holds a day's prices,
/// and what the answer's status means.
#[derive(Debug)]
pub struct Strompris {
    base_url: String,
}

impl Strompris {
    #[verifier::type_invariant]
    spec fn inv(self) -> bool {
        self.base_url@ == api_root()
    }

    pub fn new() -> (r: Strompris) {
        let base_url = String::from_str("https://www.hvakosterstrommen.no/api/v1/prices/");
        Strompris { base_url }
    }

    /// Whether `date` is on or after the earliest day that the price source covers.
    pub fn date_after_min_date(&self, date: &Date) -> (r: bool)
        ensures
            r == !before_min_date(date@),
    {
        let year = date.year();
        let month = date.month();
        let day = date.day();
        if year != MIN_YEAR {
            year > MIN_YEAR
        } else if month != MIN_MONTH {
            month > MIN_MONTH
        } else {
            day >= MIN_DAY
        }
    }

    /// The full address of the prices of `date` in `region`; dates before the
    /// earliest covered day are refused before anything is sent.
    pub fn request_address(&self, date: &Date, region: PriceRegion) -> (r: Result<String, Error>)
        ensures
            before_min_date(date@) <==> r is Err,
            r matches Err(e) ==> e is DateTooEarly,
            r matches Ok(s) ==> s@ == api_root() + endpoint_spec(date@, region),
    {
        if !self.date_after_min_date(date) {
            return Err(Error::DateTooEarly);
        }
        proof { use_type_invariant(self); }
        let mut address = self.base_url.clone();
        let path = endpoint(date, region);
        push_literal(&mut address, path.as_str());
        Ok(address)
    }

    /// The URL of the prices of `date` in `region`, to be fetched with a GET.
    pub fn request_url(&self, date: &Date, region: PriceRegion) -> (r: Result<url::Url, Error>)
        ensures
            before_min_date(date@) ==> r matches Err(Error::DateTooEarly),
            !before_min_date(date@) ==> (r is Ok <==> parses_as_url(
                api_root() + endpoint_spec(date@, region),
            )),
            !before_min_date(date@) ==> (r matches Err(e) ==> e is InvalidUrl),
    {
        match self.request_address(date, region) {
            Err(e) => Err(e),
            Ok(address) => match parse_url(address.as_str()) {
                Ok(u) => Ok(u),
                Err(e) => Err(Error::InvalidUrl(e)),
            },
        }
    }

    /// What the answer's HTTP status means: success means the body holds the
    /// prices, a client error says that the price source has no prices for the
    /// requested date, and any other status is a failure of the transport.
    pub fn check_status(status: u16) -> (r: Result<(), Error>)
        ensures
            r is Ok <==> is_success(status as int),
            r matches Err(e) ==> (e is PricesUnavailable <==> is_client_error(status as int)),
            r matches Err(e) ==> (e is UnexpectedStatus <==> !is_client_error(status as int)),
            r matches Err(Error::UnexpectedStatus(s)) ==> s == status,
    {
        if 200 <= status && status <= 299 {
            Ok(())
        } else if 400 <= status && status <= 499 {
            Err(Error::PricesUnavailable)
        } else {
            Err(Error::UnexpectedStatus(status))
        }
    }
}

impl Default for Strompris {
    fn default() -> (r: Strompris) {
        Strompris::new()
    }
}

} // verus!
