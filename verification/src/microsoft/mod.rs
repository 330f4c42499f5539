//! The ledger's records and the application's side of the drive's protocol.

use vstd::prelude::*;

use crate::hash::{hex_digit, hex_digit_exec, push_char};

pub mod data;
pub mod graph_client;

use graph_client::{create_row_request, create_row_request_spec, GraphRequest};

verus! {

/// A calendar date and time of day, without a time zone.
#[derive(Debug, Clone, Copy, PartialEq, Eq, Hash, Structural)]
pub struct DateTime {
    pub year: i32,
    pub month: u32,
    pub day: u32,
    pub hour: u32,
    pub minute: u32,
    pub second: u32,
}

/// One transaction of the ledger.
#[derive(Debug, Clone, PartialEq, Eq, Hash)]
pub struct Record {
    pub date_time: DateTime,
    pub transaction_code: String,
    pub transaction_subcode: String,
    pub symbol: Option<String>,
    pub buy_sell: Option<String>,
    pub open_close: Option<String>,
    pub quantity: i64,
    pub price: Option<String>,
    pub fees: String,
    pub amount: String,
    pub description: String,
    pub account_reference: String,
}

/// A record with its text fields taken as character sequences.
pub struct RecordView {
    pub date_time: DateTime,
    pub transaction_code: Seq<char>,
    pub transaction_subcode: Seq<char>,
    pub symbol: Option<Seq<char>>,
    pub buy_sell: Option<Seq<char>>,
    pub open_close: Option<Seq<char>>,
    pub quantity: i64,
    pub price: Option<Seq<char>>,
    pub fees: Seq<char>,
    pub amount: Seq<char>,
    pub description: Seq<char>,
    pub account_reference: Seq<char>,
}

impl View for Record {
    type V = RecordView;

    open spec fn view(&self) -> RecordView {
        RecordView {
            date_time: self.date_time,
            transaction_code: self.transaction_code@,
            transaction_subcode: self.transaction_subcode@,
            symbol: self.symbol.deep_view(),
            buy_sell: self.buy_sell.deep_view(),
            open_close: self.open_close.deep_view(),
            quantity: self.quantity,
            price: self.price.deep_view(),
            fees: self.fees@,
            amount: self.amount@,
            description: self.description@,
            account_reference: self.account_reference@,
        }
    }
}

impl DeepView for Record {
    type V = RecordView;

    open spec fn deep_view(&self) -> RecordView {
        self@
    }
}

fn optional_text_equal(a: &Option<String>, b: &Option<String>) -> (res: bool)
    ensures
        res == (a.deep_view() == b.deep_view()),
{
    match a {
        Some(x) => match b {
            Some(y) => {
                assert(x.deep_view() == x@ && y.deep_view() == y@);
                *x == *y
            },
            None => false,
        },
        None => b.is_none(),
    }
}

impl Record {
    /// Whether two records agree in every field.
    pub fn same_as(&self, other: &Record) -> (res: bool)
        ensures
            res == (self@ == other@),
    {
        self.date_time == other.date_time
            && self.transaction_code == other.transaction_code
            && self.transaction_subcode == other.transaction_subcode
            && optional_text_equal(&self.symbol, &other.symbol)
            && optional_text_equal(&self.buy_sell, &other.buy_sell)
            && optional_text_equal(&self.open_close, &other.open_close)
            && self.quantity == other.quantity
            && optional_text_equal(&self.price, &other.price)
            && self.fees == other.fees
            && self.amount == other.amount
            && self.description == other.description
            && self.account_reference == other.account_reference
    }
}

/// Where the user is sent to sign in.
pub const AUTHORIZE_URI: &'static str =
    "https://login.microsoftonline.com/consumers/oauth2/v2.0/authorize";

/// Where a sign-in code is exchanged for an access token.
pub const TOKEN_URI: &'static str = "https://login.microsoftonline.com/consumers/oauth2/v2.0/token";

/// What `url` makes of an address when it parses it and appends the given
/// query pairs (form-encoded, in order): the address's text, or nothing when
/// the address does not parse.
pub uninterp spec fn url_with_query_pairs(
    base: Seq<char>,
    pairs: Seq<(Seq<char>, Seq<char>)>,
) -> Option<Seq<char>>;

/// Parses the address with `reqwest::Url::parse` (the `url` crate), appends
/// the pairs with `query_pairs_mut().extend_pairs` and takes the address's
/// text with `to_string`. Claimed: the outcome is `url_with_query_pairs` of
/// the address and the pairs.
#[verifier::external_body]
fn append_query_pairs(base: &str, pairs: &Vec<(String, String)>) -> (res: Option<String>)
    ensures
        res.deep_view() == url_with_query_pairs(base@, pairs.deep_view()),
{
    match reqwest::Url::parse(base) {
        Ok(mut url) => {
            url.query_pairs_mut().extend_pairs(pairs.iter());
            Some(url.to_string())
        },
        Err(_) => None,
    }
}

fn pair(name: &str, value: &str) -> (res: (String, String))
    ensures
        res.0@ == name@,
        res.1@ == value@,
{
    (String::from_str(name), String::from_str(value))
}

/// The query of the sign-in address.
pub open spec fn login_query(client_id: Seq<char>, redirect_uri: Seq<char>, scope: Seq<char>) -> Seq<
    (Seq<char>, Seq<char>),
> {
    seq![
        ("client_id"@, client_id),
        ("response_type"@, "code"@),
        ("redirect_uri"@, redirect_uri),
        ("response_mode"@, "query"@),
        ("scope"@, scope),
    ]
}

/// The sign-in query carries the application's id, the return address and the
/// permissions unchanged, in that order among its five pairs, whatever their
/// length.
pub proof fn lemma_login_query_carries_settings(
    client_id: Seq<char>,
    redirect_uri: Seq<char>,
    scope: Seq<char>,
)
    ensures
        login_query(client_id, redirect_uri, scope).len() == 5,
        login_query(client_id, redirect_uri, scope)[0] == ("client_id"@, client_id),
        login_query(client_id, redirect_uri, scope)[1] == ("response_type"@, "code"@),
        login_query(client_id, redirect_uri, scope)[2] == ("redirect_uri"@, redirect_uri),
        login_query(client_id, redirect_uri, scope)[3] == ("response_mode"@, "query"@),
        login_query(client_id, redirect_uri, scope)[4] == ("scope"@, scope),
{
}

/// The token form carries the id, permissions, code, return address and
/// secret unchanged, with the authorization-code grant, in that order.
pub proof fn lemma_token_form_carries_settings(
    client_id: Seq<char>,
    scope: Seq<char>,
    code: Seq<char>,
    redirect_uri: Seq<char>,
    client_secret: Seq<char>,
)
    ensures
        token_request_form_spec(client_id, scope, code, redirect_uri, client_secret).len() == 6,
        token_request_form_spec(client_id, scope, code, redirect_uri, client_secret)[0] == (
            "client_id"@,
            client_id,
        ),
        token_request_form_spec(client_id, scope, code, redirect_uri, client_secret)[1] == (
            "scope"@,
            scope,
        ),
        token_request_form_spec(client_id, scope, code, redirect_uri, client_secret)[2] == (
            "code"@,
            code,
        ),
        token_request_form_spec(client_id, scope, code, redirect_uri, client_secret)[3] == (
            "redirect_uri"@,
            redirect_uri,
        ),
        token_request_form_spec(client_id, scope, code, redirect_uri, client_secret)[4] == (
            "grant_type"@,
            "authorization_code"@,
        ),
        token_request_form_spec(client_id, scope, code, redirect_uri, client_secret)[5] == (
            "client_secret"@,
            client_secret,
        ),
{
}

/// The address that signs the user in: the authorization endpoint with the
/// application's id, the address to return to and the permissions asked for.
pub fn login_uri(client_id: &str, redirect_uri: &str, scope: &str) -> (res: Option<String>)
    ensures
        res.deep_view() == url_with_query_pairs(
            AUTHORIZE_URI@,
            login_query(client_id@, redirect_uri@, scope@),
        ),
{
    let mut pairs: Vec<(String, String)> = Vec::new();
    pairs.push(pair("client_id", client_id));
    pairs.push(pair("response_type", "code"));
    pairs.push(pair("redirect_uri", redirect_uri));
    pairs.push(pair("response_mode", "query"));
    pairs.push(pair("scope", scope));
    assert(pairs.deep_view() =~= login_query(client_id@, redirect_uri@, scope@));
    append_query_pairs(AUTHORIZE_URI, &pairs)
}

/// The form that exchanges a sign-in code for an access token.
pub open spec fn token_request_form_spec(
    client_id: Seq<char>,
    scope: Seq<char>,
    code: Seq<char>,
    redirect_uri: Seq<char>,
    client_secret: Seq<char>,
) -> Seq<(Seq<char>, Seq<char>)> {
    seq![
        ("client_id"@, client_id),
        ("scope"@, scope),
        ("code"@, code),
        ("redirect_uri"@, redirect_uri),
        ("grant_type"@, "authorization_code"@),
        ("client_secret"@, client_secret),
    ]
}

/// The form that exchanges a sign-in code for an access token, to be posted
/// to `TOKEN_URI`.
pub fn token_request_form(
    client_id: &str,
    scope: &str,
    code: &str,
    redirect_uri: &str,
    client_secret: &str,
) -> (res: Vec<(String, String)>)
    ensures
        res.deep_view() == token_request_form_spec(
            client_id@,
            scope@,
            code@,
            redirect_uri@,
            client_secret@,
        ),
{
    let mut form: Vec<(String, String)> = Vec::new();
    form.push(pair("client_id", client_id));
    form.push(pair("scope", scope));
    form.push(pair("code", code));
    form.push(pair("redirect_uri", redirect_uri));
    form.push(pair("grant_type", "authorization_code"));
    form.push(pair("client_secret", client_secret));
    assert(form.deep_view() =~= token_request_form_spec(
        client_id@,
        scope@,
        code@,
        redirect_uri@,
        client_secret@,
    ));
    form
}

/// The decimal digits of a natural number, most significant first.
pub open spec fn decimal(n: nat) -> Seq<char>
    decreases n,
{
    if n < 10 {
        seq![hex_digit(n as int)]
    } else {
        decimal(n / 10).push(hex_digit((n % 10) as int))
    }
}

/// A whole number in decimal, with a leading minus sign when negative.
pub open spec fn signed_decimal(n: int) -> Seq<char> {
    if n < 0 {
        seq!['-'] + decimal((-n) as nat)
    } else {
        decimal(n as nat)
    }
}

/// A natural number in decimal, padded with a zero to two digits.
pub open spec fn two_digits(n: nat) -> Seq<char> {
    if n < 10 {
        seq!['0'] + decimal(n)
    } else {
        decimal(n)
    }
}

/// A date and time as `year-month-day hour:minute:second`, every part but
/// the year padded to two digits.
pub open spec fn date_time_text(d: DateTime) -> Seq<char> {
    signed_decimal(d.year as int) + seq!['-'] + two_digits(d.month as nat) + seq!['-'] + two_digits(
        d.day as nat,
    ) + seq![' '] + two_digits(d.hour as nat) + seq![':'] + two_digits(d.minute as nat) + seq![':']
        + two_digits(d.second as nat)
}

/// An optional text, empty when absent.
pub open spec fn optional_text(t: Option<Seq<char>>) -> Seq<char> {
    match t {
        Some(s) => s,
        None => Seq::empty(),
    }
}

/// The values of a record's ledger row: its fields in the ledger's column
/// order, separated by tabs (absent fields as empty cells).
pub open spec fn record_values(r: RecordView) -> Seq<char> {
    date_time_text(r.date_time) + seq!['\t'] + r.transaction_code + seq!['\t']
        + r.transaction_subcode + seq!['\t'] + optional_text(r.symbol) + seq!['\t'] + optional_text(
        r.buy_sell,
    ) + seq!['\t'] + optional_text(r.open_close) + seq!['\t'] + signed_decimal(r.quantity as int)
        + seq!['\t'] + optional_text(r.price) + seq!['\t'] + r.fees + seq!['\t'] + r.amount
        + seq!['\t'] + r.description + seq!['\t'] + r.account_reference
}

fn push_decimal(s: &mut String, n: u64)
    ensures
        final(s)@ == old(s)@ + decimal(n as nat),
    decreases n,
{
    if n >= 10 {
        push_decimal(s, n / 10);
    }
    push_char(s, hex_digit_exec((n % 10) as u8));
    proof {
        if n >= 10 {
            assert(decimal(n as nat) == decimal((n / 10) as nat).push(hex_digit((n % 10) as int)));
        } else {
            assert(decimal(n as nat) == seq![hex_digit(n as int)]);
        }
    }
}

fn push_signed_decimal(s: &mut String, n: i64)
    ensures
        final(s)@ == old(s)@ + signed_decimal(n as int),
{
    if n < 0 {
        push_char(s, '-');
        let magnitude: i128 = -(n as i128);
        push_decimal(s, magnitude as u64);
        assert(old(s)@.push('-') + decimal((-n) as nat) =~= old(s)@ + (seq!['-'] + decimal(
            (-n) as nat,
        )));
    } else {
        push_decimal(s, n as u64);
    }
}

fn push_two_digits(s: &mut String, n: u32)
    ensures
        final(s)@ == old(s)@ + two_digits(n as nat),
{
    if n < 10 {
        push_char(s, '0');
        push_decimal(s, n as u64);
        assert(old(s)@.push('0') + decimal(n as nat) =~= old(s)@ + (seq!['0'] + decimal(n as nat)));
    } else {
        push_decimal(s, n as u64);
    }
}

fn push_text(s: &mut String, t: &String)
    ensures
        final(s)@ == old(s)@ + t@,
{
    s.append(t.as_str());
}

fn push_optional_text(s: &mut String, t: &Option<String>)
    ensures
        final(s)@ == old(s)@ + optional_text(t.deep_view()),
{
    match t {
        Some(text) => {
            s.append(text.as_str());
        },
        None => {
            assert(old(s)@ + Seq::<char>::empty() =~= old(s)@);
        },
    }
}

fn push_tab(s: &mut String)
    ensures
        final(s)@ == old(s)@ + seq!['\t'],
{
    push_char(s, '\t');
    assert(old(s)@.push('\t') =~= old(s)@ + seq!['\t']);
}

fn push_separator(s: &mut String, c: char)
    ensures
        final(s)@ == old(s)@ + seq![c],
{
    push_char(s, c);
    assert(old(s)@.push(c) =~= old(s)@ + seq![c]);
}

impl Record {
    /// The values of this record's ledger row.
    pub fn row_values(&self) -> (res: String)
        ensures
            res@ == record_values(self@),
    {
        let mut s = String::new();
        let d = self.date_time;
        push_signed_decimal(&mut s, d.year as i64);
        push_separator(&mut s, '-');
        push_two_digits(&mut s, d.month);
        push_separator(&mut s, '-');
        push_two_digits(&mut s, d.day);
        push_separator(&mut s, ' ');
        push_two_digits(&mut s, d.hour);
        push_separator(&mut s, ':');
        push_two_digits(&mut s, d.minute);
        push_separator(&mut s, ':');
        push_two_digits(&mut s, d.second);
        let ghost date = s@;
        assert(date =~= date_time_text(d));
        push_tab(&mut s);
        push_text(&mut s, &self.transaction_code);
        push_tab(&mut s);
        push_text(&mut s, &self.transaction_subcode);
        push_tab(&mut s);
        push_optional_text(&mut s, &self.symbol);
        push_tab(&mut s);
        push_optional_text(&mut s, &self.buy_sell);
        push_tab(&mut s);
        push_optional_text(&mut s, &self.open_close);
        push_tab(&mut s);
        push_signed_decimal(&mut s, self.quantity);
        push_tab(&mut s);
        push_optional_text(&mut s, &self.price);
        push_tab(&mut s);
        push_text(&mut s, &self.fees);
        push_tab(&mut s);
        push_text(&mut s, &self.amount);
        push_tab(&mut s);
        push_text(&mut s, &self.description);
        push_tab(&mut s);
        push_text(&mut s, &self.account_reference);
        assert(s@ =~= record_values(self@));
        s
    }
}

/// The requests that write records into the ledger's table within a
/// session: one row per record, in order.
pub fn upload_records(session: &String, records: &Vec<Record>) -> (res: Vec<GraphRequest>)
    ensures
        res@.len() == records@.len(),
        forall|i: int|
            0 <= i < records@.len() ==> (#[trigger] res@[i])@ == create_row_request_spec(
                session@,
                record_values(records@[i]@),
            ),
{
    let mut requests: Vec<GraphRequest> = Vec::new();
    let n = records.len();
    for i in 0..n
        invariant
            n == records@.len(),
            requests@.len() == i,
            forall|j: int|
                0 <= j < i ==> (#[trigger] requests@[j])@ == create_row_request_spec(
                    session@,
                    record_values(records@[j]@),
                ),
    {
        let values = records[i].row_values();
        requests.push(create_row_request(session.as_str(), values.as_str()));
    }
    requests
}

} // verus!
