use vstd::prelude::*;

verus! {

/// The character of a decimal digit.
pub open spec fn digit_char(d: nat) -> char {
    if d == 0 { '0' }
    else if d == 1 { '1' }
    else if d == 2 { '2' }
    else if d == 3 { '3' }
    else if d == 4 { '4' }
    else if d == 5 { '5' }
    else if d == 6 { '6' }
    else if d == 7 { '7' }
    else if d == 8 { '8' }
    else { '9' }
}

/// The decimal text of `n`, without leading zeros.
pub open spec fn decimal(n: nat) -> Seq<char>
    decreases n,
{
    if n < 10 {
        seq![digit_char(n)]
    } else {
        decimal(n / 10).push(digit_char(n % 10))
    }
}

/// Relies on `u128`'s `ToString` (its `Display`): the decimal digits of the value.
#[verifier::external_body]
pub(crate) fn amount_text(n: u128) -> (r: String)
    ensures
        r@ == decimal(n as nat),
{
    n.to_string()
}

/// A key/value pair of an audit record.
#[derive(Debug)]
pub struct Attribute {
    pub key: String,
    pub value: String,
}

/// A typed audit record.
#[derive(Debug)]
pub struct Event {
    pub ty: String,
    pub attributes: Vec<Attribute>,
}

/// An instruction for the host to send `amount` of `denom` from escrow to `to_address`.
#[derive(Debug)]
pub struct BankSend {
    pub to_address: String,
    pub denom: String,
    pub amount: u128,
}

/// What a successful command hands back to the host.
#[derive(Debug)]
pub struct Response {
    pub messages: Vec<BankSend>,
    pub attributes: Vec<Attribute>,
    pub events: Vec<Event>,
}

pub open spec fn attrs_view(a: Seq<Attribute>) -> Seq<(Seq<char>, Seq<char>)> {
    a.map_values(|x: Attribute| (x.key@, x.value@))
}

pub open spec fn events_view(e: Seq<Event>) -> Seq<(Seq<char>, Seq<(Seq<char>, Seq<char>)>)> {
    e.map_values(|x: Event| (x.ty@, attrs_view(x.attributes@)))
}

pub open spec fn sends_view(m: Seq<BankSend>) -> Seq<(Seq<char>, Seq<char>, u128)> {
    m.map_values(|x: BankSend| (x.to_address@, x.denom@, x.amount))
}

impl Response {
    pub open spec fn attrs(&self) -> Seq<(Seq<char>, Seq<char>)> {
        attrs_view(self.attributes@)
    }

    pub open spec fn event_list(&self) -> Seq<(Seq<char>, Seq<(Seq<char>, Seq<char>)>)> {
        events_view(self.events@)
    }

    pub open spec fn sends(&self) -> Seq<(Seq<char>, Seq<char>, u128)> {
        sends_view(self.messages@)
    }
}

pub fn attr(key: &str, value: String) -> (r: Attribute)
    ensures
        r.key@ == key@,
        r.value@ == value@,
{
    Attribute { key: key.to_owned(), value }
}

} // verus!
