//! Leaf value types used by the message schema: type-of-number and
//! data-coding-scheme markers, priority, validity timestamps, currency,
//! and custom key-value parameters.

use crate::json::{comma_join, dec_digits, json_quote, jstr, u32_decimal};
use vstd::prelude::*;
use vstd::string::StringExecFns;

verus! {

/// Type of Number: the interpretation of a source or destination address.
/// Only the values the vendor's documentation names are listed; the set
/// grows as further values are documented.
#[derive(Clone, Copy, Debug, PartialEq, Eq, Structural)]
pub enum ToN {
    Alphanumeric,
    Msisdn,
}

/// The wire form of a type-of-number: the vendor's uppercase name as a
/// JSON string.
pub open spec fn ton_wire(t: ToN) -> Seq<char> {
    match t {
        ToN::Alphanumeric => "\"ALPHANUMERIC\""@,
        ToN::Msisdn => "\"MSISDN\""@,
    }
}

impl ToN {
    /// The JSON value this type-of-number serializes to.
    pub fn wire_str(&self) -> (r: &'static str)
        ensures
            r@ == ton_wire(*self),
    {
        match self {
            ToN::Alphanumeric => "\"ALPHANUMERIC\"",
            ToN::Msisdn => "\"MSISDN\"",
        }
    }
}

/// Data Coding Scheme: the encoding of the message content. Only the
/// value the vendor's documentation names is listed; the set grows as
/// further values are documented.
#[derive(Clone, Copy, Debug, PartialEq, Eq, Structural)]
pub enum DCS {
    Text,
}

/// The wire form of a data-coding-scheme: the vendor's uppercase name as
/// a JSON string.
pub open spec fn dcs_wire(d: DCS) -> Seq<char> {
    match d {
        DCS::Text => "\"TEXT\""@,
    }
}

impl DCS {
    /// The JSON value this data-coding-scheme serializes to.
    pub fn wire_str(&self) -> (r: &'static str)
        ensures
            r@ == dcs_wire(*self),
    {
        match self {
            DCS::Text => "\"TEXT\"",
        }
    }
}

#[derive(Clone, Copy, Debug, PartialEq, Eq, Structural)]
pub enum Priority {
    High,
    Normal,
    Low,
}

/// The wire form of a priority: the variant name as a JSON string.
pub open spec fn priority_wire(p: Priority) -> Seq<char> {
    match p {
        Priority::High => "\"High\""@,
        Priority::Normal => "\"Normal\""@,
        Priority::Low => "\"Low\""@,
    }
}

impl Priority {
    /// The JSON value this priority serializes to.
    pub fn wire_str(&self) -> (r: &'static str)
        ensures
            r@ == priority_wire(*self),
    {
        match self {
            Priority::High => "\"High\"",
            Priority::Normal => "\"Normal\"",
            Priority::Low => "\"Low\"",
        }
    }
}

/// A supported currency for premium messages.
#[derive(Clone, Copy, Debug, PartialEq, Eq, Structural)]
pub enum Currency {
    NOK,
    SEK,
    DKK,
    EUR,
    LTL,
}

/// The wire form of a currency: its ISO code as a JSON string.
pub open spec fn currency_wire(c: Currency) -> Seq<char> {
    match c {
        Currency::NOK => "\"NOK\""@,
        Currency::SEK => "\"SEK\""@,
        Currency::DKK => "\"DKK\""@,
        Currency::EUR => "\"EUR\""@,
        Currency::LTL => "\"LTL\""@,
    }
}

impl Currency {
    /// The JSON value this currency serializes to.
    pub fn wire_str(&self) -> (r: &'static str)
        ensures
            r@ == currency_wire(*self),
    {
        match self {
            Currency::NOK => "\"NOK\"",
            Currency::SEK => "\"SEK\"",
            Currency::DKK => "\"DKK\"",
            Currency::EUR => "\"EUR\"",
            Currency::LTL => "\"LTL\"",
        }
    }
}

/// `n` in decimal, left-padded with zeros to at least two digits.
pub open spec fn pad2(n: nat) -> Seq<char> {
    if n < 10 {
        "0"@ + dec_digits(n)
    } else {
        dec_digits(n)
    }
}

/// `n` in decimal, left-padded with zeros to at least four digits.
pub open spec fn pad4(n: nat) -> Seq<char> {
    if n < 10 {
        "000"@ + dec_digits(n)
    } else if n < 100 {
        "00"@ + dec_digits(n)
    } else if n < 1000 {
        "0"@ + dec_digits(n)
    } else {
        dec_digits(n)
    }
}

fn append_pad2(out: &mut String, n: u32)
    ensures
        final(out)@ == old(out)@ + pad2(n as nat),
{
    if n < 10 {
        out.append("0");
    }
    let d = u32_decimal(n);
    out.append(d.as_str());
    proof {
        assert(out@ =~= old(out)@ + pad2(n as nat));
    }
}

fn append_pad4(out: &mut String, n: u32)
    ensures
        final(out)@ == old(out)@ + pad4(n as nat),
{
    if n < 10 {
        out.append("000");
    } else if n < 100 {
        out.append("00");
    } else if n < 1000 {
        out.append("0");
    }
    let d = u32_decimal(n);
    out.append(d.as_str());
    proof {
        assert(out@ =~= old(out)@ + pad4(n as nat));
    }
}

/// An absolute point in time with a fixed offset from UTC, as the
/// absolute validity limit of a message. Rendered on the wire as an
/// RFC3339 timestamp such as `2010-03-30T12:59:40+02:00`.
#[derive(Clone, Copy, Debug, PartialEq, Eq, Structural)]
pub struct Date {
    pub year: u32,
    pub month: u32,
    pub day: u32,
    pub hour: u32,
    pub minute: u32,
    pub second: u32,
    /// True when the UTC offset is eastward (rendered `+`), false when
    /// westward (rendered `-`).
    pub offset_east: bool,
    pub offset_hours: u32,
    pub offset_minutes: u32,
}

/// The RFC3339 text of a date: zero-padded fields joined by the fixed
/// punctuation, with the offset sign chosen by `offset_east`.
pub open spec fn date_text(d: Date) -> Seq<char> {
    pad4(d.year as nat) + "-"@ + pad2(d.month as nat) + "-"@ + pad2(d.day as nat) + "T"@ + pad2(
        d.hour as nat,
    ) + ":"@ + pad2(d.minute as nat) + ":"@ + pad2(d.second as nat) + (if d.offset_east {
        "+"@
    } else {
        "-"@
    }) + pad2(d.offset_hours as nat) + ":"@ + pad2(d.offset_minutes as nat)
}

impl Date {
    /// Renders the date as an RFC3339 timestamp.
    pub fn rfc3339_string(&self) -> (r: String)
        ensures
            r@ == date_text(*self),
    {
        let mut out = String::new();
        append_pad4(&mut out, self.year);
        out.append("-");
        append_pad2(&mut out, self.month);
        out.append("-");
        append_pad2(&mut out, self.day);
        out.append("T");
        append_pad2(&mut out, self.hour);
        out.append(":");
        append_pad2(&mut out, self.minute);
        out.append(":");
        append_pad2(&mut out, self.second);
        if self.offset_east {
            out.append("+");
        } else {
            out.append("-");
        }
        append_pad2(&mut out, self.offset_hours);
        out.append(":");
        append_pad2(&mut out, self.offset_minutes);
        proof {
            assert(out@ =~= date_text(*self));
        }
        out
    }
}

/// Custom key-value parameters attached to a message, serialized as a
/// JSON object holding the pairs in order.
#[derive(Debug)]
pub struct KeyValue {
    pub pairs: Vec<(String, String)>,
}

/// The wire form of one custom parameter: encoded key, `':'`, encoded
/// value.
pub open spec fn kv_pair_wire(p: (String, String)) -> Seq<char> {
    jstr(p.0@) + ":"@ + jstr(p.1@)
}

/// The wire form of the custom parameters: a JSON object holding the
/// pairs in order.
pub open spec fn kv_wire(kv: KeyValue) -> Seq<char> {
    "{"@ + comma_join(kv.pairs@.map_values(|p: (String, String)| kv_pair_wire(p))) + "}"@
}

impl KeyValue {
    pub fn new(pairs: Vec<(String, String)>) -> (r: KeyValue)
        ensures
            r.pairs@ == pairs@,
    {
        KeyValue { pairs }
    }

    /// Renders the custom parameters as a JSON object.
    pub fn wire_string(&self) -> (r: String)
        ensures
            r@ == kv_wire(*self),
    {
        let mut out = "{".to_owned();
        proof {
            assert(out@ =~= "{"@ + comma_join(
                self.pairs@.take(0).map_values(|p: (String, String)| kv_pair_wire(p)),
            ));
        }
        let mut i: usize = 0;
        while i < self.pairs.len()
            invariant
                i <= self.pairs@.len(),
                out@ == "{"@ + comma_join(
                    self.pairs@.take(i as int).map_values(|p: (String, String)| kv_pair_wire(p)),
                ),
            decreases self.pairs@.len() - i,
        {
            if i > 0 {
                out.append(",");
            }
            let k = json_quote(self.pairs[i].0.as_str());
            out.append(k.as_str());
            out.append(":");
            let v = json_quote(self.pairs[i].1.as_str());
            out.append(v.as_str());
            proof {
                let f = |p: (String, String)| kv_pair_wire(p);
                let prev = self.pairs@.take(i as int).map_values(f);
                let now = self.pairs@.take(i as int + 1).map_values(f);
                assert(now =~= prev.push(kv_pair_wire(self.pairs@[i as int])));
                if i > 0 {
                    crate::json::lemma_comma_join_snoc(prev, kv_pair_wire(self.pairs@[i as int]));
                } else {
                    assert(comma_join(now) == now[0]);
                }
                assert(out@ =~= "{"@ + comma_join(now));
            }
            i += 1;
        }
        proof {
            assert(self.pairs@.take(self.pairs@.len() as int) =~= self.pairs@);
        }
        out.append("}");
        out
    }
}

} // verus!
