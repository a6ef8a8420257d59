//! The outbound message schema and its wire-format serialization.
//!
//! A message serializes to one JSON object. The wire key of several
//! fields differs from the field's name (a fixed rename table), and an
//! optional field that is unset is entirely absent from the object — not
//! null, not empty. The serialized object's exact text is specified by
//! [`sms_wire`], and its key/value content by [`entries`].

use crate::account::Account;
use crate::address::Address;
use crate::error::{Error, ErrorCode};
use crate::json::{bool_str, bool_wire, dec_digits, json_quote, jstr, string_array_wire, u32_decimal, u64_decimal, render_string_array};
use crate::request::{compose_request, url_fits, url_parses, url_with_path, HttpRequest};
use crate::ty::{currency_wire, date_text, dcs_wire, kv_wire, priority_wire, ton_wire, Currency, Date, KeyValue, Priority, ToN, DCS};
use vstd::prelude::*;
use vstd::seq_lib::lemma_concat_associative;
use vstd::string::StringExecFns;

verus! {

/// The platform identifier the vendor assigned to the sending account.
#[derive(Clone, Debug)]
pub struct PlatformID(String);

impl View for PlatformID {
    type V = Seq<char>;

    closed spec fn view(&self) -> Seq<char> {
        self.0@
    }
}

impl PlatformID {
    pub fn new(id: String) -> (r: PlatformID)
        ensures
            r@ == id@,
    {
        PlatformID(id)
    }

    pub fn as_str(&self) -> (r: &str)
        ensures
            r@ == self@,
    {
        self.0.as_str()
    }
}

/// The partner identifier the vendor assigned to the sending account.
#[derive(Clone, Debug)]
pub struct PlatformPartnerID(String);

impl View for PlatformPartnerID {
    type V = Seq<char>;

    closed spec fn view(&self) -> Seq<char> {
        self.0@
    }
}

impl PlatformPartnerID {
    pub fn new(id: String) -> (r: PlatformPartnerID)
        ensures
            r@ == id@,
    {
        PlatformPartnerID(id)
    }

    pub fn as_str(&self) -> (r: &str)
        ensures
            r@ == self@,
    {
        self.0.as_str()
    }
}

/// An outbound SMS. The mandatory fields are `source`, `destination`,
/// `user_data`, `platform_id` and `platform_partner_id`; every other
/// field is optional and absent from the wire object when unset. All
/// fields are public so a caller can assemble a message directly when
/// the constructor's defaults do not fit.
pub struct SMS {
    /// The source number or name the message is sent from; interpreted
    /// according to `source_ton`.
    pub source: Address,
    /// The source type of number. Wire key `sourceTON`.
    pub source_ton: Option<ToN>,
    /// The destination number, with country code and leading plus sign
    /// for MSISDNs; interpreted according to `destination_ton`.
    pub destination: Address,
    /// The destination type of number. Wire key `destinationTON`.
    pub destination_ton: Option<ToN>,
    /// The data coding scheme of `user_data`.
    pub dcs: Option<DCS>,
    /// Hex-encoded user data header, for concatenated SMS, WAP-push and
    /// the like. Wire key `userDataHeader`.
    pub user_data_header: Option<String>,
    /// The message content itself. Wire key `userData`.
    pub user_data: String,
    /// Whether a delivery report is wanted when the message reaches a
    /// final state. Wire key `useDeliveryReport`.
    pub use_deliver_report: Option<bool>,
    /// The gates delivery reports should be sent to. Wire key
    /// `deliveryReportGates`.
    pub deliver_report_gates: Option<Vec<String>>,
    /// How long the message may take to deliver, in milliseconds. Wire
    /// key `relativeValidityTime`.
    pub relative_validity_time: Option<u64>,
    /// The absolute expiry time; overrides `relative_validity_time` when
    /// both are set. Wire key `absoluteValidityTime`, an RFC3339
    /// timestamp.
    pub absolute_validity_time: Option<Date>,
    /// Price in 1/100 of the local currency.
    pub tariff: Option<u32>,
    /// The currency, when the destination country's default does not
    /// apply. Ignored for non-premium messages.
    pub currency: Option<Currency>,
    /// Allowed age for adult content; not supported by all operators.
    pub age: Option<u32>,
    /// Delivery priority.
    pub priority: Option<Priority>,
    /// Wire key `platformId`.
    pub platform_id: PlatformID,
    /// Wire key `platformPartnerId`.
    pub platform_partner_id: PlatformPartnerID,
    /// The caller's own transaction reference. Wire key `refId`.
    pub ref_id: Option<String>,
    /// For premium messages, the service description printed on the
    /// end-user's bill. Wire key `productDescription`.
    pub product_description: Option<String>,
    /// For premium messages, the service category. Wire key
    /// `productCategory`.
    pub product_category: Option<u32>,
    /// The MO message that triggered this message. Wire key
    /// `moReferenceId`.
    pub mo_reference_id: Option<String>,
    /// Additional vendor-advised parameters. Wire key
    /// `customParameters`.
    pub custom_parameters: Option<KeyValue>,
    /// Whether the submission response body should be suppressed. Wire
    /// key `ignoreResponse`.
    pub ignore_response: Option<bool>,
}

/// One wire entry: a key and the JSON text of its value.
pub type WireEntry = (Seq<char>, Seq<char>);

/// The text of one entry inside the wire object.
pub open spec fn entry_text(e: WireEntry) -> Seq<char> {
    "\""@ + e.0 + "\":"@ + e.1
}

/// A mandatory entry's singleton piece.
pub open spec fn one_entry(key: Seq<char>, value: Seq<char>) -> Seq<WireEntry> {
    seq![(key, value)]
}

/// An optional string field's piece: one entry when set, nothing when
/// unset.
pub open spec fn opt_str_entry(key: Seq<char>, v: Option<String>) -> Seq<WireEntry> {
    match v {
        Some(s) => seq![(key, jstr(s@))],
        None => seq![],
    }
}

/// An optional 64-bit integer field's piece.
pub open spec fn opt_u64_entry(key: Seq<char>, v: Option<u64>) -> Seq<WireEntry> {
    match v {
        Some(n) => seq![(key, dec_digits(n as nat))],
        None => seq![],
    }
}

/// An optional 32-bit integer field's piece.
pub open spec fn opt_u32_entry(key: Seq<char>, v: Option<u32>) -> Seq<WireEntry> {
    match v {
        Some(n) => seq![(key, dec_digits(n as nat))],
        None => seq![],
    }
}

/// An optional boolean field's piece.
pub open spec fn opt_bool_entry(key: Seq<char>, v: Option<bool>) -> Seq<WireEntry> {
    match v {
        Some(b) => seq![(key, bool_wire(b))],
        None => seq![],
    }
}

/// An optional type-of-number field's piece.
pub open spec fn opt_ton_entry(key: Seq<char>, v: Option<ToN>) -> Seq<WireEntry> {
    match v {
        Some(t) => seq![(key, ton_wire(t))],
        None => seq![],
    }
}

/// An optional data-coding-scheme field's piece.
pub open spec fn opt_dcs_entry(key: Seq<char>, v: Option<DCS>) -> Seq<WireEntry> {
    match v {
        Some(d) => seq![(key, dcs_wire(d))],
        None => seq![],
    }
}

/// An optional priority field's piece.
pub open spec fn opt_priority_entry(key: Seq<char>, v: Option<Priority>) -> Seq<WireEntry> {
    match v {
        Some(p) => seq![(key, priority_wire(p))],
        None => seq![],
    }
}

/// An optional currency field's piece.
pub open spec fn opt_currency_entry(key: Seq<char>, v: Option<Currency>) -> Seq<WireEntry> {
    match v {
        Some(c) => seq![(key, currency_wire(c))],
        None => seq![],
    }
}

/// An optional date field's piece: the RFC3339 text as a JSON string.
pub open spec fn opt_date_entry(key: Seq<char>, v: Option<Date>) -> Seq<WireEntry> {
    match v {
        Some(d) => seq![(key, "\""@ + date_text(d) + "\""@)],
        None => seq![],
    }
}

/// An optional gate-list field's piece: a JSON array of strings.
pub open spec fn opt_gates_entry(key: Seq<char>, v: Option<Vec<String>>) -> Seq<WireEntry> {
    match v {
        Some(g) => seq![(key, string_array_wire(g@))],
        None => seq![],
    }
}

/// An optional custom-parameters field's piece: a JSON object.
pub open spec fn opt_kv_entry(key: Seq<char>, v: Option<KeyValue>) -> Seq<WireEntry> {
    match v {
        Some(kv) => seq![(key, kv_wire(kv))],
        None => seq![],
    }
}

/// The first entries of the wire object: `source` through
/// `useDeliveryReport`.
pub open spec fn entries_head(s: SMS) -> Seq<WireEntry> {
    one_entry("source"@, jstr(s.source@)) + opt_ton_entry("sourceTON"@, s.source_ton) + one_entry(
        "destination"@,
        jstr(s.destination@),
    ) + opt_ton_entry("destinationTON"@, s.destination_ton) + opt_dcs_entry("dcs"@, s.dcs)
        + opt_str_entry("userDataHeader"@, s.user_data_header) + one_entry(
        "userData"@,
        jstr(s.user_data@),
    ) + opt_bool_entry("useDeliveryReport"@, s.use_deliver_report)
}

/// The middle entries of the wire object: `deliveryReportGates` through
/// `platformId`.
pub open spec fn entries_mid(s: SMS) -> Seq<WireEntry> {
    opt_gates_entry("deliveryReportGates"@, s.deliver_report_gates) + opt_u64_entry(
        "relativeValidityTime"@,
        s.relative_validity_time,
    ) + opt_date_entry("absoluteValidityTime"@, s.absolute_validity_time) + opt_u32_entry(
        "tariff"@,
        s.tariff,
    ) + opt_currency_entry("currency"@, s.currency) + opt_u32_entry("age"@, s.age)
        + opt_priority_entry("priority"@, s.priority) + one_entry(
        "platformId"@,
        jstr(s.platform_id@),
    )
}

/// The final entries of the wire object: `platformPartnerId` through
/// `ignoreResponse`.
pub open spec fn entries_last(s: SMS) -> Seq<WireEntry> {
    one_entry("platformPartnerId"@, jstr(s.platform_partner_id@)) + opt_str_entry(
        "refId"@,
        s.ref_id,
    ) + opt_str_entry("productDescription"@, s.product_description) + opt_u32_entry(
        "productCategory"@,
        s.product_category,
    ) + opt_str_entry("moReferenceId"@, s.mo_reference_id) + opt_kv_entry(
        "customParameters"@,
        s.custom_parameters,
    ) + opt_bool_entry("ignoreResponse"@, s.ignore_response)
}

/// The wire object's entries: key and value text of every present field,
/// in declaration order, with the rename table applied.
pub open spec fn entries(s: SMS) -> Seq<WireEntry> {
    entries_head(s) + entries_mid(s) + entries_last(s)
}

/// The text a piece of at most one entry contributes after the first
/// entry: nothing, or a comma and the entry.
pub open spec fn entry_tail(es: Seq<WireEntry>) -> Seq<char> {
    if es.len() == 0 {
        Seq::empty()
    } else {
        ","@ + entry_text(es[0])
    }
}

/// The text the first entries contribute, starting with the
/// always-present `source` entry.
pub open spec fn body_head(s: SMS) -> Seq<char> {
    entry_text(("source"@, jstr(s.source@))) + entry_tail(
        opt_ton_entry("sourceTON"@, s.source_ton),
    ) + entry_tail(one_entry("destination"@, jstr(s.destination@))) + entry_tail(
        opt_ton_entry("destinationTON"@, s.destination_ton),
    ) + entry_tail(opt_dcs_entry("dcs"@, s.dcs)) + entry_tail(
        opt_str_entry("userDataHeader"@, s.user_data_header),
    ) + entry_tail(one_entry("userData"@, jstr(s.user_data@))) + entry_tail(
        opt_bool_entry("useDeliveryReport"@, s.use_deliver_report),
    )
}

/// The text the middle entries contribute.
pub open spec fn tails_mid(s: SMS) -> Seq<char> {
    entry_tail(opt_gates_entry("deliveryReportGates"@, s.deliver_report_gates)) + entry_tail(
        opt_u64_entry("relativeValidityTime"@, s.relative_validity_time),
    ) + entry_tail(opt_date_entry("absoluteValidityTime"@, s.absolute_validity_time)) + entry_tail(
        opt_u32_entry("tariff"@, s.tariff),
    ) + entry_tail(opt_currency_entry("currency"@, s.currency)) + entry_tail(
        opt_u32_entry("age"@, s.age),
    ) + entry_tail(opt_priority_entry("priority"@, s.priority)) + entry_tail(
        one_entry("platformId"@, jstr(s.platform_id@)),
    )
}

/// The text the final entries contribute.
pub open spec fn tails_last(s: SMS) -> Seq<char> {
    entry_tail(one_entry("platformPartnerId"@, jstr(s.platform_partner_id@))) + entry_tail(
        opt_str_entry("refId"@, s.ref_id),
    ) + entry_tail(opt_str_entry("productDescription"@, s.product_description)) + entry_tail(
        opt_u32_entry("productCategory"@, s.product_category),
    ) + entry_tail(opt_str_entry("moReferenceId"@, s.mo_reference_id)) + entry_tail(
        opt_kv_entry("customParameters"@, s.custom_parameters),
    ) + entry_tail(opt_bool_entry("ignoreResponse"@, s.ignore_response))
}

/// The exact text of the serialized message: the object braces around
/// each field's contribution, in declaration order.
pub open spec fn sms_wire(s: SMS) -> Seq<char> {
    "{"@ + (body_head(s) + tails_mid(s) + tails_last(s)) + "}"@
}

/// The entries joined with `','`, each rendered as key and value.
pub open spec fn render_entries(es: Seq<WireEntry>) -> Seq<char>
    decreases es.len(),
{
    if es.len() == 0 {
        Seq::empty()
    } else if es.len() == 1 {
        entry_text(es[0])
    } else {
        render_entries(es.drop_last()) + ","@ + entry_text(es.last())
    }
}

proof fn lemma_render_entries_snoc(es: Seq<WireEntry>, e: WireEntry)
    requires
        es.len() > 0,
    ensures
        render_entries(es.push(e)) == render_entries(es) + ","@ + entry_text(e),
{
    assert(es.push(e).drop_last() =~= es);
    assert(es.push(e).last() == e);
}

proof fn lemma_render_entries_piece(es: Seq<WireEntry>, p: Seq<WireEntry>)
    requires
        es.len() > 0,
        p.len() <= 1,
    ensures
        render_entries(es + p) == render_entries(es) + entry_tail(p),
{
    if p.len() == 0 {
        assert(es + p =~= es);
        assert(render_entries(es) + entry_tail(p) =~= render_entries(es));
    } else {
        assert(es + p =~= es.push(p[0]));
        lemma_render_entries_snoc(es, p[0]);
    }
}

/// Whether some entry of `es` has key `key`.
pub open spec fn has_key(es: Seq<WireEntry>, key: Seq<char>) -> bool {
    exists|i: int| 0 <= i < es.len() && es[i].0 == key
}

/// Whether `es` holds the exact entry `(key, value)`.
pub open spec fn has_entry(es: Seq<WireEntry>, key: Seq<char>, value: Seq<char>) -> bool {
    exists|i: int| 0 <= i < es.len() && es[i] == (key, value)
}

proof fn lemma_has_key_concat(a: Seq<WireEntry>, b: Seq<WireEntry>, key: Seq<char>)
    ensures
        has_key(a + b, key) <==> has_key(a, key) || has_key(b, key),
{
    if has_key(a + b, key) {
        let i = choose|i: int| 0 <= i < (a + b).len() && (a + b)[i].0 == key;
        if i < a.len() {
            assert(a[i].0 == key);
        } else {
            assert(b[i - a.len()].0 == key);
        }
    }
    if has_key(a, key) {
        let i = choose|i: int| 0 <= i < a.len() && a[i].0 == key;
        assert((a + b)[i].0 == key);
    }
    if has_key(b, key) {
        let i = choose|i: int| 0 <= i < b.len() && b[i].0 == key;
        assert((a + b)[a.len() + i].0 == key);
    }
}

proof fn lemma_has_entry_concat(a: Seq<WireEntry>, b: Seq<WireEntry>, key: Seq<char>, value: Seq<char>)
    ensures
        has_entry(a + b, key, value) <==> has_entry(a, key, value) || has_entry(b, key, value),
{
    if has_entry(a + b, key, value) {
        let i = choose|i: int| 0 <= i < (a + b).len() && (a + b)[i] == (key, value);
        if i < a.len() {
            assert(a[i] == (key, value));
        } else {
            assert(b[i - a.len()] == (key, value));
        }
    }
    if has_entry(a, key, value) {
        let i = choose|i: int| 0 <= i < a.len() && a[i] == (key, value);
        assert((a + b)[i] == (key, value));
    }
    if has_entry(b, key, value) {
        let i = choose|i: int| 0 <= i < b.len() && b[i] == (key, value);
        assert((a + b)[a.len() + i] == (key, value));
    }
}

proof fn lemma_has_key_one(k: Seq<char>, v: Seq<char>, key: Seq<char>)
    ensures
        has_key(one_entry(k, v), key) <==> key == k,
{
    assert(one_entry(k, v)[0] == (k, v));
    if has_key(one_entry(k, v), key) {
        let i = choose|i: int| 0 <= i < one_entry(k, v).len() && one_entry(k, v)[i].0 == key;
        assert(i == 0);
    }
}

fn append_first_entry(out: &mut String, key: &str, raw: &str)
    ensures
        final(out)@ == old(out)@ + entry_text((key@, jstr(raw@))),
{
    out.append("\"");
    out.append(key);
    out.append("\":");
    let q = json_quote(raw);
    out.append(q.as_str());
    proof {
        assert(out@ =~= old(out)@ + entry_text((key@, jstr(raw@))));
    }
}

fn append_str_entry(out: &mut String, key: &str, raw: &str)
    ensures
        final(out)@ == old(out)@ + entry_tail(one_entry(key@, jstr(raw@))),
{
    out.append(",");
    out.append("\"");
    out.append(key);
    out.append("\":");
    let q = json_quote(raw);
    out.append(q.as_str());
    proof {
        assert(out@ =~= old(out)@ + entry_tail(one_entry(key@, jstr(raw@))));
    }
}

fn append_opt_value(out: &mut String, key: &str, value: &str, spec_value: Ghost<Seq<char>>)
    requires
        value@ == spec_value@,
    ensures
        final(out)@ == old(out)@ + entry_tail(one_entry(key@, spec_value@)),
{
    out.append(",");
    out.append("\"");
    out.append(key);
    out.append("\":");
    out.append(value);
    proof {
        assert(out@ =~= old(out)@ + entry_tail(one_entry(key@, spec_value@)));
    }
}

fn append_opt_str(out: &mut String, key: &str, v: &Option<String>)
    ensures
        final(out)@ == old(out)@ + entry_tail(opt_str_entry(key@, *v)),
{
    match v {
        Some(s) => {
            let q = json_quote(s.as_str());
            append_opt_value(out, key, q.as_str(), Ghost(jstr(s@)));
            proof {
                assert(opt_str_entry(key@, *v) == one_entry(key@, jstr(s@)));
            }
        },
        None => {
            proof {
                assert(out@ =~= out@ + entry_tail(opt_str_entry(key@, *v)));
            }
        },
    }
}

fn append_opt_u64(out: &mut String, key: &str, v: &Option<u64>)
    ensures
        final(out)@ == old(out)@ + entry_tail(opt_u64_entry(key@, *v)),
{
    match v {
        Some(n) => {
            let d = u64_decimal(*n);
            append_opt_value(out, key, d.as_str(), Ghost(dec_digits(*n as nat)));
            proof {
                assert(opt_u64_entry(key@, *v) == one_entry(key@, dec_digits(*n as nat)));
            }
        },
        None => {
            proof {
                assert(out@ =~= out@ + entry_tail(opt_u64_entry(key@, *v)));
            }
        },
    }
}

fn append_opt_u32(out: &mut String, key: &str, v: &Option<u32>)
    ensures
        final(out)@ == old(out)@ + entry_tail(opt_u32_entry(key@, *v)),
{
    match v {
        Some(n) => {
            let d = u32_decimal(*n);
            append_opt_value(out, key, d.as_str(), Ghost(dec_digits(*n as nat)));
            proof {
                assert(opt_u32_entry(key@, *v) == one_entry(key@, dec_digits(*n as nat)));
            }
        },
        None => {
            proof {
                assert(out@ =~= out@ + entry_tail(opt_u32_entry(key@, *v)));
            }
        },
    }
}

fn append_opt_bool(out: &mut String, key: &str, v: &Option<bool>)
    ensures
        final(out)@ == old(out)@ + entry_tail(opt_bool_entry(key@, *v)),
{
    match v {
        Some(b) => {
            append_opt_value(out, key, bool_str(*b), Ghost(bool_wire(*b)));
            proof {
                assert(opt_bool_entry(key@, *v) == one_entry(key@, bool_wire(*b)));
            }
        },
        None => {
            proof {
                assert(out@ =~= out@ + entry_tail(opt_bool_entry(key@, *v)));
            }
        },
    }
}

fn append_opt_ton(out: &mut String, key: &str, v: &Option<ToN>)
    ensures
        final(out)@ == old(out)@ + entry_tail(opt_ton_entry(key@, *v)),
{
    match v {
        Some(t) => {
            append_opt_value(out, key, t.wire_str(), Ghost(ton_wire(*t)));
            proof {
                assert(opt_ton_entry(key@, *v) == one_entry(key@, ton_wire(*t)));
            }
        },
        None => {
            proof {
                assert(out@ =~= out@ + entry_tail(opt_ton_entry(key@, *v)));
            }
        },
    }
}

fn append_opt_dcs(out: &mut String, key: &str, v: &Option<DCS>)
    ensures
        final(out)@ == old(out)@ + entry_tail(opt_dcs_entry(key@, *v)),
{
    match v {
        Some(d) => {
            append_opt_value(out, key, d.wire_str(), Ghost(dcs_wire(*d)));
            proof {
                assert(opt_dcs_entry(key@, *v) == one_entry(key@, dcs_wire(*d)));
            }
        },
        None => {
            proof {
                assert(out@ =~= out@ + entry_tail(opt_dcs_entry(key@, *v)));
            }
        },
    }
}

fn append_opt_priority(out: &mut String, key: &str, v: &Option<Priority>)
    ensures
        final(out)@ == old(out)@ + entry_tail(opt_priority_entry(key@, *v)),
{
    match v {
        Some(p) => {
            append_opt_value(out, key, p.wire_str(), Ghost(priority_wire(*p)));
            proof {
                assert(opt_priority_entry(key@, *v) == one_entry(key@, priority_wire(*p)));
            }
        },
        None => {
            proof {
                assert(out@ =~= out@ + entry_tail(opt_priority_entry(key@, *v)));
            }
        },
    }
}

fn append_opt_currency(out: &mut String, key: &str, v: &Option<Currency>)
    ensures
        final(out)@ == old(out)@ + entry_tail(opt_currency_entry(key@, *v)),
{
    match v {
        Some(c) => {
            append_opt_value(out, key, c.wire_str(), Ghost(currency_wire(*c)));
            proof {
                assert(opt_currency_entry(key@, *v) == one_entry(key@, currency_wire(*c)));
            }
        },
        None => {
            proof {
                assert(out@ =~= out@ + entry_tail(opt_currency_entry(key@, *v)));
            }
        },
    }
}

fn append_opt_date(out: &mut String, key: &str, v: &Option<Date>)
    ensures
        final(out)@ == old(out)@ + entry_tail(opt_date_entry(key@, *v)),
{
    match v {
        Some(d) => {
            let mut value = "\"".to_owned();
            let text = d.rfc3339_string();
            value.append(text.as_str());
            value.append("\"");
            proof {
                assert(value@ =~= "\""@ + date_text(*d) + "\""@);
            }
            append_opt_value(out, key, value.as_str(), Ghost("\""@ + date_text(*d) + "\""@));
            proof {
                assert(opt_date_entry(key@, *v) == one_entry(key@, "\""@ + date_text(*d) + "\""@));
            }
        },
        None => {
            proof {
                assert(out@ =~= out@ + entry_tail(opt_date_entry(key@, *v)));
            }
        },
    }
}

fn append_opt_gates(out: &mut String, key: &str, v: &Option<Vec<String>>)
    ensures
        final(out)@ == old(out)@ + entry_tail(opt_gates_entry(key@, *v)),
{
    match v {
        Some(g) => {
            let value = render_string_array(g);
            append_opt_value(out, key, value.as_str(), Ghost(string_array_wire(g@)));
            proof {
                assert(opt_gates_entry(key@, *v) == one_entry(key@, string_array_wire(g@)));
            }
        },
        None => {
            proof {
                assert(out@ =~= out@ + entry_tail(opt_gates_entry(key@, *v)));
            }
        },
    }
}

fn append_opt_kv(out: &mut String, key: &str, v: &Option<KeyValue>)
    ensures
        final(out)@ == old(out)@ + entry_tail(opt_kv_entry(key@, *v)),
{
    match v {
        Some(kv) => {
            let value = kv.wire_string();
            append_opt_value(out, key, value.as_str(), Ghost(kv_wire(*kv)));
            proof {
                assert(opt_kv_entry(key@, *v) == one_entry(key@, kv_wire(*kv)));
            }
        },
        None => {
            proof {
                assert(out@ =~= out@ + entry_tail(opt_kv_entry(key@, *v)));
            }
        },
    }
}

impl SMS {
    /// True when every optional field is unset.
    pub open spec fn all_optional_unset(&self) -> bool {
        &&& self.source_ton is None
        &&& self.destination_ton is None
        &&& self.dcs is None
        &&& self.user_data_header is None
        &&& self.use_deliver_report is None
        &&& self.deliver_report_gates is None
        &&& self.relative_validity_time is None
        &&& self.absolute_validity_time is None
        &&& self.tariff is None
        &&& self.currency is None
        &&& self.age is None
        &&& self.priority is None
        &&& self.ref_id is None
        &&& self.product_description is None
        &&& self.product_category is None
        &&& self.mo_reference_id is None
        &&& self.custom_parameters is None
        &&& self.ignore_response is None
    }

    /// The minimal message: the mandatory fields as given, the message
    /// content set to `text`, and every optional field unset.
    pub fn with_text(
        source: Address,
        destination: Address,
        platform_id: PlatformID,
        platform_partner_id: PlatformPartnerID,
        text: String,
    ) -> (r: SMS)
        ensures
            r.source@ == source@,
            r.destination@ == destination@,
            r.platform_id@ == platform_id@,
            r.platform_partner_id@ == platform_partner_id@,
            r.user_data@ == text@,
            r.all_optional_unset(),
    {
        SMS {
            source,
            source_ton: None,
            destination,
            destination_ton: None,
            dcs: None,
            user_data_header: None,
            user_data: text,
            use_deliver_report: None,
            deliver_report_gates: None,
            relative_validity_time: None,
            absolute_validity_time: None,
            tariff: None,
            currency: None,
            age: None,
            priority: None,
            platform_id,
            platform_partner_id,
            ref_id: None,
            product_description: None,
            product_category: None,
            mo_reference_id: None,
            custom_parameters: None,
            ignore_response: None,
        }
    }

    /// Serializes the message to its exact wire text.
    #[verifier::rlimit(100)]
    pub fn to_wire_json(&self) -> (r: String)
        ensures
            r@ == sms_wire(*self),
    {
        let mut out = "{".to_owned();
        append_first_entry(&mut out, "source", self.source.as_str());
        append_opt_ton(&mut out, "sourceTON", &self.source_ton);
        append_str_entry(&mut out, "destination", self.destination.as_str());
        append_opt_ton(&mut out, "destinationTON", &self.destination_ton);
        append_opt_dcs(&mut out, "dcs", &self.dcs);
        append_opt_str(&mut out, "userDataHeader", &self.user_data_header);
        append_str_entry(&mut out, "userData", self.user_data.as_str());
        append_opt_bool(&mut out, "useDeliveryReport", &self.use_deliver_report);
        append_opt_gates(&mut out, "deliveryReportGates", &self.deliver_report_gates);
        append_opt_u64(&mut out, "relativeValidityTime", &self.relative_validity_time);
        append_opt_date(&mut out, "absoluteValidityTime", &self.absolute_validity_time);
        append_opt_u32(&mut out, "tariff", &self.tariff);
        append_opt_currency(&mut out, "currency", &self.currency);
        append_opt_u32(&mut out, "age", &self.age);
        append_opt_priority(&mut out, "priority", &self.priority);
        append_str_entry(&mut out, "platformId", self.platform_id.as_str());
        append_str_entry(&mut out, "platformPartnerId", self.platform_partner_id.as_str());
        append_opt_str(&mut out, "refId", &self.ref_id);
        append_opt_str(&mut out, "productDescription", &self.product_description);
        append_opt_u32(&mut out, "productCategory", &self.product_category);
        append_opt_str(&mut out, "moReferenceId", &self.mo_reference_id);
        append_opt_kv(&mut out, "customParameters", &self.custom_parameters);
        append_opt_bool(&mut out, "ignoreResponse", &self.ignore_response);
        out.append("}");
        proof {
            let e1 = entry_text(("source"@, jstr(self.source@)));
            let t2 = entry_tail(opt_ton_entry("sourceTON"@, self.source_ton));
            let t3 = entry_tail(one_entry("destination"@, jstr(self.destination@)));
            let t4 = entry_tail(opt_ton_entry("destinationTON"@, self.destination_ton));
            let t5 = entry_tail(opt_dcs_entry("dcs"@, self.dcs));
            let t6 = entry_tail(opt_str_entry("userDataHeader"@, self.user_data_header));
            let t7 = entry_tail(one_entry("userData"@, jstr(self.user_data@)));
            let t8 = entry_tail(opt_bool_entry("useDeliveryReport"@, self.use_deliver_report));
            let t9 = entry_tail(opt_gates_entry("deliveryReportGates"@, self.deliver_report_gates));
            let t10 = entry_tail(opt_u64_entry("relativeValidityTime"@, self.relative_validity_time));
            let t11 = entry_tail(opt_date_entry("absoluteValidityTime"@, self.absolute_validity_time));
            let t12 = entry_tail(opt_u32_entry("tariff"@, self.tariff));
            let t13 = entry_tail(opt_currency_entry("currency"@, self.currency));
            let t14 = entry_tail(opt_u32_entry("age"@, self.age));
            let t15 = entry_tail(opt_priority_entry("priority"@, self.priority));
            let t16 = entry_tail(one_entry("platformId"@, jstr(self.platform_id@)));
            let t17 = entry_tail(one_entry("platformPartnerId"@, jstr(self.platform_partner_id@)));
            let t18 = entry_tail(opt_str_entry("refId"@, self.ref_id));
            let t19 = entry_tail(opt_str_entry("productDescription"@, self.product_description));
            let t20 = entry_tail(opt_u32_entry("productCategory"@, self.product_category));
            let t21 = entry_tail(opt_str_entry("moReferenceId"@, self.mo_reference_id));
            let t22 = entry_tail(opt_kv_entry("customParameters"@, self.custom_parameters));
            let t23 = entry_tail(opt_bool_entry("ignoreResponse"@, self.ignore_response));
            let lb = "{"@;
            let sw = *self;
            lemma_concat_associative(lb, e1, t2);
            lemma_concat_associative(lb, e1 + t2, t3);
            lemma_concat_associative(lb, e1 + t2 + t3, t4);
            lemma_concat_associative(lb, e1 + t2 + t3 + t4, t5);
            lemma_concat_associative(lb, e1 + t2 + t3 + t4 + t5, t6);
            lemma_concat_associative(lb, e1 + t2 + t3 + t4 + t5 + t6, t7);
            lemma_concat_associative(lb, e1 + t2 + t3 + t4 + t5 + t6 + t7, t8);
            lemma_concat_associative(lb, body_head(sw), tails_mid(sw));
            lemma_concat_associative(lb + body_head(sw), t9, t10);
            lemma_concat_associative(lb + body_head(sw), t9 + t10, t11);
            lemma_concat_associative(lb + body_head(sw), t9 + t10 + t11, t12);
            lemma_concat_associative(lb + body_head(sw), t9 + t10 + t11 + t12, t13);
            lemma_concat_associative(lb + body_head(sw), t9 + t10 + t11 + t12 + t13, t14);
            lemma_concat_associative(lb + body_head(sw), t9 + t10 + t11 + t12 + t13 + t14, t15);
            lemma_concat_associative(lb + body_head(sw), t9 + t10 + t11 + t12 + t13 + t14 + t15, t16);
            lemma_concat_associative(lb, body_head(sw) + tails_mid(sw), tails_last(sw));
            lemma_concat_associative(lb + (body_head(sw) + tails_mid(sw)), t17, t18);
            lemma_concat_associative(lb + (body_head(sw) + tails_mid(sw)), t17 + t18, t19);
            lemma_concat_associative(lb + (body_head(sw) + tails_mid(sw)), t17 + t18 + t19, t20);
            lemma_concat_associative(lb + (body_head(sw) + tails_mid(sw)), t17 + t18 + t19 + t20, t21);
            lemma_concat_associative(lb + (body_head(sw) + tails_mid(sw)), t17 + t18 + t19 + t20 + t21, t22);
            lemma_concat_associative(lb + (body_head(sw) + tails_mid(sw)), t17 + t18 + t19 + t20 + t21 + t22, t23);
            assert(out@ == sms_wire(sw));
        }
        out
    }

    /// Builds the outbound request that sends this message: a POST of
    /// the wire JSON to the `send` endpoint under the account's base
    /// URL, with the account's credentials attached. Fails with a
    /// `Parse` error exactly when the base URL does not parse or
    /// exceeds the machine limit of [`url_fits`]; nothing is sent
    /// either way.
    pub fn send_request(&self, account: &Account) -> (r: Result<HttpRequest, Error>)
        ensures
            r is Ok <==> url_parses(account.base_url@) && url_fits(
                account.base_url@,
                "sms/send"@,
            ),
            r is Ok ==> {
                &&& r->Ok_0.method@ == "POST"@
                &&& r->Ok_0.url@ == url_with_path(account.base_url@, "sms/send"@)
                &&& r->Ok_0.username@ == account.username@
                &&& r->Ok_0.password@ == account.password@
                &&& r->Ok_0.content_type@ == "application/json"@
                &&& r->Ok_0.body@ == sms_wire(*self)
            },
            r is Err ==> r->Err_0.code() == ErrorCode::Parse && r->Err_0.msg_view() is Some,
    {
        let body = self.to_wire_json();
        let r = compose_request(account, "send", body);
        proof {
            reveal_strlit("sms/");
            reveal_strlit("send");
            reveal_strlit("sms/send");
            assert("sms/"@ + "send"@ =~= "sms/send"@);
        }
        r
    }
}


#[verifier::rlimit(100)]
proof fn lemma_render_head(s: SMS)
    ensures
        render_entries(entries_head(s)) == body_head(s),
{
    let q1 = one_entry("source"@, jstr(s.source@));
    assert(q1[0] == ("source"@, jstr(s.source@)));
    let q2 = q1 + opt_ton_entry("sourceTON"@, s.source_ton);
    lemma_render_entries_piece(q1, opt_ton_entry("sourceTON"@, s.source_ton));
    let q3 = q2 + one_entry("destination"@, jstr(s.destination@));
    lemma_render_entries_piece(q2, one_entry("destination"@, jstr(s.destination@)));
    let q4 = q3 + opt_ton_entry("destinationTON"@, s.destination_ton);
    lemma_render_entries_piece(q3, opt_ton_entry("destinationTON"@, s.destination_ton));
    let q5 = q4 + opt_dcs_entry("dcs"@, s.dcs);
    lemma_render_entries_piece(q4, opt_dcs_entry("dcs"@, s.dcs));
    let q6 = q5 + opt_str_entry("userDataHeader"@, s.user_data_header);
    lemma_render_entries_piece(q5, opt_str_entry("userDataHeader"@, s.user_data_header));
    let q7 = q6 + one_entry("userData"@, jstr(s.user_data@));
    lemma_render_entries_piece(q6, one_entry("userData"@, jstr(s.user_data@)));
    let q8 = q7 + opt_bool_entry("useDeliveryReport"@, s.use_deliver_report);
    lemma_render_entries_piece(q7, opt_bool_entry("useDeliveryReport"@, s.use_deliver_report));
    assert(entries_head(s) == q8);
    assert(body_head(s) =~= entry_text(("source"@, jstr(s.source@))) + entry_tail(opt_ton_entry("sourceTON"@, s.source_ton)) + entry_tail(one_entry("destination"@, jstr(s.destination@))) + entry_tail(opt_ton_entry("destinationTON"@, s.destination_ton)) + entry_tail(opt_dcs_entry("dcs"@, s.dcs)) + entry_tail(opt_str_entry("userDataHeader"@, s.user_data_header)) + entry_tail(one_entry("userData"@, jstr(s.user_data@))) + entry_tail(opt_bool_entry("useDeliveryReport"@, s.use_deliver_report)));
}

#[verifier::rlimit(100)]
proof fn lemma_render_mid(es: Seq<WireEntry>, s: SMS)
    requires
        es.len() > 0,
    ensures
        render_entries(es + entries_mid(s)) == render_entries(es) + tails_mid(s),
{
    let p0 = opt_gates_entry("deliveryReportGates"@, s.deliver_report_gates);
    let p1 = opt_u64_entry("relativeValidityTime"@, s.relative_validity_time);
    let p2 = opt_date_entry("absoluteValidityTime"@, s.absolute_validity_time);
    let p3 = opt_u32_entry("tariff"@, s.tariff);
    let p4 = opt_currency_entry("currency"@, s.currency);
    let p5 = opt_u32_entry("age"@, s.age);
    let p6 = opt_priority_entry("priority"@, s.priority);
    let p7 = one_entry("platformId"@, jstr(s.platform_id@));
    let t0 = entry_tail(p0);
    let t1 = entry_tail(p1);
    let t2 = entry_tail(p2);
    let t3 = entry_tail(p3);
    let t4 = entry_tail(p4);
    let t5 = entry_tail(p5);
    let t6 = entry_tail(p6);
    let t7 = entry_tail(p7);
    lemma_concat_associative(es, p0, p1);
    lemma_concat_associative(es, p0 + p1, p2);
    lemma_concat_associative(es, p0 + p1 + p2, p3);
    lemma_concat_associative(es, p0 + p1 + p2 + p3, p4);
    lemma_concat_associative(es, p0 + p1 + p2 + p3 + p4, p5);
    lemma_concat_associative(es, p0 + p1 + p2 + p3 + p4 + p5, p6);
    lemma_concat_associative(es, p0 + p1 + p2 + p3 + p4 + p5 + p6, p7);
    let q0 = es + p0;
    lemma_render_entries_piece(es, p0);
    let q1 = q0 + p1;
    lemma_render_entries_piece(q0, p1);
    let q2 = q1 + p2;
    lemma_render_entries_piece(q1, p2);
    let q3 = q2 + p3;
    lemma_render_entries_piece(q2, p3);
    let q4 = q3 + p4;
    lemma_render_entries_piece(q3, p4);
    let q5 = q4 + p5;
    lemma_render_entries_piece(q4, p5);
    let q6 = q5 + p6;
    lemma_render_entries_piece(q5, p6);
    let q7 = q6 + p7;
    lemma_render_entries_piece(q6, p7);
    let base = render_entries(es);
    lemma_concat_associative(base, t0, t1);
    lemma_concat_associative(base, t0 + t1, t2);
    lemma_concat_associative(base, t0 + t1 + t2, t3);
    lemma_concat_associative(base, t0 + t1 + t2 + t3, t4);
    lemma_concat_associative(base, t0 + t1 + t2 + t3 + t4, t5);
    lemma_concat_associative(base, t0 + t1 + t2 + t3 + t4 + t5, t6);
    lemma_concat_associative(base, t0 + t1 + t2 + t3 + t4 + t5 + t6, t7);
}

#[verifier::rlimit(100)]
proof fn lemma_render_last(es: Seq<WireEntry>, s: SMS)
    requires
        es.len() > 0,
    ensures
        render_entries(es + entries_last(s)) == render_entries(es) + tails_last(s),
{
    let p0 = one_entry("platformPartnerId"@, jstr(s.platform_partner_id@));
    let p1 = opt_str_entry("refId"@, s.ref_id);
    let p2 = opt_str_entry("productDescription"@, s.product_description);
    let p3 = opt_u32_entry("productCategory"@, s.product_category);
    let p4 = opt_str_entry("moReferenceId"@, s.mo_reference_id);
    let p5 = opt_kv_entry("customParameters"@, s.custom_parameters);
    let p6 = opt_bool_entry("ignoreResponse"@, s.ignore_response);
    let t0 = entry_tail(p0);
    let t1 = entry_tail(p1);
    let t2 = entry_tail(p2);
    let t3 = entry_tail(p3);
    let t4 = entry_tail(p4);
    let t5 = entry_tail(p5);
    let t6 = entry_tail(p6);
    lemma_concat_associative(es, p0, p1);
    lemma_concat_associative(es, p0 + p1, p2);
    lemma_concat_associative(es, p0 + p1 + p2, p3);
    lemma_concat_associative(es, p0 + p1 + p2 + p3, p4);
    lemma_concat_associative(es, p0 + p1 + p2 + p3 + p4, p5);
    lemma_concat_associative(es, p0 + p1 + p2 + p3 + p4 + p5, p6);
    let q0 = es + p0;
    lemma_render_entries_piece(es, p0);
    let q1 = q0 + p1;
    lemma_render_entries_piece(q0, p1);
    let q2 = q1 + p2;
    lemma_render_entries_piece(q1, p2);
    let q3 = q2 + p3;
    lemma_render_entries_piece(q2, p3);
    let q4 = q3 + p4;
    lemma_render_entries_piece(q3, p4);
    let q5 = q4 + p5;
    lemma_render_entries_piece(q4, p5);
    let q6 = q5 + p6;
    lemma_render_entries_piece(q5, p6);
    let base = render_entries(es);
    lemma_concat_associative(base, t0, t1);
    lemma_concat_associative(base, t0 + t1, t2);
    lemma_concat_associative(base, t0 + t1 + t2, t3);
    lemma_concat_associative(base, t0 + t1 + t2 + t3, t4);
    lemma_concat_associative(base, t0 + t1 + t2 + t3 + t4, t5);
    lemma_concat_associative(base, t0 + t1 + t2 + t3 + t4 + t5, t6);
}

/// The serialized text is exactly the brace-wrapped, comma-joined
/// rendering of the present entries: the flat text of [`sms_wire`] and
/// the entry list of [`entries`] agree.
pub proof fn lemma_wire_renders_entries(s: SMS)
    ensures
        sms_wire(s) == "{"@ + render_entries(entries(s)) + "}"@,
{
    lemma_render_head(s);
    assert(entries_head(s).len() > 0);
    lemma_render_mid(entries_head(s), s);
    lemma_render_last(entries_head(s) + entries_mid(s), s);
    assert(render_entries(entries(s)) == body_head(s) + tails_mid(s) + tails_last(s));
}

/// A message whose optional fields are all unset — as the minimal
/// constructor leaves them — serializes with exactly the five mandatory
/// entries, in declaration order, and no others.
pub proof fn lemma_minimal_entries(s: SMS)
    requires
        s.all_optional_unset(),
    ensures
        entries(s) == seq![
            ("source"@, jstr(s.source@)),
            ("destination"@, jstr(s.destination@)),
            ("userData"@, jstr(s.user_data@)),
            ("platformId"@, jstr(s.platform_id@)),
            ("platformPartnerId"@, jstr(s.platform_partner_id@)),
        ],
{
    assert(entries(s) =~= seq![
        ("source"@, jstr(s.source@)),
        ("destination"@, jstr(s.destination@)),
        ("userData"@, jstr(s.user_data@)),
        ("platformId"@, jstr(s.platform_id@)),
        ("platformPartnerId"@, jstr(s.platform_partner_id@)),
    ]);
}

#[verifier::rlimit(100)]
proof fn lemma_head_keys(s: SMS, key: Seq<char>)
    ensures
        has_key(entries_head(s), key) <==> {
            ||| key == "source"@
            ||| (s.source_ton is Some && key == "sourceTON"@)
            ||| key == "destination"@
            ||| (s.destination_ton is Some && key == "destinationTON"@)
            ||| (s.dcs is Some && key == "dcs"@)
            ||| (s.user_data_header is Some && key == "userDataHeader"@)
            ||| key == "userData"@
            ||| (s.use_deliver_report is Some && key == "useDeliveryReport"@)
        },
{
    let q1 = one_entry("source"@, jstr(s.source@));
    let q2 = q1 + opt_ton_entry("sourceTON"@, s.source_ton);
    lemma_has_key_concat(q1, opt_ton_entry("sourceTON"@, s.source_ton), key);
    let q3 = q2 + one_entry("destination"@, jstr(s.destination@));
    lemma_has_key_concat(q2, one_entry("destination"@, jstr(s.destination@)), key);
    let q4 = q3 + opt_ton_entry("destinationTON"@, s.destination_ton);
    lemma_has_key_concat(q3, opt_ton_entry("destinationTON"@, s.destination_ton), key);
    let q5 = q4 + opt_dcs_entry("dcs"@, s.dcs);
    lemma_has_key_concat(q4, opt_dcs_entry("dcs"@, s.dcs), key);
    let q6 = q5 + opt_str_entry("userDataHeader"@, s.user_data_header);
    lemma_has_key_concat(q5, opt_str_entry("userDataHeader"@, s.user_data_header), key);
    let q7 = q6 + one_entry("userData"@, jstr(s.user_data@));
    lemma_has_key_concat(q6, one_entry("userData"@, jstr(s.user_data@)), key);
    let q8 = q7 + opt_bool_entry("useDeliveryReport"@, s.use_deliver_report);
    lemma_has_key_concat(q7, opt_bool_entry("useDeliveryReport"@, s.use_deliver_report), key);
    lemma_has_key_one("source"@, jstr(s.source@), key);
    match s.source_ton {
        Some(t) => lemma_has_key_one("sourceTON"@, ton_wire(t), key),
        None => {},
    }
    lemma_has_key_one("destination"@, jstr(s.destination@), key);
    match s.destination_ton {
        Some(t) => lemma_has_key_one("destinationTON"@, ton_wire(t), key),
        None => {},
    }
    match s.dcs {
        Some(t) => lemma_has_key_one("dcs"@, dcs_wire(t), key),
        None => {},
    }
    match s.user_data_header {
        Some(t) => lemma_has_key_one("userDataHeader"@, jstr(t@), key),
        None => {},
    }
    lemma_has_key_one("userData"@, jstr(s.user_data@), key);
    match s.use_deliver_report {
        Some(t) => lemma_has_key_one("useDeliveryReport"@, bool_wire(t), key),
        None => {},
    }
    assert(entries_head(s) == q8);
}

#[verifier::rlimit(100)]
proof fn lemma_mid_keys(s: SMS, key: Seq<char>)
    ensures
        has_key(entries_mid(s), key) <==> {
            ||| (s.deliver_report_gates is Some && key == "deliveryReportGates"@)
            ||| (s.relative_validity_time is Some && key == "relativeValidityTime"@)
            ||| (s.absolute_validity_time is Some && key == "absoluteValidityTime"@)
            ||| (s.tariff is Some && key == "tariff"@)
            ||| (s.currency is Some && key == "currency"@)
            ||| (s.age is Some && key == "age"@)
            ||| (s.priority is Some && key == "priority"@)
            ||| key == "platformId"@
        },
{
    let q1 = opt_gates_entry("deliveryReportGates"@, s.deliver_report_gates);
    let q2 = q1 + opt_u64_entry("relativeValidityTime"@, s.relative_validity_time);
    lemma_has_key_concat(q1, opt_u64_entry("relativeValidityTime"@, s.relative_validity_time), key);
    let q3 = q2 + opt_date_entry("absoluteValidityTime"@, s.absolute_validity_time);
    lemma_has_key_concat(q2, opt_date_entry("absoluteValidityTime"@, s.absolute_validity_time), key);
    let q4 = q3 + opt_u32_entry("tariff"@, s.tariff);
    lemma_has_key_concat(q3, opt_u32_entry("tariff"@, s.tariff), key);
    let q5 = q4 + opt_currency_entry("currency"@, s.currency);
    lemma_has_key_concat(q4, opt_currency_entry("currency"@, s.currency), key);
    let q6 = q5 + opt_u32_entry("age"@, s.age);
    lemma_has_key_concat(q5, opt_u32_entry("age"@, s.age), key);
    let q7 = q6 + opt_priority_entry("priority"@, s.priority);
    lemma_has_key_concat(q6, opt_priority_entry("priority"@, s.priority), key);
    let q8 = q7 + one_entry("platformId"@, jstr(s.platform_id@));
    lemma_has_key_concat(q7, one_entry("platformId"@, jstr(s.platform_id@)), key);
    match s.deliver_report_gates {
        Some(t) => lemma_has_key_one("deliveryReportGates"@, string_array_wire(t@), key),
        None => {},
    }
    match s.relative_validity_time {
        Some(t) => lemma_has_key_one("relativeValidityTime"@, dec_digits(t as nat), key),
        None => {},
    }
    match s.absolute_validity_time {
        Some(t) => lemma_has_key_one("absoluteValidityTime"@, "\""@ + date_text(t) + "\""@, key),
        None => {},
    }
    match s.tariff {
        Some(t) => lemma_has_key_one("tariff"@, dec_digits(t as nat), key),
        None => {},
    }
    match s.currency {
        Some(t) => lemma_has_key_one("currency"@, currency_wire(t), key),
        None => {},
    }
    match s.age {
        Some(t) => lemma_has_key_one("age"@, dec_digits(t as nat), key),
        None => {},
    }
    match s.priority {
        Some(t) => lemma_has_key_one("priority"@, priority_wire(t), key),
        None => {},
    }
    lemma_has_key_one("platformId"@, jstr(s.platform_id@), key);
    assert(entries_mid(s) == q8);
}

#[verifier::rlimit(100)]
proof fn lemma_last_keys(s: SMS, key: Seq<char>)
    ensures
        has_key(entries_last(s), key) <==> {
            ||| key == "platformPartnerId"@
            ||| (s.ref_id is Some && key == "refId"@)
            ||| (s.product_description is Some && key == "productDescription"@)
            ||| (s.product_category is Some && key == "productCategory"@)
            ||| (s.mo_reference_id is Some && key == "moReferenceId"@)
            ||| (s.custom_parameters is Some && key == "customParameters"@)
            ||| (s.ignore_response is Some && key == "ignoreResponse"@)
        },
{
    let q1 = one_entry("platformPartnerId"@, jstr(s.platform_partner_id@));
    let q2 = q1 + opt_str_entry("refId"@, s.ref_id);
    lemma_has_key_concat(q1, opt_str_entry("refId"@, s.ref_id), key);
    let q3 = q2 + opt_str_entry("productDescription"@, s.product_description);
    lemma_has_key_concat(q2, opt_str_entry("productDescription"@, s.product_description), key);
    let q4 = q3 + opt_u32_entry("productCategory"@, s.product_category);
    lemma_has_key_concat(q3, opt_u32_entry("productCategory"@, s.product_category), key);
    let q5 = q4 + opt_str_entry("moReferenceId"@, s.mo_reference_id);
    lemma_has_key_concat(q4, opt_str_entry("moReferenceId"@, s.mo_reference_id), key);
    let q6 = q5 + opt_kv_entry("customParameters"@, s.custom_parameters);
    lemma_has_key_concat(q5, opt_kv_entry("customParameters"@, s.custom_parameters), key);
    let q7 = q6 + opt_bool_entry("ignoreResponse"@, s.ignore_response);
    lemma_has_key_concat(q6, opt_bool_entry("ignoreResponse"@, s.ignore_response), key);
    lemma_has_key_one("platformPartnerId"@, jstr(s.platform_partner_id@), key);
    match s.ref_id {
        Some(t) => lemma_has_key_one("refId"@, jstr(t@), key),
        None => {},
    }
    match s.product_description {
        Some(t) => lemma_has_key_one("productDescription"@, jstr(t@), key),
        None => {},
    }
    match s.product_category {
        Some(t) => lemma_has_key_one("productCategory"@, dec_digits(t as nat), key),
        None => {},
    }
    match s.mo_reference_id {
        Some(t) => lemma_has_key_one("moReferenceId"@, jstr(t@), key),
        None => {},
    }
    match s.custom_parameters {
        Some(t) => lemma_has_key_one("customParameters"@, kv_wire(t), key),
        None => {},
    }
    match s.ignore_response {
        Some(t) => lemma_has_key_one("ignoreResponse"@, bool_wire(t), key),
        None => {},
    }
    assert(entries_last(s) == q7);
}

/// The wire object holds a given key exactly when the key is one of the
/// five mandatory keys, or the renamed wire key of an optional field
/// that is set.
pub proof fn lemma_wire_object_keys(s: SMS, key: Seq<char>)
    ensures
        has_key(entries(s), key) <==> {
            ||| key == "source"@
            ||| (s.source_ton is Some && key == "sourceTON"@)
            ||| key == "destination"@
            ||| (s.destination_ton is Some && key == "destinationTON"@)
            ||| (s.dcs is Some && key == "dcs"@)
            ||| (s.user_data_header is Some && key == "userDataHeader"@)
            ||| key == "userData"@
            ||| (s.use_deliver_report is Some && key == "useDeliveryReport"@)
            ||| (s.deliver_report_gates is Some && key == "deliveryReportGates"@)
            ||| (s.relative_validity_time is Some && key == "relativeValidityTime"@)
            ||| (s.absolute_validity_time is Some && key == "absoluteValidityTime"@)
            ||| (s.tariff is Some && key == "tariff"@)
            ||| (s.currency is Some && key == "currency"@)
            ||| (s.age is Some && key == "age"@)
            ||| (s.priority is Some && key == "priority"@)
            ||| key == "platformId"@
            ||| key == "platformPartnerId"@
            ||| (s.ref_id is Some && key == "refId"@)
            ||| (s.product_description is Some && key == "productDescription"@)
            ||| (s.product_category is Some && key == "productCategory"@)
            ||| (s.mo_reference_id is Some && key == "moReferenceId"@)
            ||| (s.custom_parameters is Some && key == "customParameters"@)
            ||| (s.ignore_response is Some && key == "ignoreResponse"@)
        },
{
    lemma_head_keys(s, key);
    lemma_mid_keys(s, key);
    lemma_last_keys(s, key);
    lemma_has_key_concat(entries_head(s), entries_mid(s), key);
    lemma_has_key_concat(entries_head(s) + entries_mid(s), entries_last(s), key);
}

#[verifier::rlimit(100)]
proof fn lemma_head_values(s: SMS)
    ensures
        has_entry(entries_head(s), "source"@, jstr(s.source@)),
        s.source_ton is Some ==> has_entry(entries_head(s), "sourceTON"@, ton_wire(s.source_ton->0)),
        has_entry(entries_head(s), "destination"@, jstr(s.destination@)),
        s.destination_ton is Some ==> has_entry(entries_head(s), "destinationTON"@, ton_wire(s.destination_ton->0)),
        s.dcs is Some ==> has_entry(entries_head(s), "dcs"@, dcs_wire(s.dcs->0)),
        s.user_data_header is Some ==> has_entry(entries_head(s), "userDataHeader"@, jstr((s.user_data_header->0)@)),
        has_entry(entries_head(s), "userData"@, jstr(s.user_data@)),
        s.use_deliver_report is Some ==> has_entry(entries_head(s), "useDeliveryReport"@, bool_wire(s.use_deliver_report->0)),
{
    let q1 = one_entry("source"@, jstr(s.source@));
    let q2 = q1 + opt_ton_entry("sourceTON"@, s.source_ton);
    let q3 = q2 + one_entry("destination"@, jstr(s.destination@));
    let q4 = q3 + opt_ton_entry("destinationTON"@, s.destination_ton);
    let q5 = q4 + opt_dcs_entry("dcs"@, s.dcs);
    let q6 = q5 + opt_str_entry("userDataHeader"@, s.user_data_header);
    let q7 = q6 + one_entry("userData"@, jstr(s.user_data@));
    let q8 = q7 + opt_bool_entry("useDeliveryReport"@, s.use_deliver_report);
    assert(entries_head(s) == q8);
    assert forall|key: Seq<char>, value: Seq<char>| #[trigger] has_entry(entries_head(s), key, value) <==> {
        ||| has_entry(one_entry("source"@, jstr(s.source@)), key, value)
        ||| has_entry(opt_ton_entry("sourceTON"@, s.source_ton), key, value)
        ||| has_entry(one_entry("destination"@, jstr(s.destination@)), key, value)
        ||| has_entry(opt_ton_entry("destinationTON"@, s.destination_ton), key, value)
        ||| has_entry(opt_dcs_entry("dcs"@, s.dcs), key, value)
        ||| has_entry(opt_str_entry("userDataHeader"@, s.user_data_header), key, value)
        ||| has_entry(one_entry("userData"@, jstr(s.user_data@)), key, value)
        ||| has_entry(opt_bool_entry("useDeliveryReport"@, s.use_deliver_report), key, value)
    } by {
        lemma_has_entry_concat(q1, opt_ton_entry("sourceTON"@, s.source_ton), key, value);
        lemma_has_entry_concat(q2, one_entry("destination"@, jstr(s.destination@)), key, value);
        lemma_has_entry_concat(q3, opt_ton_entry("destinationTON"@, s.destination_ton), key, value);
        lemma_has_entry_concat(q4, opt_dcs_entry("dcs"@, s.dcs), key, value);
        lemma_has_entry_concat(q5, opt_str_entry("userDataHeader"@, s.user_data_header), key, value);
        lemma_has_entry_concat(q6, one_entry("userData"@, jstr(s.user_data@)), key, value);
        lemma_has_entry_concat(q7, opt_bool_entry("useDeliveryReport"@, s.use_deliver_report), key, value);
    }
    assert(one_entry("source"@, jstr(s.source@))[0] == ("source"@, jstr(s.source@)));
    match s.source_ton {
        Some(t) => { assert(opt_ton_entry("sourceTON"@, s.source_ton)[0] == ("sourceTON"@, ton_wire(t))); },
        None => {},
    }
    assert(one_entry("destination"@, jstr(s.destination@))[0] == ("destination"@, jstr(s.destination@)));
    match s.destination_ton {
        Some(t) => { assert(opt_ton_entry("destinationTON"@, s.destination_ton)[0] == ("destinationTON"@, ton_wire(t))); },
        None => {},
    }
    match s.dcs {
        Some(t) => { assert(opt_dcs_entry("dcs"@, s.dcs)[0] == ("dcs"@, dcs_wire(t))); },
        None => {},
    }
    match s.user_data_header {
        Some(t) => { assert(opt_str_entry("userDataHeader"@, s.user_data_header)[0] == ("userDataHeader"@, jstr(t@))); },
        None => {},
    }
    assert(one_entry("userData"@, jstr(s.user_data@))[0] == ("userData"@, jstr(s.user_data@)));
    match s.use_deliver_report {
        Some(t) => { assert(opt_bool_entry("useDeliveryReport"@, s.use_deliver_report)[0] == ("useDeliveryReport"@, bool_wire(t))); },
        None => {},
    }
}

#[verifier::rlimit(100)]
proof fn lemma_mid_values(s: SMS)
    ensures
        s.deliver_report_gates is Some ==> has_entry(entries_mid(s), "deliveryReportGates"@, string_array_wire((s.deliver_report_gates->0)@)),
        s.relative_validity_time is Some ==> has_entry(entries_mid(s), "relativeValidityTime"@, dec_digits(s.relative_validity_time->0 as nat)),
        s.absolute_validity_time is Some ==> has_entry(entries_mid(s), "absoluteValidityTime"@, "\""@ + date_text(s.absolute_validity_time->0) + "\""@),
        s.tariff is Some ==> has_entry(entries_mid(s), "tariff"@, dec_digits(s.tariff->0 as nat)),
        s.currency is Some ==> has_entry(entries_mid(s), "currency"@, currency_wire(s.currency->0)),
        s.age is Some ==> has_entry(entries_mid(s), "age"@, dec_digits(s.age->0 as nat)),
        s.priority is Some ==> has_entry(entries_mid(s), "priority"@, priority_wire(s.priority->0)),
        has_entry(entries_mid(s), "platformId"@, jstr(s.platform_id@)),
{
    let q1 = opt_gates_entry("deliveryReportGates"@, s.deliver_report_gates);
    let q2 = q1 + opt_u64_entry("relativeValidityTime"@, s.relative_validity_time);
    let q3 = q2 + opt_date_entry("absoluteValidityTime"@, s.absolute_validity_time);
    let q4 = q3 + opt_u32_entry("tariff"@, s.tariff);
    let q5 = q4 + opt_currency_entry("currency"@, s.currency);
    let q6 = q5 + opt_u32_entry("age"@, s.age);
    let q7 = q6 + opt_priority_entry("priority"@, s.priority);
    let q8 = q7 + one_entry("platformId"@, jstr(s.platform_id@));
    assert(entries_mid(s) == q8);
    assert forall|key: Seq<char>, value: Seq<char>| #[trigger] has_entry(entries_mid(s), key, value) <==> {
        ||| has_entry(opt_gates_entry("deliveryReportGates"@, s.deliver_report_gates), key, value)
        ||| has_entry(opt_u64_entry("relativeValidityTime"@, s.relative_validity_time), key, value)
        ||| has_entry(opt_date_entry("absoluteValidityTime"@, s.absolute_validity_time), key, value)
        ||| has_entry(opt_u32_entry("tariff"@, s.tariff), key, value)
        ||| has_entry(opt_currency_entry("currency"@, s.currency), key, value)
        ||| has_entry(opt_u32_entry("age"@, s.age), key, value)
        ||| has_entry(opt_priority_entry("priority"@, s.priority), key, value)
        ||| has_entry(one_entry("platformId"@, jstr(s.platform_id@)), key, value)
    } by {
        lemma_has_entry_concat(q1, opt_u64_entry("relativeValidityTime"@, s.relative_validity_time), key, value);
        lemma_has_entry_concat(q2, opt_date_entry("absoluteValidityTime"@, s.absolute_validity_time), key, value);
        lemma_has_entry_concat(q3, opt_u32_entry("tariff"@, s.tariff), key, value);
        lemma_has_entry_concat(q4, opt_currency_entry("currency"@, s.currency), key, value);
        lemma_has_entry_concat(q5, opt_u32_entry("age"@, s.age), key, value);
        lemma_has_entry_concat(q6, opt_priority_entry("priority"@, s.priority), key, value);
        lemma_has_entry_concat(q7, one_entry("platformId"@, jstr(s.platform_id@)), key, value);
    }
    match s.deliver_report_gates {
        Some(t) => { assert(opt_gates_entry("deliveryReportGates"@, s.deliver_report_gates)[0] == ("deliveryReportGates"@, string_array_wire(t@))); },
        None => {},
    }
    match s.relative_validity_time {
        Some(t) => { assert(opt_u64_entry("relativeValidityTime"@, s.relative_validity_time)[0] == ("relativeValidityTime"@, dec_digits(t as nat))); },
        None => {},
    }
    match s.absolute_validity_time {
        Some(t) => { assert(opt_date_entry("absoluteValidityTime"@, s.absolute_validity_time)[0] == ("absoluteValidityTime"@, "\""@ + date_text(t) + "\""@)); },
        None => {},
    }
    match s.tariff {
        Some(t) => { assert(opt_u32_entry("tariff"@, s.tariff)[0] == ("tariff"@, dec_digits(t as nat))); },
        None => {},
    }
    match s.currency {
        Some(t) => { assert(opt_currency_entry("currency"@, s.currency)[0] == ("currency"@, currency_wire(t))); },
        None => {},
    }
    match s.age {
        Some(t) => { assert(opt_u32_entry("age"@, s.age)[0] == ("age"@, dec_digits(t as nat))); },
        None => {},
    }
    match s.priority {
        Some(t) => { assert(opt_priority_entry("priority"@, s.priority)[0] == ("priority"@, priority_wire(t))); },
        None => {},
    }
    assert(one_entry("platformId"@, jstr(s.platform_id@))[0] == ("platformId"@, jstr(s.platform_id@)));
}

#[verifier::rlimit(100)]
proof fn lemma_last_values(s: SMS)
    ensures
        has_entry(entries_last(s), "platformPartnerId"@, jstr(s.platform_partner_id@)),
        s.ref_id is Some ==> has_entry(entries_last(s), "refId"@, jstr((s.ref_id->0)@)),
        s.product_description is Some ==> has_entry(entries_last(s), "productDescription"@, jstr((s.product_description->0)@)),
        s.product_category is Some ==> has_entry(entries_last(s), "productCategory"@, dec_digits(s.product_category->0 as nat)),
        s.mo_reference_id is Some ==> has_entry(entries_last(s), "moReferenceId"@, jstr((s.mo_reference_id->0)@)),
        s.custom_parameters is Some ==> has_entry(entries_last(s), "customParameters"@, kv_wire(s.custom_parameters->0)),
        s.ignore_response is Some ==> has_entry(entries_last(s), "ignoreResponse"@, bool_wire(s.ignore_response->0)),
{
    let q1 = one_entry("platformPartnerId"@, jstr(s.platform_partner_id@));
    let q2 = q1 + opt_str_entry("refId"@, s.ref_id);
    let q3 = q2 + opt_str_entry("productDescription"@, s.product_description);
    let q4 = q3 + opt_u32_entry("productCategory"@, s.product_category);
    let q5 = q4 + opt_str_entry("moReferenceId"@, s.mo_reference_id);
    let q6 = q5 + opt_kv_entry("customParameters"@, s.custom_parameters);
    let q7 = q6 + opt_bool_entry("ignoreResponse"@, s.ignore_response);
    assert(entries_last(s) == q7);
    assert forall|key: Seq<char>, value: Seq<char>| #[trigger] has_entry(entries_last(s), key, value) <==> {
        ||| has_entry(one_entry("platformPartnerId"@, jstr(s.platform_partner_id@)), key, value)
        ||| has_entry(opt_str_entry("refId"@, s.ref_id), key, value)
        ||| has_entry(opt_str_entry("productDescription"@, s.product_description), key, value)
        ||| has_entry(opt_u32_entry("productCategory"@, s.product_category), key, value)
        ||| has_entry(opt_str_entry("moReferenceId"@, s.mo_reference_id), key, value)
        ||| has_entry(opt_kv_entry("customParameters"@, s.custom_parameters), key, value)
        ||| has_entry(opt_bool_entry("ignoreResponse"@, s.ignore_response), key, value)
    } by {
        lemma_has_entry_concat(q1, opt_str_entry("refId"@, s.ref_id), key, value);
        lemma_has_entry_concat(q2, opt_str_entry("productDescription"@, s.product_description), key, value);
        lemma_has_entry_concat(q3, opt_u32_entry("productCategory"@, s.product_category), key, value);
        lemma_has_entry_concat(q4, opt_str_entry("moReferenceId"@, s.mo_reference_id), key, value);
        lemma_has_entry_concat(q5, opt_kv_entry("customParameters"@, s.custom_parameters), key, value);
        lemma_has_entry_concat(q6, opt_bool_entry("ignoreResponse"@, s.ignore_response), key, value);
    }
    assert(one_entry("platformPartnerId"@, jstr(s.platform_partner_id@))[0] == ("platformPartnerId"@, jstr(s.platform_partner_id@)));
    match s.ref_id {
        Some(t) => { assert(opt_str_entry("refId"@, s.ref_id)[0] == ("refId"@, jstr(t@))); },
        None => {},
    }
    match s.product_description {
        Some(t) => { assert(opt_str_entry("productDescription"@, s.product_description)[0] == ("productDescription"@, jstr(t@))); },
        None => {},
    }
    match s.product_category {
        Some(t) => { assert(opt_u32_entry("productCategory"@, s.product_category)[0] == ("productCategory"@, dec_digits(t as nat))); },
        None => {},
    }
    match s.mo_reference_id {
        Some(t) => { assert(opt_str_entry("moReferenceId"@, s.mo_reference_id)[0] == ("moReferenceId"@, jstr(t@))); },
        None => {},
    }
    match s.custom_parameters {
        Some(t) => { assert(opt_kv_entry("customParameters"@, s.custom_parameters)[0] == ("customParameters"@, kv_wire(t))); },
        None => {},
    }
    match s.ignore_response {
        Some(t) => { assert(opt_bool_entry("ignoreResponse"@, s.ignore_response)[0] == ("ignoreResponse"@, bool_wire(t))); },
        None => {},
    }
}

/// Each present field contributes the entry holding its renamed wire
/// key and the exact wire text of its value.
pub proof fn lemma_wire_object_values(s: SMS)
    ensures
        has_entry(entries(s), "source"@, jstr(s.source@)),
        s.source_ton is Some ==> has_entry(entries(s), "sourceTON"@, ton_wire(s.source_ton->0)),
        has_entry(entries(s), "destination"@, jstr(s.destination@)),
        s.destination_ton is Some ==> has_entry(entries(s), "destinationTON"@, ton_wire(s.destination_ton->0)),
        s.dcs is Some ==> has_entry(entries(s), "dcs"@, dcs_wire(s.dcs->0)),
        s.user_data_header is Some ==> has_entry(entries(s), "userDataHeader"@, jstr((s.user_data_header->0)@)),
        has_entry(entries(s), "userData"@, jstr(s.user_data@)),
        s.use_deliver_report is Some ==> has_entry(entries(s), "useDeliveryReport"@, bool_wire(s.use_deliver_report->0)),
        s.deliver_report_gates is Some ==> has_entry(entries(s), "deliveryReportGates"@, string_array_wire((s.deliver_report_gates->0)@)),
        s.relative_validity_time is Some ==> has_entry(entries(s), "relativeValidityTime"@, dec_digits(s.relative_validity_time->0 as nat)),
        s.absolute_validity_time is Some ==> has_entry(entries(s), "absoluteValidityTime"@, "\""@ + date_text(s.absolute_validity_time->0) + "\""@),
        s.tariff is Some ==> has_entry(entries(s), "tariff"@, dec_digits(s.tariff->0 as nat)),
        s.currency is Some ==> has_entry(entries(s), "currency"@, currency_wire(s.currency->0)),
        s.age is Some ==> has_entry(entries(s), "age"@, dec_digits(s.age->0 as nat)),
        s.priority is Some ==> has_entry(entries(s), "priority"@, priority_wire(s.priority->0)),
        has_entry(entries(s), "platformId"@, jstr(s.platform_id@)),
        has_entry(entries(s), "platformPartnerId"@, jstr(s.platform_partner_id@)),
        s.ref_id is Some ==> has_entry(entries(s), "refId"@, jstr((s.ref_id->0)@)),
        s.product_description is Some ==> has_entry(entries(s), "productDescription"@, jstr((s.product_description->0)@)),
        s.product_category is Some ==> has_entry(entries(s), "productCategory"@, dec_digits(s.product_category->0 as nat)),
        s.mo_reference_id is Some ==> has_entry(entries(s), "moReferenceId"@, jstr((s.mo_reference_id->0)@)),
        s.custom_parameters is Some ==> has_entry(entries(s), "customParameters"@, kv_wire(s.custom_parameters->0)),
        s.ignore_response is Some ==> has_entry(entries(s), "ignoreResponse"@, bool_wire(s.ignore_response->0)),
{
    lemma_head_values(s);
    lemma_mid_values(s);
    lemma_last_values(s);
    assert forall|key: Seq<char>, value: Seq<char>| #[trigger] has_entry(entries(s), key, value) <==> {
        ||| has_entry(entries_head(s), key, value)
        ||| has_entry(entries_mid(s), key, value)
        ||| has_entry(entries_last(s), key, value)
    } by {
        lemma_has_entry_concat(entries_head(s), entries_mid(s), key, value);
        lemma_has_entry_concat(entries_head(s) + entries_mid(s), entries_last(s), key, value);
    }
}

#[verifier::rlimit(100)]
proof fn lemma_omitted_head_fields(s: SMS)
    ensures
        s.source_ton is None ==> !has_key(entries(s), "sourceTON"@),
        s.destination_ton is None ==> !has_key(entries(s), "destinationTON"@),
        s.dcs is None ==> !has_key(entries(s), "dcs"@),
        s.user_data_header is None ==> !has_key(entries(s), "userDataHeader"@),
        s.use_deliver_report is None ==> !has_key(entries(s), "useDeliveryReport"@),
{
    reveal_strlit("source");
    reveal_strlit("sourceTON");
    reveal_strlit("destination");
    reveal_strlit("destinationTON");
    reveal_strlit("dcs");
    reveal_strlit("userDataHeader");
    reveal_strlit("userData");
    reveal_strlit("useDeliveryReport");
    reveal_strlit("deliveryReportGates");
    reveal_strlit("relativeValidityTime");
    reveal_strlit("absoluteValidityTime");
    reveal_strlit("tariff");
    reveal_strlit("currency");
    reveal_strlit("age");
    reveal_strlit("priority");
    reveal_strlit("platformId");
    reveal_strlit("platformPartnerId");
    reveal_strlit("refId");
    reveal_strlit("productDescription");
    reveal_strlit("productCategory");
    reveal_strlit("moReferenceId");
    reveal_strlit("customParameters");
    reveal_strlit("ignoreResponse");
    assert("source"@.len() == 6);
    assert("sourceTON"@.len() == 9);
    assert("destination"@.len() == 11);
    assert("destinationTON"@.len() == 14);
    assert("dcs"@.len() == 3);
    assert("userDataHeader"@.len() == 14);
    assert("userData"@.len() == 8);
    assert("useDeliveryReport"@.len() == 17);
    assert("deliveryReportGates"@.len() == 19);
    assert("relativeValidityTime"@.len() == 20);
    assert("absoluteValidityTime"@.len() == 20);
    assert("tariff"@.len() == 6);
    assert("currency"@.len() == 8);
    assert("age"@.len() == 3);
    assert("priority"@.len() == 8);
    assert("platformId"@.len() == 10);
    assert("platformPartnerId"@.len() == 17);
    assert("refId"@.len() == 5);
    assert("productDescription"@.len() == 18);
    assert("productCategory"@.len() == 15);
    assert("moReferenceId"@.len() == 13);
    assert("customParameters"@.len() == 16);
    assert("ignoreResponse"@.len() == 14);
    assert("source"@[0] == 's');
    assert("sourceTON"@[0] == 's');
    assert("destination"@[0] == 'd');
    assert("destinationTON"@[0] == 'd');
    assert("dcs"@[0] == 'd');
    assert("userDataHeader"@[0] == 'u');
    assert("userData"@[0] == 'u');
    assert("useDeliveryReport"@[0] == 'u');
    assert("deliveryReportGates"@[0] == 'd');
    assert("relativeValidityTime"@[0] == 'r');
    assert("absoluteValidityTime"@[0] == 'a');
    assert("tariff"@[0] == 't');
    assert("currency"@[0] == 'c');
    assert("age"@[0] == 'a');
    assert("priority"@[0] == 'p');
    assert("platformId"@[0] == 'p');
    assert("platformPartnerId"@[0] == 'p');
    assert("refId"@[0] == 'r');
    assert("productDescription"@[0] == 'p');
    assert("productCategory"@[0] == 'p');
    assert("moReferenceId"@[0] == 'm');
    assert("customParameters"@[0] == 'c');
    assert("ignoreResponse"@[0] == 'i');
    lemma_wire_object_keys(s, "sourceTON"@);
    lemma_wire_object_keys(s, "destinationTON"@);
    lemma_wire_object_keys(s, "dcs"@);
    lemma_wire_object_keys(s, "userDataHeader"@);
    lemma_wire_object_keys(s, "useDeliveryReport"@);
}

#[verifier::rlimit(100)]
proof fn lemma_omitted_mid_fields(s: SMS)
    ensures
        s.deliver_report_gates is None ==> !has_key(entries(s), "deliveryReportGates"@),
        s.relative_validity_time is None ==> !has_key(entries(s), "relativeValidityTime"@),
        s.absolute_validity_time is None ==> !has_key(entries(s), "absoluteValidityTime"@),
        s.tariff is None ==> !has_key(entries(s), "tariff"@),
        s.currency is None ==> !has_key(entries(s), "currency"@),
        s.age is None ==> !has_key(entries(s), "age"@),
        s.priority is None ==> !has_key(entries(s), "priority"@),
{
    reveal_strlit("source");
    reveal_strlit("sourceTON");
    reveal_strlit("destination");
    reveal_strlit("destinationTON");
    reveal_strlit("dcs");
    reveal_strlit("userDataHeader");
    reveal_strlit("userData");
    reveal_strlit("useDeliveryReport");
    reveal_strlit("deliveryReportGates");
    reveal_strlit("relativeValidityTime");
    reveal_strlit("absoluteValidityTime");
    reveal_strlit("tariff");
    reveal_strlit("currency");
    reveal_strlit("age");
    reveal_strlit("priority");
    reveal_strlit("platformId");
    reveal_strlit("platformPartnerId");
    reveal_strlit("refId");
    reveal_strlit("productDescription");
    reveal_strlit("productCategory");
    reveal_strlit("moReferenceId");
    reveal_strlit("customParameters");
    reveal_strlit("ignoreResponse");
    assert("source"@.len() == 6);
    assert("sourceTON"@.len() == 9);
    assert("destination"@.len() == 11);
    assert("destinationTON"@.len() == 14);
    assert("dcs"@.len() == 3);
    assert("userDataHeader"@.len() == 14);
    assert("userData"@.len() == 8);
    assert("useDeliveryReport"@.len() == 17);
    assert("deliveryReportGates"@.len() == 19);
    assert("relativeValidityTime"@.len() == 20);
    assert("absoluteValidityTime"@.len() == 20);
    assert("tariff"@.len() == 6);
    assert("currency"@.len() == 8);
    assert("age"@.len() == 3);
    assert("priority"@.len() == 8);
    assert("platformId"@.len() == 10);
    assert("platformPartnerId"@.len() == 17);
    assert("refId"@.len() == 5);
    assert("productDescription"@.len() == 18);
    assert("productCategory"@.len() == 15);
    assert("moReferenceId"@.len() == 13);
    assert("customParameters"@.len() == 16);
    assert("ignoreResponse"@.len() == 14);
    assert("source"@[0] == 's');
    assert("sourceTON"@[0] == 's');
    assert("destination"@[0] == 'd');
    assert("destinationTON"@[0] == 'd');
    assert("dcs"@[0] == 'd');
    assert("userDataHeader"@[0] == 'u');
    assert("userData"@[0] == 'u');
    assert("useDeliveryReport"@[0] == 'u');
    assert("deliveryReportGates"@[0] == 'd');
    assert("relativeValidityTime"@[0] == 'r');
    assert("absoluteValidityTime"@[0] == 'a');
    assert("tariff"@[0] == 't');
    assert("currency"@[0] == 'c');
    assert("age"@[0] == 'a');
    assert("priority"@[0] == 'p');
    assert("platformId"@[0] == 'p');
    assert("platformPartnerId"@[0] == 'p');
    assert("refId"@[0] == 'r');
    assert("productDescription"@[0] == 'p');
    assert("productCategory"@[0] == 'p');
    assert("moReferenceId"@[0] == 'm');
    assert("customParameters"@[0] == 'c');
    assert("ignoreResponse"@[0] == 'i');
    lemma_wire_object_keys(s, "deliveryReportGates"@);
    lemma_wire_object_keys(s, "relativeValidityTime"@);
    lemma_wire_object_keys(s, "absoluteValidityTime"@);
    lemma_wire_object_keys(s, "tariff"@);
    lemma_wire_object_keys(s, "currency"@);
    lemma_wire_object_keys(s, "age"@);
    lemma_wire_object_keys(s, "priority"@);
}

#[verifier::rlimit(100)]
proof fn lemma_omitted_last_fields(s: SMS)
    ensures
        s.ref_id is None ==> !has_key(entries(s), "refId"@),
        s.product_description is None ==> !has_key(entries(s), "productDescription"@),
        s.product_category is None ==> !has_key(entries(s), "productCategory"@),
        s.mo_reference_id is None ==> !has_key(entries(s), "moReferenceId"@),
        s.custom_parameters is None ==> !has_key(entries(s), "customParameters"@),
        s.ignore_response is None ==> !has_key(entries(s), "ignoreResponse"@),
{
    reveal_strlit("source");
    reveal_strlit("sourceTON");
    reveal_strlit("destination");
    reveal_strlit("destinationTON");
    reveal_strlit("dcs");
    reveal_strlit("userDataHeader");
    reveal_strlit("userData");
    reveal_strlit("useDeliveryReport");
    reveal_strlit("deliveryReportGates");
    reveal_strlit("relativeValidityTime");
    reveal_strlit("absoluteValidityTime");
    reveal_strlit("tariff");
    reveal_strlit("currency");
    reveal_strlit("age");
    reveal_strlit("priority");
    reveal_strlit("platformId");
    reveal_strlit("platformPartnerId");
    reveal_strlit("refId");
    reveal_strlit("productDescription");
    reveal_strlit("productCategory");
    reveal_strlit("moReferenceId");
    reveal_strlit("customParameters");
    reveal_strlit("ignoreResponse");
    assert("source"@.len() == 6);
    assert("sourceTON"@.len() == 9);
    assert("destination"@.len() == 11);
    assert("destinationTON"@.len() == 14);
    assert("dcs"@.len() == 3);
    assert("userDataHeader"@.len() == 14);
    assert("userData"@.len() == 8);
    assert("useDeliveryReport"@.len() == 17);
    assert("deliveryReportGates"@.len() == 19);
    assert("relativeValidityTime"@.len() == 20);
    assert("absoluteValidityTime"@.len() == 20);
    assert("tariff"@.len() == 6);
    assert("currency"@.len() == 8);
    assert("age"@.len() == 3);
    assert("priority"@.len() == 8);
    assert("platformId"@.len() == 10);
    assert("platformPartnerId"@.len() == 17);
    assert("refId"@.len() == 5);
    assert("productDescription"@.len() == 18);
    assert("productCategory"@.len() == 15);
    assert("moReferenceId"@.len() == 13);
    assert("customParameters"@.len() == 16);
    assert("ignoreResponse"@.len() == 14);
    assert("source"@[0] == 's');
    assert("sourceTON"@[0] == 's');
    assert("destination"@[0] == 'd');
    assert("destinationTON"@[0] == 'd');
    assert("dcs"@[0] == 'd');
    assert("userDataHeader"@[0] == 'u');
    assert("userData"@[0] == 'u');
    assert("useDeliveryReport"@[0] == 'u');
    assert("deliveryReportGates"@[0] == 'd');
    assert("relativeValidityTime"@[0] == 'r');
    assert("absoluteValidityTime"@[0] == 'a');
    assert("tariff"@[0] == 't');
    assert("currency"@[0] == 'c');
    assert("age"@[0] == 'a');
    assert("priority"@[0] == 'p');
    assert("platformId"@[0] == 'p');
    assert("platformPartnerId"@[0] == 'p');
    assert("refId"@[0] == 'r');
    assert("productDescription"@[0] == 'p');
    assert("productCategory"@[0] == 'p');
    assert("moReferenceId"@[0] == 'm');
    assert("customParameters"@[0] == 'c');
    assert("ignoreResponse"@[0] == 'i');
    lemma_wire_object_keys(s, "refId"@);
    lemma_wire_object_keys(s, "productDescription"@);
    lemma_wire_object_keys(s, "productCategory"@);
    lemma_wire_object_keys(s, "moReferenceId"@);
    lemma_wire_object_keys(s, "customParameters"@);
    lemma_wire_object_keys(s, "ignoreResponse"@);
}

/// An optional field that is unset leaves its wire key entirely absent
/// from the serialized object.
pub proof fn lemma_optional_omitted(s: SMS)
    ensures
        s.source_ton is None ==> !has_key(entries(s), "sourceTON"@),
        s.destination_ton is None ==> !has_key(entries(s), "destinationTON"@),
        s.dcs is None ==> !has_key(entries(s), "dcs"@),
        s.user_data_header is None ==> !has_key(entries(s), "userDataHeader"@),
        s.use_deliver_report is None ==> !has_key(entries(s), "useDeliveryReport"@),
        s.deliver_report_gates is None ==> !has_key(entries(s), "deliveryReportGates"@),
        s.relative_validity_time is None ==> !has_key(entries(s), "relativeValidityTime"@),
        s.absolute_validity_time is None ==> !has_key(entries(s), "absoluteValidityTime"@),
        s.tariff is None ==> !has_key(entries(s), "tariff"@),
        s.currency is None ==> !has_key(entries(s), "currency"@),
        s.age is None ==> !has_key(entries(s), "age"@),
        s.priority is None ==> !has_key(entries(s), "priority"@),
        s.ref_id is None ==> !has_key(entries(s), "refId"@),
        s.product_description is None ==> !has_key(entries(s), "productDescription"@),
        s.product_category is None ==> !has_key(entries(s), "productCategory"@),
        s.mo_reference_id is None ==> !has_key(entries(s), "moReferenceId"@),
        s.custom_parameters is None ==> !has_key(entries(s), "customParameters"@),
        s.ignore_response is None ==> !has_key(entries(s), "ignoreResponse"@),
{
    lemma_omitted_head_fields(s);
    lemma_omitted_mid_fields(s);
    lemma_omitted_last_fields(s);
}




} // verus!
