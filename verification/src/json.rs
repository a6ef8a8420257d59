//! Building blocks for the wire format: JSON string-literal encoding,
//! decimal rendering of integers, and comma-joined sequences.

use vstd::prelude::*;
use vstd::string::StringExecFns;

verus! {

/// The JSON string literal that encodes `s`: opening and closing quotes
/// with the escaped characters of `s` between them.
pub uninterp spec fn jstr(s: Seq<char>) -> Seq<char>;

/// Relies on `serde_json::to_string` applied to a `str`: it returns the
/// JSON string literal encoding the characters of its argument, a result
/// that depends on those characters alone. Serializing a string into an
/// in-memory buffer cannot fail, so the `unwrap` never panics.
#[verifier::external_body]
pub(crate) fn json_quote(s: &str) -> (r: String)
    ensures
        r@ == jstr(s@),
{
    serde_json::to_string(s).unwrap()
}

/// The decimal digit characters.
pub open spec fn digit_char(d: nat) -> char {
    if d == 0 { '0' }
    else if d == 1 { '1' }
    else if d == 2 { '2' }
    else if d == 3 { '3' }
    else if d == 4 { '4' }
    else if d == 5 { '5' }
    else if d == 6 { '6' }
    else if d == 7 { '7' }
    else if d == 8 { '8' }
    else { '9' }
}

/// The decimal rendering of `n`, most significant digit first, with no
/// leading zeros (a single `'0'` for zero itself).
pub open spec fn dec_digits(n: nat) -> Seq<char>
    decreases n,
{
    if n < 10 {
        seq![digit_char(n)]
    } else {
        dec_digits(n / 10).push(digit_char(n % 10))
    }
}

fn digit_str(d: u64) -> (r: &'static str)
    requires
        d < 10,
    ensures
        r@ == seq![digit_char(d as nat)],
{
    let r = match d {
        0 => "0",
        1 => "1",
        2 => "2",
        3 => "3",
        4 => "4",
        5 => "5",
        6 => "6",
        7 => "7",
        8 => "8",
        _ => "9",
    };
    proof {
        reveal_strlit("0");
        reveal_strlit("1");
        reveal_strlit("2");
        reveal_strlit("3");
        reveal_strlit("4");
        reveal_strlit("5");
        reveal_strlit("6");
        reveal_strlit("7");
        reveal_strlit("8");
        reveal_strlit("9");
        assert(r@ =~= seq![digit_char(d as nat)]);
    }
    r
}

/// Renders `n` in decimal.
pub fn u64_decimal(n: u64) -> (r: String)
    ensures
        r@ == dec_digits(n as nat),
    decreases n,
{
    if n < 10 {
        digit_str(n).to_owned()
    } else {
        let mut s = u64_decimal(n / 10);
        s.append(digit_str(n % 10));
        proof {
            assert(s@ =~= dec_digits(n as nat));
        }
        s
    }
}

/// Renders `n` in decimal.
pub fn u32_decimal(n: u32) -> (r: String)
    ensures
        r@ == dec_digits(n as nat),
{
    u64_decimal(n as u64)
}

/// The JSON form of a boolean.
pub open spec fn bool_wire(b: bool) -> Seq<char> {
    if b {
        "true"@
    } else {
        "false"@
    }
}

/// Renders a boolean as its JSON form.
pub fn bool_str(b: bool) -> (r: &'static str)
    ensures
        r@ == bool_wire(b),
{
    if b {
        "true"
    } else {
        "false"
    }
}

/// The items joined with `','` between each adjacent pair.
pub open spec fn comma_join(items: Seq<Seq<char>>) -> Seq<char>
    decreases items.len(),
{
    if items.len() == 0 {
        Seq::empty()
    } else if items.len() == 1 {
        items[0]
    } else {
        comma_join(items.drop_last()) + ","@ + items.last()
    }
}

pub proof fn lemma_comma_join_snoc(items: Seq<Seq<char>>, x: Seq<char>)
    requires
        items.len() > 0,
    ensures
        comma_join(items.push(x)) == comma_join(items) + ","@ + x,
{
    assert(items.push(x).drop_last() =~= items);
    assert(items.push(x).last() == x);
}

/// The JSON values of the strings in `items`, in order.
pub open spec fn quoted_items(items: Seq<String>) -> Seq<Seq<char>> {
    items.map_values(|g: String| jstr(g@))
}

/// The JSON array holding the strings of `items` in order.
pub open spec fn string_array_wire(items: Seq<String>) -> Seq<char> {
    "["@ + comma_join(quoted_items(items)) + "]"@
}

/// Renders a JSON array of strings.
pub fn render_string_array(items: &Vec<String>) -> (r: String)
    ensures
        r@ == string_array_wire(items@),
{
    let mut out = "[".to_owned();
    proof {
        assert(out@ =~= "["@ + comma_join(quoted_items(items@.take(0))));
    }
    let mut i: usize = 0;
    while i < items.len()
        invariant
            i <= items@.len(),
            out@ == "["@ + comma_join(quoted_items(items@.take(i as int))),
        decreases items@.len() - i,
    {
        if i > 0 {
            out.append(",");
        }
        let q = json_quote(items[i].as_str());
        out.append(q.as_str());
        proof {
            let prev = quoted_items(items@.take(i as int));
            let now = quoted_items(items@.take(i as int + 1));
            assert(now =~= prev.push(jstr(items@[i as int]@)));
            if i > 0 {
                lemma_comma_join_snoc(prev, jstr(items@[i as int]@));
            } else {
                assert(comma_join(now) == now[0]);
            }
            assert(out@ =~= "["@ + comma_join(now));
        }
        i += 1;
    }
    proof {
        assert(items@.take(items@.len() as int) =~= items@);
    }
    out.append("]");
    out
}

} // verus!
