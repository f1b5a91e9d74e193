use vstd::prelude::*;
use vstd::string::StringExecFns;

use crate::json::JsonValue;

verus! {

/// The JSON string literal for a text: quoted, with the characters that JSON
/// requires escaped.
pub uninterp spec fn json_quoted(s: Seq<char>) -> Seq<char>;

/// Relies on `serde_json::to_string` on a string slice: it returns the JSON
/// string literal of the text. It writes into memory, which cannot fail.
#[verifier::external_body]
fn quote(s: &str) -> (r: String)
    ensures
        r@ == json_quoted(s@),
{
    match serde_json::to_string(s) {
        Ok(t) => t,
        Err(_) => String::new(),
    }
}

pub open spec fn digit_char(d: nat) -> char {
    if d == 0 {
        '0'
    } else if d == 1 {
        '1'
    } else if d == 2 {
        '2'
    } else if d == 3 {
        '3'
    } else if d == 4 {
        '4'
    } else if d == 5 {
        '5'
    } else if d == 6 {
        '6'
    } else if d == 7 {
        '7'
    } else if d == 8 {
        '8'
    } else {
        '9'
    }
}

/// The decimal digits of a natural number, without leading zeros.
pub open spec fn natural_digits(n: nat) -> Seq<char>
    decreases n,
{
    if n < 10 {
        seq![digit_char(n)]
    } else {
        natural_digits(n / 10).push(digit_char(n % 10))
    }
}

/// The decimal text of an integer, with a minus sign when it is negative.
pub open spec fn decimal(n: int) -> Seq<char> {
    if n < 0 {
        seq!['-'] + natural_digits((-n) as nat)
    } else {
        natural_digits(n as nat)
    }
}

/// The compact JSON text of a document: no white space, members and elements
/// in order, separated by commas.
pub open spec fn json_text(j: JsonValue) -> Seq<char>
    decreases j,
{
    match j {
        JsonValue::Null => "null"@,
        JsonValue::Bool(b) => if b {
            "true"@
        } else {
            "false"@
        },
        JsonValue::Int(n) => decimal(n as int),
        JsonValue::OtherNumber(t) => t@,
        JsonValue::Str(s) => json_quoted(s@),
        JsonValue::Array(items) => "["@ + elements_text(items@, items@.len()) + "]"@,
        JsonValue::Object(members) => "{"@ + members_text(members@, members@.len()) + "}"@,
    }
}

/// The first `n` elements of an array, separated by commas.
pub open spec fn elements_text(items: Seq<JsonValue>, n: nat) -> Seq<char>
    decreases items, n,
{
    if n == 0 || n > items.len() {
        Seq::empty()
    } else if n == 1 {
        json_text(items[0])
    } else {
        elements_text(items, (n - 1) as nat) + ","@ + json_text(items[n - 1])
    }
}

/// The first `n` members of an object, each `"name":value`, separated by commas.
pub open spec fn members_text(members: Seq<(String, JsonValue)>, n: nat) -> Seq<char>
    decreases members, n,
{
    if n == 0 || n > members.len() {
        Seq::empty()
    } else if n == 1 {
        json_quoted(members[0].0@) + ":"@ + json_text(members[0].1)
    } else {
        members_text(members, (n - 1) as nat) + ","@ + json_quoted(members[n - 1].0@) + ":"@
            + json_text(members[n - 1].1)
    }
}

fn digit_text(d: u64) -> (r: &'static str)
    requires
        d < 10,
    ensures
        r@ == seq![digit_char(d as nat)],
{
    proof {
        reveal_strlit("0");
        reveal_strlit("1");
        reveal_strlit("2");
        reveal_strlit("3");
        reveal_strlit("4");
        reveal_strlit("5");
        reveal_strlit("6");
        reveal_strlit("7");
        reveal_strlit("8");
        reveal_strlit("9");
    }
    if d == 0 {
        "0"
    } else if d == 1 {
        "1"
    } else if d == 2 {
        "2"
    } else if d == 3 {
        "3"
    } else if d == 4 {
        "4"
    } else if d == 5 {
        "5"
    } else if d == 6 {
        "6"
    } else if d == 7 {
        "7"
    } else if d == 8 {
        "8"
    } else {
        "9"
    }
}

fn write_natural(out: &mut String, n: u64)
    ensures
        final(out)@ == old(out)@ + natural_digits(n as nat),
    decreases n,
{
    if n >= 10 {
        write_natural(out, n / 10);
    }
    out.append(digit_text(n % 10));
    assert(final(out)@ =~= old(out)@ + natural_digits(n as nat));
}

/// Appends the decimal text of `n`.
pub fn write_decimal(out: &mut String, n: i64)
    ensures
        final(out)@ == old(out)@ + decimal(n as int),
{
    if n < 0 {
        proof {
            reveal_strlit("-");
        }
        out.append("-");
        let m: u64 = (0i128 - n as i128) as u64;
        write_natural(out, m);
        assert(final(out)@ =~= old(out)@ + decimal(n as int));
    } else {
        write_natural(out, n as u64);
    }
}

/// Appends the compact JSON text of `j`.
pub fn write_json(out: &mut String, j: &JsonValue)
    ensures
        final(out)@ == old(out)@ + json_text(*j),
    decreases j,
{
    match j {
        JsonValue::Null => out.append("null"),
        JsonValue::Bool(b) => {
            if *b {
                out.append("true");
            } else {
                out.append("false");
            }
        },
        JsonValue::Int(n) => write_decimal(out, *n),
        JsonValue::OtherNumber(t) => out.append(t.as_str()),
        JsonValue::Str(s) => {
            let q = quote(s.as_str());
            out.append(q.as_str());
        },
        JsonValue::Array(items) => {
            let ghost start = out@;
            out.append("[");
            let mut i: usize = 0;
            while i < items.len()
                invariant
                    *j == JsonValue::Array(*items),
                    i <= items.len(),
                    out@ == start + "["@ + elements_text(items@, i as nat),
                decreases items.len() - i,
            {
                if i > 0 {
                    out.append(",");
                }
                proof {
                    broadcast use vstd::std_specs::vec::axiom_vec_decreases_to_view,
                        vstd::seq::axiom_seq_index_decreases;

                    assert(decreases_to!(items@ => items@[i as int]));
                    assert(decreases_to!(*items => items@));
                    assert(decreases_to!(*j => j->Array_0));
                }
                write_json(out, &items[i]);
                i = i + 1;
                assert(out@ =~= start + "["@ + elements_text(items@, i as nat));
            }
            out.append("]");
            assert(out@ =~= start + json_text(*j));
        },
        JsonValue::Object(members) => {
            let ghost start = out@;
            out.append("{");
            let mut i: usize = 0;
            while i < members.len()
                invariant
                    *j == JsonValue::Object(*members),
                    i <= members.len(),
                    out@ == start + "{"@ + members_text(members@, i as nat),
                decreases members.len() - i,
            {
                if i > 0 {
                    out.append(",");
                }
                let q = quote(members[i].0.as_str());
                out.append(q.as_str());
                out.append(":");
                proof {
                    broadcast use vstd::std_specs::vec::axiom_vec_decreases_to_view,
                        vstd::seq::axiom_seq_index_decreases;

                    assert(decreases_to!(members@[i as int] => members@[i as int].1));
                    assert(decreases_to!(members@ => members@[i as int]));
                    assert(decreases_to!(*members => members@));
                    assert(decreases_to!(*j => j->Object_0));
                }
                write_json(out, &members[i].1);
                i = i + 1;
                assert(out@ =~= start + "{"@ + members_text(members@, i as nat));
            }
            out.append("}");
            assert(out@ =~= start + json_text(*j));
        },
    }
}

/// The compact JSON text of a document.
pub fn to_json_text(j: &JsonValue) -> (r: String)
    ensures
        r@ == json_text(*j),
{
    let mut out = String::new();
    write_json(&mut out, j);
    assert(out@ =~= json_text(*j));
    out
}

} // verus!
