//! Reply framing: the JSON text published as the reply body.
//!
//! A successful result is wrapped as `{"data": ...}`, a handled error as
//! `{"message": ...}`. Records carry their fields as JSON members, strings
//! with the usual JSON escapes, timestamps and counts as decimal numbers.

use vstd::prelude::*;
use vstd::string::*;
use crate::models::{Country, CountryV};
use crate::service::{Reply, ReplyV};
use crate::store::views_of;
use crate::text::to_chars;

verus! {

pub open spec fn dec_char(d: int) -> char {
    if d == 0 {
        '0'
    } else if d == 1 {
        '1'
    } else if d == 2 {
        '2'
    } else if d == 3 {
        '3'
    } else if d == 4 {
        '4'
    } else if d == 5 {
        '5'
    } else if d == 6 {
        '6'
    } else if d == 7 {
        '7'
    } else if d == 8 {
        '8'
    } else {
        '9'
    }
}

pub open spec fn hex_char(d: int) -> char {
    if d < 10 {
        dec_char(d)
    } else if d == 10 {
        'a'
    } else if d == 11 {
        'b'
    } else if d == 12 {
        'c'
    } else if d == 13 {
        'd'
    } else if d == 14 {
        'e'
    } else {
        'f'
    }
}

/// The decimal digits of a nonnegative number, most significant first.
pub open spec fn dec_str(n: int) -> Seq<char>
    decreases n,
{
    if n < 10 {
        seq![dec_char(n)]
    } else {
        dec_str(n / 10).push(dec_char(n % 10))
    }
}

/// A possibly signed decimal number.
pub open spec fn int_str(n: int) -> Seq<char> {
    if n < 0 {
        seq!['-'] + dec_str(-n)
    } else {
        dec_str(n)
    }
}

/// How one character reads inside a JSON string literal.
pub open spec fn esc_char(c: char) -> Seq<char> {
    if c == '"' {
        seq!['\\', '"']
    } else if c == '\\' {
        seq!['\\', '\\']
    } else if (c as u32) < 32 {
        seq!['\\', 'u', '0', '0', hex_char(c as u32 as int / 16), hex_char(c as u32 as int % 16)]
    } else {
        seq![c]
    }
}

/// A string's characters with JSON escapes applied.
pub open spec fn escaped(s: Seq<char>) -> Seq<char>
    decreases s.len(),
{
    if s.len() == 0 {
        Seq::empty()
    } else {
        escaped(s.drop_last()) + esc_char(s.last())
    }
}

/// A JSON string literal.
pub open spec fn json_str(s: Seq<char>) -> Seq<char> {
    seq!['"'] + escaped(s) + seq!['"']
}

/// One record as a JSON object.
pub open spec fn country_text(c: CountryV) -> Seq<char> {
    "{\"id\":"@ + int_str(c.id) + ",\"name\":"@ + json_str(c.name) + ",\"code\":"@ + json_str(
        c.code,
    ) + ",\"dial_code\":"@ + json_str(c.dial_code) + ",\"created_at\":"@ + int_str(c.created_at)
        + ",\"updated_at\":"@ + int_str(c.updated_at) + "}"@
}

/// The comma-separated items of a record array.
pub open spec fn array_items(rows: Seq<CountryV>) -> Seq<char>
    decreases rows.len(),
{
    if rows.len() == 0 {
        Seq::empty()
    } else if rows.len() == 1 {
        country_text(rows[0])
    } else {
        array_items(rows.drop_last()) + ","@ + country_text(rows.last())
    }
}

/// The reply body for each kind of reply.
pub open spec fn reply_text(r: ReplyV) -> Seq<char> {
    match r {
        ReplyV::Records(rows) => "{\"data\":["@ + array_items(rows) + "]}"@,
        ReplyV::Record(c) => "{\"data\":"@ + country_text(c) + "}"@,
        ReplyV::Deleted(n) => "{\"data\":{\"deleted\":"@ + int_str(n) + "}}"@,
        ReplyV::Error(m) => "{\"message\":"@ + json_str(m) + "}"@,
    }
}

/// Relies on String::push: appends exactly the given character.
#[verifier::external_body]
fn push_char(s: &mut String, c: char)
    ensures
        final(s)@ == old(s)@ + seq![c],
{
    s.push(c);
}

fn dec_digit(d: u64) -> (r: char)
    requires
        d < 10,
    ensures
        r == dec_char(d as int),
{
    match d {
        0 => '0',
        1 => '1',
        2 => '2',
        3 => '3',
        4 => '4',
        5 => '5',
        6 => '6',
        7 => '7',
        8 => '8',
        _ => '9',
    }
}

fn hex_digit(d: u32) -> (r: char)
    requires
        d < 16,
    ensures
        r == hex_char(d as int),
{
    match d {
        0 => '0',
        1 => '1',
        2 => '2',
        3 => '3',
        4 => '4',
        5 => '5',
        6 => '6',
        7 => '7',
        8 => '8',
        9 => '9',
        10 => 'a',
        11 => 'b',
        12 => 'c',
        13 => 'd',
        14 => 'e',
        _ => 'f',
    }
}

/// Append the decimal digits of a nonnegative number.
fn append_dec(out: &mut String, n: u64)
    ensures
        final(out)@ == old(out)@ + dec_str(n as int),
    decreases n,
{
    if n < 10 {
        push_char(out, dec_digit(n));
    } else {
        append_dec(out, n / 10);
        push_char(out, dec_digit(n % 10));
        proof {
            assert(old(out)@ + dec_str(n as int / 10) + seq![dec_char(n as int % 10)] =~= old(
                out,
            )@ + dec_str(n as int));
        }
    }
}

/// Append a signed decimal number.
fn append_int(out: &mut String, n: i64)
    ensures
        final(out)@ == old(out)@ + int_str(n as int),
{
    if n < 0 {
        out.append("-");
        let mag: u64 = ((-(n + 1)) as u64) + 1;
        proof {
            reveal_strlit("-");
            assert(("-")@ =~= seq!['-']);
            assert(mag as int == -(n as int));
        }
        append_dec(out, mag);
        proof {
            assert(old(out)@ + "-"@ + dec_str(mag as int) =~= old(out)@ + int_str(n as int));
        }
    } else {
        append_dec(out, n as u64);
    }
}

/// Append a JSON string literal, escapes applied.
fn append_json_str(out: &mut String, s: &str)
    ensures
        final(out)@ == old(out)@ + json_str(s@),
{
    let cs = to_chars(s);
    out.append("\"");
    let mut i: usize = 0;
    proof {
        reveal_strlit("\"");
        assert(("\"")@ =~= seq!['"']);
        assert(escaped(cs@.take(0)) =~= Seq::<char>::empty());
        assert(out@ =~= old(out)@ + seq!['"'] + escaped(cs@.take(0)));
    }
    while i < cs.len()
        invariant
            cs@ == s@,
            i <= cs@.len(),
            out@ == old(out)@ + seq!['"'] + escaped(cs@.take(i as int)),
        decreases cs@.len() - i,
    {
        let c = cs[i];
        proof {
            assert(cs@.take(i + 1).drop_last() =~= cs@.take(i as int));
            assert(cs@.take(i + 1).last() == cs@[i as int]);
        }
        if c == '"' {
            out.append("\\\"");
            proof {
                reveal_strlit("\\\"");
                assert(("\\\"")@ =~= seq!['\\', '"']);
            }
        } else if c == '\\' {
            out.append("\\\\");
            proof {
                reveal_strlit("\\\\");
                assert(("\\\\")@ =~= seq!['\\', '\\']);
            }
        } else {
            let u = c as u32;
            if u < 32 {
                out.append("\\u00");
                push_char(out, hex_digit(u / 16));
                push_char(out, hex_digit(u % 16));
                proof {
                    reveal_strlit("\\u00");
                    assert(("\\u00")@ =~= seq!['\\', 'u', '0', '0']);
                }
            } else {
                push_char(out, c);
            }
        }
        proof {
            assert(out@ =~= old(out)@ + seq!['"'] + escaped(cs@.take(i + 1)));
        }
        i = i + 1;
    }
    out.append("\"");
    proof {
        reveal_strlit("\"");
        assert(("\"")@ =~= seq!['"']);
        assert(cs@.take(cs@.len() as int) =~= cs@);
        assert(out@ =~= old(out)@ + json_str(s@));
    }
}

/// Append one record as a JSON object.
fn append_country(out: &mut String, c: &Country)
    ensures
        final(out)@ == old(out)@ + country_text(c@),
{
    out.append("{\"id\":");
    append_int(out, c.id as i64);
    out.append(",\"name\":");
    append_json_str(out, c.name.as_str());
    out.append(",\"code\":");
    append_json_str(out, c.code.as_str());
    out.append(",\"dial_code\":");
    append_json_str(out, c.dial_code.as_str());
    out.append(",\"created_at\":");
    append_int(out, c.created_at);
    out.append(",\"updated_at\":");
    append_int(out, c.updated_at);
    out.append("}");
    proof {
        assert(out@ =~= old(out)@ + country_text(c@));
    }
}

/// The reply body: the JSON text a reply is published as.
pub fn render_reply(r: &Reply) -> (out: String)
    ensures
        out@ == reply_text(r@),
{
    let mut out = String::new();
    match r {
        Reply::Records(rows) => {
            out.append("{\"data\":[");
            let ghost rvs = views_of(rows@);
            let mut i: usize = 0;
            proof {
                assert(array_items(rvs.take(0)) =~= Seq::<char>::empty());
                assert(out@ =~= Seq::empty() + "{\"data\":["@ + array_items(rvs.take(0)));
            }
            while i < rows.len()
                invariant
                    rvs == views_of(rows@),
                    rvs.len() == rows@.len(),
                    i <= rows@.len(),
                    out@ == Seq::empty() + "{\"data\":["@ + array_items(rvs.take(i as int)),
                decreases rows@.len() - i,
            {
                proof {
                    assert(rvs.take(i + 1).drop_last() =~= rvs.take(i as int));
                    assert(rvs.take(i + 1).last() == rows@[i as int]@);
                }
                if i > 0 {
                    out.append(",");
                }
                append_country(&mut out, &rows[i]);
                proof {
                    if i == 0 {
                        assert(out@ =~= Seq::empty() + "{\"data\":["@ + array_items(rvs.take(1)));
                    } else {
                        assert(out@ =~= Seq::empty() + "{\"data\":["@ + array_items(
                            rvs.take(i + 1),
                        ));
                    }
                }
                i = i + 1;
            }
            out.append("]}");
            proof {
                assert(rvs.take(rvs.len() as int) =~= rvs);
                assert(out@ =~= reply_text(r@));
            }
        },
        Reply::Record(c) => {
            out.append("{\"data\":");
            append_country(&mut out, c);
            out.append("}");
            proof {
                assert(out@ =~= reply_text(r@));
            }
        },
        Reply::Deleted(n) => {
            out.append("{\"data\":{\"deleted\":");
            append_dec(&mut out, *n as u64);
            out.append("}}");
            proof {
                assert(out@ =~= reply_text(r@));
            }
        },
        Reply::Error(m) => {
            out.append("{\"message\":");
            append_json_str(&mut out, m.as_str());
            out.append("}");
            proof {
                assert(out@ =~= reply_text(r@));
            }
        },
    }
    out
}

} // verus!
