//! The canonical JSON text of transactions and blocks, used for hashing.
//! Fields appear in declaration order with no insignificant whitespace, so
//! every node hashes byte-identical serializations.

use crate::digest::sha256_hex_of;
use crate::ledger::{Block, Transaction};
use crate::text::{dec_of, hex_digit, hex_digit_char, push_decimal};
use vstd::prelude::*;
use vstd::string::StrSliceExecFns;

verus! {

/// The escape of one character inside a JSON string literal: quote and
/// backslash get a backslash escape, the control characters with short
/// escapes get those, any other control character a `\u00..` escape, and
/// everything else stands for itself.
pub open spec fn spec_escape_char(c: char) -> Seq<char> {
    if c == '"' {
        "\\\""@
    } else if c == '\\' {
        "\\\\"@
    } else if c == '\u{8}' {
        "\\b"@
    } else if c == '\u{c}' {
        "\\f"@
    } else if c == '\n' {
        "\\n"@
    } else if c == '\r' {
        "\\r"@
    } else if c == '\t' {
        "\\t"@
    } else if (c as int) < 32 {
        "\\u00"@ + seq![hex_digit(c as int / 16), hex_digit(c as int % 16)]
    } else {
        seq![c]
    }
}

/// A character sequence with every character JSON-escaped.
pub open spec fn spec_escaped(s: Seq<char>) -> Seq<char>
    decreases s.len(),
{
    if s.len() == 0 {
        Seq::empty()
    } else {
        spec_escaped(s.drop_last()) + spec_escape_char(s.last())
    }
}

/// A JSON string literal holding `s`.
pub open spec fn spec_json_string(s: Seq<char>) -> Seq<char> {
    "\""@ + spec_escaped(s) + "\""@
}

/// The canonical JSON object of one transaction.
pub open spec fn spec_json_tx(t: Transaction) -> Seq<char> {
    "{\"sender\":"@ + spec_json_string(t.sender@) + ",\"recipient\":"@ + spec_json_string(
        t.recipient@,
    ) + ",\"amount\":"@ + spec_json_string(t.amount@) + "}"@
}

/// The canonical JSON of a transaction sequence, comma-separated.
pub open spec fn spec_json_txs(ts: Seq<Transaction>) -> Seq<char>
    decreases ts.len(),
{
    if ts.len() == 0 {
        Seq::empty()
    } else if ts.len() == 1 {
        spec_json_tx(ts[0])
    } else {
        spec_json_txs(ts.drop_last()) + ","@ + spec_json_tx(ts.last())
    }
}

/// The canonical JSON object of a block.
pub open spec fn spec_json_block(b: Block) -> Seq<char> {
    "{\"index\":"@ + dec_of(b.index as nat) + ",\"timestamp\":"@ + dec_of(b.timestamp as nat)
        + ",\"transactions\":["@ + spec_json_txs(b.transactions@) + "],\"proof\":"@ + dec_of(
        b.proof as nat,
    ) + ",\"previous_hash\":"@ + (match b.previous_hash {
        Some(h) => spec_json_string(h@),
        None => "null"@,
    }) + "}"@
}

/// A block's hash: SHA-256 over its canonical JSON, in lowercase hex.
pub open spec fn spec_block_hash(b: Block) -> Seq<char> {
    sha256_hex_of(spec_json_block(b))
}

fn push_escaped_char(out: &mut String, c: char)
    ensures
        final(out)@ == old(out)@ + spec_escape_char(c),
{
    if c == '"' {
        out.push_str("\\\"");
    } else if c == '\\' {
        out.push_str("\\\\");
    } else if c == '\u{8}' {
        out.push_str("\\b");
    } else if c == '\u{c}' {
        out.push_str("\\f");
    } else if c == '\n' {
        out.push_str("\\n");
    } else if c == '\r' {
        out.push_str("\\r");
    } else if (c as u32) < 32 {
        if c == '\t' {
            out.push_str("\\t");
        } else {
            out.push_str("\\u00");
            let d = c as u8;
            out.push(hex_digit_char(d / 16));
            out.push(hex_digit_char(d % 16));
            proof {
                assert(out@ =~= old(out)@ + spec_escape_char(c));
            }
        }
    } else {
        out.push(c);
        proof {
            assert(out@ =~= old(out)@ + seq![c]);
        }
    }
}

fn push_json_string(out: &mut String, s: &str)
    ensures
        final(out)@ == old(out)@ + spec_json_string(s@),
{
    out.push_str("\"");
    let n = s.unicode_len();
    for i in 0..n
        invariant
            n == s@.len(),
            out@ == old(out)@ + "\""@ + spec_escaped(s@.take(i as int)),
    {
        let c = s.get_char(i);
        push_escaped_char(out, c);
        proof {
            let taken = s@.take(i + 1);
            assert(taken.drop_last() =~= s@.take(i as int));
            assert(taken.last() == s@[i as int]);
            assert(out@ =~= old(out)@ + "\""@ + spec_escaped(taken));
        }
    }
    out.push_str("\"");
    proof {
        assert(s@.take(n as int) =~= s@);
        assert(out@ =~= old(out)@ + spec_json_string(s@));
    }
}

fn push_json_tx(out: &mut String, t: &Transaction)
    ensures
        final(out)@ == old(out)@ + spec_json_tx(*t),
{
    out.push_str("{\"sender\":");
    push_json_string(out, t.sender.as_str());
    out.push_str(",\"recipient\":");
    push_json_string(out, t.recipient.as_str());
    out.push_str(",\"amount\":");
    push_json_string(out, t.amount.as_str());
    out.push_str("}");
    proof {
        assert(out@ =~= old(out)@ + spec_json_tx(*t));
    }
}

fn push_json_txs(out: &mut String, ts: &Vec<Transaction>)
    ensures
        final(out)@ == old(out)@ + spec_json_txs(ts@),
{
    let n = ts.len();
    for i in 0..n
        invariant
            n == ts@.len(),
            out@ == old(out)@ + spec_json_txs(ts@.take(i as int)),
    {
        if i > 0 {
            out.push_str(",");
        }
        push_json_tx(out, &ts[i]);
        proof {
            let taken = ts@.take(i + 1);
            assert(taken.drop_last() =~= ts@.take(i as int));
            assert(taken.last() == ts@[i as int]);
            assert(out@ =~= old(out)@ + spec_json_txs(taken));
        }
    }
    proof {
        assert(ts@.take(n as int) =~= ts@);
    }
}

/// The canonical JSON text of a block.
pub fn block_json(b: &Block) -> (r: String)
    ensures
        r@ == spec_json_block(*b),
{
    let mut out = String::new();
    out.push_str("{\"index\":");
    push_decimal(&mut out, b.index);
    out.push_str(",\"timestamp\":");
    push_decimal(&mut out, b.timestamp);
    out.push_str(",\"transactions\":[");
    push_json_txs(&mut out, &b.transactions);
    out.push_str("],\"proof\":");
    push_decimal(&mut out, b.proof);
    out.push_str(",\"previous_hash\":");
    match &b.previous_hash {
        Some(h) => push_json_string(&mut out, h.as_str()),
        None => out.push_str("null"),
    }
    out.push_str("}");
    proof {
        assert(out@ =~= spec_json_block(*b));
    }
    out
}

} // verus!
