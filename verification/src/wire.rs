//! The hub's wire format: the JSON texts broadcast to sessions. The document
//! structure — braces, field names, field order — is assembled by verified
//! code; only string escaping and number printing are taken from serde_json
//! and std, behind named results.

use vstd::prelude::*;
use serde_json::Number;
use crate::models::Boon;
use crate::models::Boonhonk;

verus! {

/// The character of one decimal digit.
pub open spec fn digit_char(d: nat) -> char {
    (((48 + d) as u8) as char)
}

/// The decimal digits of n, most significant first.
pub open spec fn dec_digits(n: nat) -> Seq<char>
    decreases n,
{
    if n < 10 {
        seq![digit_char(n)]
    } else {
        dec_digits(n / 10).push(digit_char(n % 10))
    }
}

/// The decimal text of an integer, with a leading minus sign when negative.
pub open spec fn int_json(n: int) -> Seq<char> {
    if n < 0 {
        seq!['-'] + dec_digits((-n) as nat)
    } else {
        dec_digits(n as nat)
    }
}

/// The JSON text of a bool.
pub open spec fn bool_json(b: bool) -> Seq<char> {
    if b {
        "true"@
    } else {
        "false"@
    }
}

/// The quoted, escaped JSON string literal that serde_json produces for a
/// text; a function of the text alone.
pub uninterp spec fn str_json(s: Seq<char>) -> Seq<char>;

/// The JSON number token that serde_json prints for a number value; a
/// function of the value alone.
pub uninterp spec fn num_json(n: Number) -> Seq<char>;

/// The JSON text of an optional string: the escaped literal, or `null`.
pub open spec fn opt_str_json(o: Option<String>) -> Seq<char> {
    match o {
        Option::Some(s) => str_json(s@),
        Option::None => "null"@,
    }
}

/// The JSON text of an entity's status sub-record.
pub open spec fn status_json(s: Boonhonk) -> Seq<char> {
    "{\"description\":"@ + str_json(s.description@) + ",\"level\":"@ + int_json(
        s.level as int,
    ) + ",\"is_active\":"@ + bool_json(s.is_active) + "}"@
}

/// The JSON text of an entity, fields in declaration order.
pub open spec fn boon_json(b: Boon) -> Seq<char> {
    "{\"id\":"@ + int_json(b.id as int) + ",\"name\":"@ + str_json(b.name@) + ",\"x\":"@
        + num_json(b.x) + ",\"y\":"@ + num_json(b.y) + ",\"z\":"@ + num_json(b.z)
        + ",\"boonhonk\":"@ + status_json(b.boonhonk) + ",\"image_id\":"@ + opt_str_json(
        b.image_id,
    ) + "}"@
}

/// The JSON text wrapping a free-text payload for relay.
pub open spec fn boof_json(content: Seq<char>) -> Seq<char> {
    "{\"content\":"@ + str_json(content) + "}"@
}

/// The JSON text announcing a stored image.
pub open spec fn image_json(id: Seq<char>) -> Seq<char> {
    "{\"image_id\":"@ + str_json(id) + "}"@
}

/// The element texts joined with commas.
pub open spec fn joined(parts: Seq<Seq<char>>) -> Seq<char>
    decreases parts.len(),
{
    if parts.len() == 0 {
        Seq::empty()
    } else if parts.len() == 1 {
        parts[0]
    } else {
        joined(parts.drop_last()) + ","@ + parts.last()
    }
}

/// The JSON array holding the element texts in order.
pub open spec fn json_array(parts: Seq<Seq<char>>) -> Seq<char> {
    "["@ + joined(parts) + "]"@
}

/// Relies on serde_json::to_string for a String: the quoted, escaped JSON
/// string literal.
#[verifier::external_body]
pub fn str_text(s: &String) -> (r: String)
    ensures
        r@ == str_json(s@),
{
    serde_json::to_string(s).unwrap_or_default()
}

/// Relies on the Display impl of i64: its decimal digits, with a leading
/// minus sign when negative.
#[verifier::external_body]
pub fn int_text(n: i64) -> (r: String)
    ensures
        r@ == int_json(n as int),
{
    format!("{}", n)
}

/// Relies on the Display impl of serde_json::Number: the JSON number token.
#[verifier::external_body]
pub fn num_text(n: &Number) -> (r: String)
    ensures
        r@ == num_json(*n),
{
    format!("{}", n)
}

pub fn bool_text(b: bool) -> (r: String)
    ensures
        r@ == bool_json(b),
{
    if b {
        String::from_str("true")
    } else {
        String::from_str("false")
    }
}

pub fn opt_str_text(o: &Option<String>) -> (r: String)
    ensures
        r@ == opt_str_json(*o),
{
    match o {
        Some(s) => str_text(s),
        None => String::from_str("null"),
    }
}

pub fn status_text(s: &Boonhonk) -> (r: String)
    ensures
        r@ == status_json(*s),
{
    let mut r = String::from_str("{\"description\":");
    let piece = str_text(&s.description);
    r.append(piece.as_str());
    r.append(",\"level\":");
    let piece = int_text(s.level);
    r.append(piece.as_str());
    r.append(",\"is_active\":");
    let piece = bool_text(s.is_active);
    r.append(piece.as_str());
    r.append("}");
    r
}

pub fn boon_text(b: &Boon) -> (r: String)
    ensures
        r@ == boon_json(*b),
{
    let mut r = String::from_str("{\"id\":");
    let piece = int_text(b.id);
    r.append(piece.as_str());
    r.append(",\"name\":");
    let piece = str_text(&b.name);
    r.append(piece.as_str());
    r.append(",\"x\":");
    let piece = num_text(&b.x);
    r.append(piece.as_str());
    r.append(",\"y\":");
    let piece = num_text(&b.y);
    r.append(piece.as_str());
    r.append(",\"z\":");
    let piece = num_text(&b.z);
    r.append(piece.as_str());
    r.append(",\"boonhonk\":");
    let piece = status_text(&b.boonhonk);
    r.append(piece.as_str());
    r.append(",\"image_id\":");
    let piece = opt_str_text(&b.image_id);
    r.append(piece.as_str());
    r.append("}");
    r
}

pub fn boof_text(content: &String) -> (r: String)
    ensures
        r@ == boof_json(content@),
{
    let mut r = String::from_str("{\"content\":");
    let piece = str_text(content);
    r.append(piece.as_str());
    r.append("}");
    r
}

pub fn image_text(id: &String) -> (r: String)
    ensures
        r@ == image_json(id@),
{
    let mut r = String::from_str("{\"image_id\":");
    let piece = str_text(id);
    r.append(piece.as_str());
    r.append("}");
    r
}

pub fn json_array_text(parts: &Vec<String>) -> (r: String)
    ensures
        r@ == json_array(parts@.map_values(|s: String| s@)),
{
    let ghost sparts = parts@.map_values(|s: String| s@);
    let mut r = String::from_str("[");
    proof {
        assert(r@ =~= "["@ + joined(sparts.take(0)));
    }
    let mut i: usize = 0;
    while i < parts.len()
        invariant
            i <= parts@.len(),
            sparts == parts@.map_values(|s: String| s@),
            sparts.len() == parts@.len(),
            r@ == "["@ + joined(sparts.take(i as int)),
        decreases parts@.len() - i,
    {
        let ghost r0 = r@;
        if i > 0 {
            r.append(",");
        }
        r.append(parts[i].as_str());
        proof {
            let t1 = sparts.take(i as int + 1);
            assert(t1.drop_last() =~= sparts.take(i as int));
            assert(t1.last() == sparts[i as int]);
            if i == 0 {
                assert(joined(t1) == sparts[0]);
                assert(r@ =~= "["@ + joined(t1));
            } else {
                assert(joined(t1) == joined(sparts.take(i as int)) + ","@ + sparts[i as int]);
                assert(r@ =~= "["@ + joined(t1));
            }
        }
        i = i + 1;
    }
    proof {
        assert(sparts.take(sparts.len() as int) =~= sparts);
    }
    r.append("]");
    r
}

} // verus!
