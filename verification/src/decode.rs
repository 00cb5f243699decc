//! Structural decoding of inbound text frames. Each decoder either fully
//! succeeds or reports "not this kind", which is the dispatcher's signal to
//! fall through to the next classification step. Which texts each decoder
//! accepts, and what it reads from them, is stated exactly over the named
//! results of the JSON boundary.

use vstd::prelude::*;
use serde_json::Number;
use serde_json::Value;
use crate::json::doc_of;
use crate::json::field_of;
use crate::json::str_variant;
use crate::json::int_of;
use crate::json::bool_of;
use crate::json::is_null_of;
use crate::json::number_of;
use crate::json::parse_value;
use crate::json::get_field;
use crate::json::as_text;
use crate::json::as_int;
use crate::json::as_flag;
use crate::json::as_number;
use crate::json::is_null;
use crate::models::Boon;
use crate::models::Boonhonk;
use crate::models::Position;
use crate::models::Bounds;
use crate::models::FocalPointMessage;

verus! {

/// The numeric value of an object's field, through an optional document.
pub open spec fn num_at(o: Option<Value>, key: Seq<char>) -> Option<Number> {
    match o {
        Option::Some(v) => match field_of(v, key) {
            Option::Some(f) => number_of(f),
            Option::None => None,
        },
        Option::None => None,
    }
}

/// The integer value of an object's field, through an optional document.
pub open spec fn int_at(o: Option<Value>, key: Seq<char>) -> Option<i64> {
    match o {
        Option::Some(v) => match field_of(v, key) {
            Option::Some(f) => int_of(f),
            Option::None => None,
        },
        Option::None => None,
    }
}

/// The string value of an object's field, through an optional document.
pub open spec fn str_at(o: Option<Value>, key: Seq<char>) -> Option<Seq<char>> {
    match o {
        Option::Some(v) => match field_of(v, key) {
            Option::Some(f) => str_variant(f),
            Option::None => None,
        },
        Option::None => None,
    }
}

/// The bool value of an object's field, through an optional document.
pub open spec fn bool_at(o: Option<Value>, key: Seq<char>) -> Option<bool> {
    match o {
        Option::Some(v) => match field_of(v, key) {
            Option::Some(f) => bool_of(f),
            Option::None => None,
        },
        Option::None => None,
    }
}

/// An object field itself, through an optional document.
pub open spec fn field_at(o: Option<Value>, key: Seq<char>) -> Option<Value> {
    match o {
        Option::Some(v) => field_of(v, key),
        Option::None => None,
    }
}

/// The text parses and carries the focal-update schema: a string type tag,
/// a numeric position and a numeric bounds rectangle.
pub open spec fn is_focal_text(text: Seq<char>) -> bool {
    let d = doc_of(text);
    &&& str_at(d, "type"@) is Some
    &&& num_at(field_at(d, "position"@), "x"@) is Some
    &&& num_at(field_at(d, "position"@), "y"@) is Some
    &&& num_at(field_at(d, "bounds"@), "x1"@) is Some
    &&& num_at(field_at(d, "bounds"@), "y1"@) is Some
    &&& num_at(field_at(d, "bounds"@), "x2"@) is Some
    &&& num_at(field_at(d, "bounds"@), "y2"@) is Some
}

/// The position and bounds are exactly the text's focal fields.
pub open spec fn focal_parts_match(text: Seq<char>, p: Position, b: Bounds) -> bool {
    let d = doc_of(text);
    &&& Some(p.x) == num_at(field_at(d, "position"@), "x"@)
    &&& Some(p.y) == num_at(field_at(d, "position"@), "y"@)
    &&& Some(b.x1) == num_at(field_at(d, "bounds"@), "x1"@)
    &&& Some(b.y1) == num_at(field_at(d, "bounds"@), "y1"@)
    &&& Some(b.x2) == num_at(field_at(d, "bounds"@), "x2"@)
    &&& Some(b.y2) == num_at(field_at(d, "bounds"@), "y2"@)
}

/// The text's optional image reference: absent when the field is missing or
/// null, its text when it is a string.
pub open spec fn image_at(o: Option<Value>) -> Option<Seq<char>> {
    match field_at(o, "image_id"@) {
        Option::Some(iv) => if is_null_of(iv) {
            None
        } else {
            str_variant(iv)
        },
        Option::None => None,
    }
}

/// The image field is well formed: missing, null, or a string.
pub open spec fn image_field_ok(o: Option<Value>) -> bool {
    match field_at(o, "image_id"@) {
        Option::Some(iv) => is_null_of(iv) || str_variant(iv) is Some,
        Option::None => true,
    }
}

/// The text parses and carries the entity schema.
pub open spec fn is_boon_text(text: Seq<char>) -> bool {
    let d = doc_of(text);
    &&& int_at(d, "id"@) is Some
    &&& str_at(d, "name"@) is Some
    &&& num_at(d, "x"@) is Some
    &&& num_at(d, "y"@) is Some
    &&& num_at(d, "z"@) is Some
    &&& str_at(field_at(d, "boonhonk"@), "description"@) is Some
    &&& int_at(field_at(d, "boonhonk"@), "level"@) is Some
    &&& bool_at(field_at(d, "boonhonk"@), "is_active"@) is Some
    &&& image_field_ok(d)
}

/// The record holds exactly the text's entity fields.
pub open spec fn boon_parts_match(text: Seq<char>, bn: Boon) -> bool {
    let d = doc_of(text);
    &&& Some(bn.id) == int_at(d, "id"@)
    &&& Some(bn.name@) == str_at(d, "name"@)
    &&& Some(bn.x) == num_at(d, "x"@)
    &&& Some(bn.y) == num_at(d, "y"@)
    &&& Some(bn.z) == num_at(d, "z"@)
    &&& Some(bn.boonhonk.description@) == str_at(field_at(d, "boonhonk"@), "description"@)
    &&& Some(bn.boonhonk.level) == int_at(field_at(d, "boonhonk"@), "level"@)
    &&& Some(bn.boonhonk.is_active) == bool_at(field_at(d, "boonhonk"@), "is_active"@)
    &&& (bn.image_id is Some <==> image_at(d) is Some)
    &&& (bn.image_id matches Some(s) ==> Some(s@) == image_at(d))
}

fn field_number(v: &Value, key: &str) -> (r: Option<Number>)
    ensures
        r == num_at(Some(*v), key@),
{
    match get_field(v, key) {
        Some(f) => as_number(&f),
        None => None,
    }
}

fn field_int(v: &Value, key: &str) -> (r: Option<i64>)
    ensures
        r == int_at(Some(*v), key@),
{
    match get_field(v, key) {
        Some(f) => as_int(&f),
        None => None,
    }
}

fn field_text(v: &Value, key: &str) -> (r: Option<String>)
    ensures
        (r is Some <==> str_at(Some(*v), key@) is Some),
        (r matches Some(s) ==> Some(s@) == str_at(Some(*v), key@)),
{
    match get_field(v, key) {
        Some(f) => as_text(&f),
        None => None,
    }
}

fn field_flag(v: &Value, key: &str) -> (r: Option<bool>)
    ensures
        r == bool_at(Some(*v), key@),
{
    match get_field(v, key) {
        Some(f) => as_flag(&f),
        None => None,
    }
}

/// Decode a focal-update message: a type tag, a position and a bounding
/// rectangle, all numeric fields carried exactly.
pub fn decode_focal(text: &str) -> (r: Option<FocalPointMessage>)
    ensures
        (r is Some <==> is_focal_text(text@)),
        (r matches Some(m) ==> Some(m.kind@) == str_at(doc_of(text@), "type"@)
            && focal_parts_match(text@, m.position, m.bounds)),
{
    let v = match parse_value(text) {
        Some(v) => v,
        None => {
            return None;
        },
    };
    let kind_v = match get_field(&v, "type") {
        Some(t) => t,
        None => {
            return None;
        },
    };
    let kind = match as_text(&kind_v) {
        Some(s) => s,
        None => {
            return None;
        },
    };
    let pos_v = match get_field(&v, "position") {
        Some(p) => p,
        None => {
            return None;
        },
    };
    let x = match field_number(&pos_v, "x") {
        Some(n) => n,
        None => {
            return None;
        },
    };
    let y = match field_number(&pos_v, "y") {
        Some(n) => n,
        None => {
            return None;
        },
    };
    let bounds_v = match get_field(&v, "bounds") {
        Some(b) => b,
        None => {
            return None;
        },
    };
    let x1 = match field_number(&bounds_v, "x1") {
        Some(n) => n,
        None => {
            return None;
        },
    };
    let y1 = match field_number(&bounds_v, "y1") {
        Some(n) => n,
        None => {
            return None;
        },
    };
    let x2 = match field_number(&bounds_v, "x2") {
        Some(n) => n,
        None => {
            return None;
        },
    };
    let y2 = match field_number(&bounds_v, "y2") {
        Some(n) => n,
        None => {
            return None;
        },
    };
    Some(
        FocalPointMessage {
            kind,
            position: Position { x, y },
            bounds: Bounds { x1, y1, x2, y2 },
        },
    )
}

/// Decode an entity record; a missing or null `image_id` decodes as absent.
pub fn decode_boon(text: &str) -> (r: Option<Boon>)
    ensures
        (r is Some <==> is_boon_text(text@)),
        (r matches Some(b) ==> boon_parts_match(text@, b)),
{
    let v = match parse_value(text) {
        Some(v) => v,
        None => {
            return None;
        },
    };
    let id = match field_int(&v, "id") {
        Some(n) => n,
        None => {
            return None;
        },
    };
    let name = match field_text(&v, "name") {
        Some(s) => s,
        None => {
            return None;
        },
    };
    let x = match field_number(&v, "x") {
        Some(n) => n,
        None => {
            return None;
        },
    };
    let y = match field_number(&v, "y") {
        Some(n) => n,
        None => {
            return None;
        },
    };
    let z = match field_number(&v, "z") {
        Some(n) => n,
        None => {
            return None;
        },
    };
    let sub_v = match get_field(&v, "boonhonk") {
        Some(s) => s,
        None => {
            return None;
        },
    };
    let description = match field_text(&sub_v, "description") {
        Some(s) => s,
        None => {
            return None;
        },
    };
    let level = match field_int(&sub_v, "level") {
        Some(n) => n,
        None => {
            return None;
        },
    };
    let is_active = match field_flag(&sub_v, "is_active") {
        Some(b) => b,
        None => {
            return None;
        },
    };
    let image_id = match get_field(&v, "image_id") {
        None => None,
        Some(iv) => {
            if is_null(&iv) {
                None
            } else {
                match as_text(&iv) {
                    Some(s) => Some(s),
                    None => {
                        return None;
                    },
                }
            }
        },
    };
    Some(
        Boon {
            id,
            name,
            x,
            y,
            z,
            boonhonk: Boonhonk { description, level, is_active },
            image_id,
        },
    )
}

} // verus!
