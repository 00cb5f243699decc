//! The hub's data records. Numeric coordinates are carried as
//! `serde_json::Number` values: the hub stores and forwards them but never
//! computes with them, so they stay exactly as they were decoded.

use vstd::prelude::*;
use serde_json::Number;

verus! {

/// Status sub-record of an entity.
pub struct Boonhonk {
    pub description: String,
    pub level: i64,
    pub is_active: bool,
}

impl Clone for Boonhonk {
    fn clone(&self) -> (res: Self)
        ensures
            res == *self,
    {
        Boonhonk {
            description: self.description.clone(),
            level: self.level,
            is_active: self.is_active,
        }
    }
}

/// An entity: a positioned, named object owned by one room.
pub struct Boon {
    pub id: i64,
    pub name: String,
    pub x: Number,
    pub y: Number,
    pub z: Number,
    pub boonhonk: Boonhonk,
    pub image_id: Option<String>,
}

impl Clone for Boon {
    fn clone(&self) -> (res: Self)
        ensures
            res == *self,
    {
        let image_id = match &self.image_id {
            Some(s) => Some(s.clone()),
            None => None,
        };
        Boon {
            id: self.id,
            name: self.name.clone(),
            x: self.x.clone(),
            y: self.y.clone(),
            z: self.z.clone(),
            boonhonk: self.boonhonk.clone(),
            image_id,
        }
    }
}

/// A room's metadata: dimensions, the derived count of active sessions, and
/// the focal state. Focal point and focal rectangle are set together.
pub struct RoomInfo {
    pub width: Number,
    pub height: Number,
    pub active_bonks: usize,
    pub focal_point: Option<(Number, Number)>,
    pub focal_range: Option<(Number, Number, Number, Number)>,
}

impl Clone for RoomInfo {
    fn clone(&self) -> (res: Self)
        ensures
            res == *self,
    {
        let focal_point = match &self.focal_point {
            Some(p) => Some((p.0.clone(), p.1.clone())),
            None => None,
        };
        let focal_range = match &self.focal_range {
            Some(r) => Some((r.0.clone(), r.1.clone(), r.2.clone(), r.3.clone())),
            None => None,
        };
        RoomInfo {
            width: self.width.clone(),
            height: self.height.clone(),
            active_bonks: self.active_bonks,
            focal_point,
            focal_range,
        }
    }
}

/// The focal point of a focal-update message.
pub struct Position {
    pub x: Number,
    pub y: Number,
}

/// The focal rectangle of a focal-update message.
pub struct Bounds {
    pub x1: Number,
    pub y1: Number,
    pub x2: Number,
    pub y2: Number,
}

/// A structurally decoded focal-update message.
pub struct FocalPointMessage {
    pub kind: String,
    pub position: Position,
    pub bounds: Bounds,
}

/// A free-text payload that decoded as neither a focal update nor an entity.
pub struct Boof {
    pub content: String,
}

impl Clone for Boof {
    fn clone(&self) -> (res: Self)
        ensures
            res == *self,
    {
        Boof { content: self.content.clone() }
    }
}

/// One inbound frame, as the connection layer hands it to the hub.
pub enum Frame {
    Ping(Vec<u8>),
    Text(String),
    Binary(Vec<u8>),
    Close,
}

} // verus!
