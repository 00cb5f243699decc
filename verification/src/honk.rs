//! A room: one collaborative space, holding its entity table, session
//! table, metadata, pending classified messages, classification ruleset and
//! teardown signal.

use vstd::prelude::*;
use dashmap::DashMap;
use regex::RegexSet;
use tokio_util::sync::CancellationToken;
use crate::models::Boon;
use crate::models::Boof;
use crate::models::Position;
use crate::models::Bounds;
use crate::models::RoomInfo;
use crate::tables::bane_of;
use crate::tables::bane_new;
use crate::tables::bane_insert;
use crate::tables::bane_entries;
use crate::tables::bane_get;
use crate::tables::bane_remove;
use crate::tables::bonks_of;
use crate::tables::bonks_new;
use crate::tables::bonks_insert;
use crate::tables::bonks_remove;
use crate::tables::bonks_contains;
use crate::tables::bonks_len;
use crate::tables::bonks_ids;
use crate::ruleset::matches_of;
use crate::ruleset::ruleset_of;
use crate::ruleset::compile_ruleset;
use crate::ruleset::ruleset_matches;
use crate::lifecycle::flagged;
use crate::lifecycle::token_new;
use crate::lifecycle::token_flagged;
use crate::json::num_of_u64;
use crate::json::number_from_u64;
use crate::wire::boon_json;
use crate::wire::boof_json;
use crate::wire::json_array;
use crate::wire::boon_text;
use crate::wire::boof_text;
use crate::wire::json_array_text;
use crate::decode::decode_focal;
use crate::decode::decode_boon;
use crate::decode::is_focal_text;
use crate::decode::is_boon_text;
use crate::decode::focal_parts_match;
use crate::decode::boon_parts_match;

verus! {

/// One collaborative room.
pub struct Honk {
    pub bane: DashMap<i64, Boon>,
    pub bonks: DashMap<u128, ()>,
    pub room_info: RoomInfo,
    pub cancellation_token: CancellationToken,
    pub boof_queue: Vec<Boof>,
    pub regex_set: RegexSet,
}

/// The effect of one text frame on a room.
pub enum TextEffect {
    FocalUpdated { position: Position, bounds: Bounds },
    EntityUpsert { boon: Boon, payload: String },
    Relayed { boof: Boof, matched: Vec<usize>, payload: String },
}

/// A listing enumerates a map's entries: each listed pair is an entry, each
/// entry is listed, and no key appears twice.
pub open spec fn is_entity_listing(l: Seq<(i64, Boon)>, m: Map<i64, Boon>) -> bool {
    &&& l.map_values(|p: (i64, Boon)| p.0).no_duplicates()
    &&& forall|i: int| 0 <= i < l.len() ==> m.contains_key(#[trigger] l[i].0) && l[i].1 == m[l[i].0]
    &&& forall|k: i64| m.contains_key(k) ==> exists|i: int| 0 <= i < l.len() && #[trigger] l[i].0 == k
    &&& l.len() == m.dom().len()
}

/// A fan-out target list names every registered session exactly once.
pub open spec fn lists_sessions(targets: Seq<u128>, sessions: Set<u128>) -> bool {
    &&& targets.no_duplicates()
    &&& targets.to_set() == sessions
}

/// A focal update replaced both focal fields with the message's values and
/// touched nothing else.
/// The fixed ordered severity-prefix patterns every room's ruleset is
/// compiled from.
pub open spec fn default_patterns() -> Seq<Seq<char>> {
    seq!["^ERROR:.*"@, "^WARN:.*"@, "^INFO:.*"@]
}

pub open spec fn focal_set(h0: Honk, h1: Honk, p: Position, b: Bounds) -> bool {
    &&& h1.room_info.focal_point == Some((p.x, p.y))
    &&& h1.room_info.focal_range == Some((b.x1, b.y1, b.x2, b.y2))
    &&& h1.room_info.width == h0.room_info.width
    &&& h1.room_info.height == h0.room_info.height
    &&& h1.room_info.active_bonks == h0.room_info.active_bonks
    &&& h1.bane == h0.bane
    &&& h1.bonks == h0.bonks
    &&& h1.boof_queue == h0.boof_queue
    &&& h1.cancellation_token == h0.cancellation_token
    &&& h1.regex_set == h0.regex_set
}

/// An upsert replaced the entry for the entity's id and touched nothing
/// else.
pub open spec fn upserted(h0: Honk, h1: Honk, b: Boon) -> bool {
    &&& bane_of(h1.bane) == bane_of(h0.bane).insert(b.id, b)
    &&& h1.bonks == h0.bonks
    &&& h1.room_info == h0.room_info
    &&& h1.boof_queue == h0.boof_queue
    &&& h1.cancellation_token == h0.cancellation_token
    &&& h1.regex_set == h0.regex_set
}

/// The entry under the given id was replaced with the record and nothing
/// else changed.
pub open spec fn replaced_under(h0: Honk, h1: Honk, id: i64, b: Boon) -> bool {
    &&& bane_of(h1.bane) == bane_of(h0.bane).insert(id, b)
    &&& h1.bonks == h0.bonks
    &&& h1.room_info == h0.room_info
    &&& h1.boof_queue == h0.boof_queue
    &&& h1.cancellation_token == h0.cancellation_token
    &&& h1.regex_set == h0.regex_set
}

/// The entry under the given id was dropped and nothing else changed.
pub open spec fn removed_under(h0: Honk, h1: Honk, id: i64) -> bool {
    &&& bane_of(h1.bane) == bane_of(h0.bane).remove(id)
    &&& h1.bonks == h0.bonks
    &&& h1.room_info == h0.room_info
    &&& h1.boof_queue == h0.boof_queue
    &&& h1.cancellation_token == h0.cancellation_token
    &&& h1.regex_set == h0.regex_set
}

/// A relayed free-text message was classified against the ruleset, appended
/// to the pending queue exactly when some pattern matched, and nothing else
/// changed.
pub open spec fn relayed(h0: Honk, h1: Honk, bf: Boof, matched: Seq<usize>) -> bool {
    &&& matched == matches_of(h0.regex_set, bf.content@)
    &&& h1.boof_queue@ == if matched.len() > 0 {
        h0.boof_queue@.push(bf)
    } else {
        h0.boof_queue@
    }
    &&& h1.bane == h0.bane
    &&& h1.bonks == h0.bonks
    &&& h1.room_info == h0.room_info
    &&& h1.cancellation_token == h0.cancellation_token
    &&& h1.regex_set == h0.regex_set
}

impl Honk {
    /// The entity table's contents.
    pub open spec fn entities(self) -> Map<i64, Boon> {
        bane_of(self.bane)
    }

    /// The session table's contents.
    pub open spec fn sessions(self) -> Set<u128> {
        bonks_of(self.bonks)
    }

    /// The pending classified messages, in arrival order.
    pub open spec fn queue(self) -> Seq<Boof> {
        self.boof_queue@
    }

    /// Both tables are finite.
    pub open spec fn wf(self) -> bool {
        &&& self.entities().dom().finite()
        &&& self.sessions().finite()
    }

    /// The metadata's derived session count agrees with the session table.
    pub open spec fn count_in_sync(self) -> bool {
        self.room_info.active_bonks == self.sessions().len()
    }

    /// A fresh room: empty tables, default metadata, empty pending queue, an
    /// untriggered teardown signal, and the fixed severity-prefix ruleset.
    pub fn new() -> (r: Honk)
        ensures
            r.entities() == Map::<i64, Boon>::empty(),
            r.sessions() == Set::<u128>::empty(),
            r.queue() == Seq::<Boof>::empty(),
            !flagged(r.cancellation_token),
            r.room_info.active_bonks == 0,
            r.room_info.focal_point is None,
            r.room_info.focal_range is None,
            r.room_info.width == num_of_u64(800),
            r.room_info.height == num_of_u64(600),
            r.regex_set == ruleset_of(default_patterns()),
            r.wf(),
            r.count_in_sync(),
    {
        let mut patterns: Vec<String> = Vec::new();
        patterns.push(String::from_str("^ERROR:.*"));
        patterns.push(String::from_str("^WARN:.*"));
        patterns.push(String::from_str("^INFO:.*"));
        proof {
            assert(patterns@.map_values(|p: String| p@) =~= default_patterns());
        }
        let regex_set = compile_ruleset(&patterns);
        Honk {
            bane: bane_new(),
            bonks: bonks_new(),
            room_info: RoomInfo {
                width: number_from_u64(800),
                height: number_from_u64(600),
                active_bonks: 0,
                focal_point: None,
                focal_range: None,
            },
            cancellation_token: token_new(),
            boof_queue: Vec::new(),
            regex_set,
        }
    }

    /// Insert-or-replace the entity under its own id.
    pub fn upsert_boon(&mut self, b: Boon)
        ensures
            upserted(*old(self), *final(self), b),
    {
        let key = b.id;
        bane_insert(&mut self.bane, key, b);
    }

    /// Whether this room's teardown signal has been raised. The signal is
    /// an observable flag with no required subscriber.
    pub fn teardown_flagged(&self) -> (r: bool)
        ensures
            r == flagged(self.cancellation_token),
    {
        token_flagged(&self.cancellation_token)
    }

    /// The entity stored under an id, if any.
    pub fn boon_by_id(&self, id: i64) -> (r: Option<Boon>)
        ensures
            r == if self.entities().contains_key(id) {
                Some(self.entities()[id])
            } else {
                None::<Boon>
            },
    {
        bane_get(&self.bane, id)
    }

    /// Replace the entity stored under a given id — which need not be the
    /// record's own id — leaving everything else as it was.
    pub fn replace_boon(&mut self, id: i64, b: Boon)
        ensures
            replaced_under(*old(self), *final(self), id, b),
    {
        bane_insert(&mut self.bane, id, b);
    }

    /// Drop the entity stored under an id; reports whether one was there.
    pub fn remove_boon(&mut self, id: i64) -> (r: bool)
        ensures
            final(self).entities() == old(self).entities().remove(id),
            r == old(self).entities().contains_key(id),
            final(self).bonks == old(self).bonks,
            final(self).room_info == old(self).room_info,
            final(self).boof_queue == old(self).boof_queue,
            final(self).cancellation_token == old(self).cancellation_token,
            final(self).regex_set == old(self).regex_set,
    {
        bane_remove(&mut self.bane, id)
    }

    /// Replace both focal fields together with the message's values.
    pub fn update_focal(&mut self, p: &Position, b: &Bounds)
        ensures
            focal_set(*old(self), *final(self), *p, *b),
    {
        self.room_info.focal_point = Some((p.x.clone(), p.y.clone()));
        self.room_info.focal_range = Some(
            (b.x1.clone(), b.y1.clone(), b.x2.clone(), b.y2.clone()),
        );
    }

    /// The indices of the ruleset patterns matching a text.
    pub fn classify(&self, text: &str) -> (r: Vec<usize>)
        ensures
            r@ == matches_of(self.regex_set, text@),
    {
        ruleset_matches(&self.regex_set, text)
    }

    /// Append a classified message to the pending queue.
    pub fn enqueue_boof(&mut self, b: Boof)
        ensures
            final(self).boof_queue@ == old(self).boof_queue@.push(b),
            final(self).bane == old(self).bane,
            final(self).bonks == old(self).bonks,
            final(self).room_info == old(self).room_info,
            final(self).cancellation_token == old(self).cancellation_token,
            final(self).regex_set == old(self).regex_set,
    {
        self.boof_queue.push(b);
    }

    /// Register a session id.
    pub fn add_bonk(&mut self, id: u128)
        ensures
            final(self).sessions() == old(self).sessions().insert(id),
            final(self).bane == old(self).bane,
            final(self).room_info == old(self).room_info,
            final(self).boof_queue == old(self).boof_queue,
            final(self).cancellation_token == old(self).cancellation_token,
            final(self).regex_set == old(self).regex_set,
    {
        bonks_insert(&mut self.bonks, id);
    }

    /// Deregister a session id; removing an absent id is a no-op, so a
    /// second removal of the same id is harmless.
    pub fn remove_bonk(&mut self, id: u128)
        ensures
            final(self).sessions() == old(self).sessions().remove(id),
            final(self).bane == old(self).bane,
            final(self).room_info == old(self).room_info,
            final(self).boof_queue == old(self).boof_queue,
            final(self).cancellation_token == old(self).cancellation_token,
            final(self).regex_set == old(self).regex_set,
    {
        bonks_remove(&mut self.bonks, id);
    }

    /// Whether a session id is registered.
    pub fn has_bonk(&self, id: u128) -> (r: bool)
        ensures
            r == self.sessions().contains(id),
    {
        bonks_contains(&self.bonks, id)
    }

    /// The number of registered sessions.
    pub fn bonk_count(&self) -> (r: usize)
        requires
            self.sessions().finite(),
        ensures
            r == self.sessions().len(),
    {
        bonks_len(&self.bonks)
    }

    /// Recompute the derived session count in the metadata.
    pub fn sync_active_count(&mut self)
        requires
            old(self).sessions().finite(),
        ensures
            final(self).count_in_sync(),
            final(self).sessions() == old(self).sessions(),
            final(self).bane == old(self).bane,
            final(self).bonks == old(self).bonks,
            final(self).boof_queue == old(self).boof_queue,
            final(self).cancellation_token == old(self).cancellation_token,
            final(self).regex_set == old(self).regex_set,
            final(self).room_info.width == old(self).room_info.width,
            final(self).room_info.height == old(self).room_info.height,
            final(self).room_info.focal_point == old(self).room_info.focal_point,
            final(self).room_info.focal_range == old(self).room_info.focal_range,
    {
        let n = bonks_len(&self.bonks);
        self.room_info.active_bonks = n;
    }

    /// Every registered session id, each exactly once, for one fan-out.
    pub fn fan_out_targets(&self) -> (r: Vec<u128>)
        ensures
            lists_sessions(r@, self.sessions()),
    {
        bonks_ids(&self.bonks)
    }

    /// Drop the sessions whose send failed from the table. The derived
    /// count is left as it was; it is recomputed at the next join or leave.
    pub fn prune_failed(&mut self, failed: &Vec<u128>)
        ensures
            final(self).sessions() == old(self).sessions().difference(failed@.to_set()),
            final(self).bane == old(self).bane,
            final(self).room_info == old(self).room_info,
            final(self).boof_queue == old(self).boof_queue,
            final(self).cancellation_token == old(self).cancellation_token,
            final(self).regex_set == old(self).regex_set,
    {
        let mut i: usize = 0;
        proof {
            assert(bonks_of(self.bonks) =~= bonks_of(old(self).bonks).difference(
                failed@.take(0).to_set(),
            ));
        }
        while i < failed.len()
            invariant
                i <= failed@.len(),
                bonks_of(self.bonks) == bonks_of(old(self).bonks).difference(
                    failed@.take(i as int).to_set(),
                ),
                self.bane == old(self).bane,
                self.room_info == old(self).room_info,
                self.boof_queue == old(self).boof_queue,
                self.cancellation_token == old(self).cancellation_token,
                self.regex_set == old(self).regex_set,
            decreases failed@.len() - i,
        {
            bonks_remove(&mut self.bonks, failed[i]);
            proof {
                failed@.lemma_take_succ_push(i as int);
                failed@.take(i as int).lemma_push_to_set_commute(failed@[i as int]);
                assert(failed@.take(i as int + 1).to_set() =~= failed@.take(i as int).to_set().insert(
                    failed@[i as int],
                ));
                assert(bonks_of(self.bonks) =~= bonks_of(old(self).bonks).difference(
                    failed@.take(i as int + 1).to_set(),
                ));
            }
            i = i + 1;
        }
        proof {
            assert(failed@.take(failed@.len() as int) =~= failed@);
        }
    }

    /// A point-in-time copy of the entities, in table order.
    pub fn snapshot_bane(&self) -> (r: Vec<Boon>)
        ensures
            exists|l: Seq<(i64, Boon)>|
                is_entity_listing(l, self.entities()) && r@ == l.map_values(
                    |p: (i64, Boon)| p.1,
                ),
    {
        let es = bane_entries(&self.bane);
        let mut r: Vec<Boon> = Vec::new();
        let mut i: usize = 0;
        while i < es.len()
            invariant
                i <= es@.len(),
                r@ =~= es@.take(i as int).map_values(|p: (i64, Boon)| p.1),
            decreases es@.len() - i,
        {
            r.push(es[i].1.clone());
            proof {
                assert(es@.take(i as int + 1) =~= es@.take(i as int).push(es@[i as int]));
                assert(es@.take(i as int + 1).map_values(|p: (i64, Boon)| p.1) =~= es@.take(
                    i as int,
                ).map_values(|p: (i64, Boon)| p.1).push(es@[i as int].1));
            }
            i = i + 1;
        }
        proof {
            assert(es@.take(es@.len() as int) =~= es@);
            assert(is_entity_listing(es@, self.entities()));
        }
        r
    }

    /// The initial-sync payload: a JSON array holding each entity exactly
    /// once, serialized as the hub broadcasts entities.
    pub fn snapshot_payload(&self) -> (r: String)
        ensures
            exists|l: Seq<(i64, Boon)>|
                is_entity_listing(l, self.entities()) && r@ == json_array(
                    l.map_values(|p: (i64, Boon)| boon_json(p.1)),
                ),
    {
        let es = bane_entries(&self.bane);
        let mut parts: Vec<String> = Vec::new();
        let mut i: usize = 0;
        while i < es.len()
            invariant
                i <= es@.len(),
                parts@.map_values(|s: String| s@) =~= es@.take(i as int).map_values(
                    |p: (i64, Boon)| boon_json(p.1),
                ),
            decreases es@.len() - i,
        {
            let piece = boon_text(&es[i].1);
            parts.push(piece);
            proof {
                assert(es@.take(i as int + 1) =~= es@.take(i as int).push(es@[i as int]));
                assert(es@.take(i as int + 1).map_values(|p: (i64, Boon)| boon_json(p.1)) =~= es@.take(
                    i as int,
                ).map_values(|p: (i64, Boon)| boon_json(p.1)).push(boon_json(es@[i as int].1)));
                assert(parts@.map_values(|s: String| s@) =~= es@.take(i as int + 1).map_values(
                    |p: (i64, Boon)| boon_json(p.1),
                ));
            }
            i = i + 1;
        }
        let r = json_array_text(&parts);
        proof {
            assert(es@.take(es@.len() as int) =~= es@);
            assert(is_entity_listing(es@, self.entities()));
        }
        r
    }

    /// Apply one text frame: first structural match wins. A focal update
    /// mutates the focal state and is not relayed; an entity record is
    /// upserted and its stored form serialized for broadcast; anything else
    /// is classified, queued when some pattern matched, and wrapped for
    /// relay in all cases.
    pub fn handle_text(&mut self, text: &String) -> (r: TextEffect)
        ensures
            (r is FocalUpdated <==> is_focal_text(text@)),
            (r is EntityUpsert <==> !is_focal_text(text@) && is_boon_text(text@)),
            (r is Relayed <==> !is_focal_text(text@) && !is_boon_text(text@)),
            (r matches TextEffect::FocalUpdated { position, bounds } ==> focal_set(
                *old(self),
                *final(self),
                position,
                bounds,
            ) && focal_parts_match(text@, position, bounds)),
            (r matches TextEffect::EntityUpsert { boon, payload } ==> upserted(
                *old(self),
                *final(self),
                boon,
            ) && payload@ == boon_json(boon) && boon_parts_match(text@, boon)),
            (r matches TextEffect::Relayed { boof, matched, payload } ==> relayed(
                *old(self),
                *final(self),
                boof,
                matched@,
            ) && boof.content@ == text@ && payload@ == boof_json(text@)),
    {
        match decode_focal(text.as_str()) {
            Some(msg) => {
                self.update_focal(&msg.position, &msg.bounds);
                TextEffect::FocalUpdated { position: msg.position, bounds: msg.bounds }
            },
            None => match decode_boon(text.as_str()) {
                Some(b) => {
                    let payload = boon_text(&b);
                    let stored = b.clone();
                    self.upsert_boon(b);
                    TextEffect::EntityUpsert { boon: stored, payload }
                },
                None => {
                    let matched = self.classify(text.as_str());
                    let bf = Boof { content: text.clone() };
                    if matched.len() > 0 {
                        self.enqueue_boof(bf.clone());
                    }
                    let payload = boof_text(&bf.content);
                    TextEffect::Relayed { boof: bf, matched, payload }
                },
            },
        }
    }
}

} // verus!
