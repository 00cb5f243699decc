//! The room registry and the per-connection operations against it. Rooms
//! are created on first join and removed when the last session leaves; one
//! dispatch step classifies an inbound frame, applies its effect to the
//! room, and reports what the connection layer must send.

use vstd::prelude::*;
use dashmap::DashMap;
use crate::models::Boon;
use crate::models::Boof;
use crate::models::Position;
use crate::models::Bounds;
use crate::models::RoomInfo;
use crate::models::Frame;
use crate::honk::Honk;
use crate::honk::TextEffect;
use crate::honk::focal_set;
use crate::honk::upserted;
use crate::honk::replaced_under;
use crate::honk::removed_under;
use crate::honk::default_patterns;
use crate::honk::relayed;
use crate::honk::lists_sessions;
use crate::honk::is_entity_listing;
use crate::tables::rooms_of;
use crate::tables::rooms_new;
use crate::tables::rooms_insert;
use crate::tables::rooms_take;
use crate::tables::rooms_paths;
use crate::lifecycle::token_cancel;
use crate::ids::fresh_bonk_id;
use crate::ids::fresh_image_id;
use crate::wire::boon_json;
use crate::wire::boof_json;
use crate::wire::image_json;
use crate::wire::json_array;
use crate::wire::image_text;
use crate::json::num_of_u64;
use crate::lifecycle::flagged;
use crate::ruleset::ruleset_of;
use crate::decode::is_focal_text;
use crate::decode::is_boon_text;
use crate::decode::focal_parts_match;
use crate::decode::boon_parts_match;

verus! {

/// The room registry.
pub struct Bone {
    pub rooms: DashMap<String, Honk>,
}

/// What a completed join hands back: the fresh session id and the
/// initial-sync payload sent to that session alone.
pub struct Joined {
    pub bonk_id: u128,
    pub snapshot: String,
}

/// What one dispatch step asks the connection layer to do.
pub enum Outcome {
    /// The focal state changed; nothing is relayed.
    FocalUpdated { position: Position, bounds: Bounds },
    /// An entity was stored; its serialized form goes to every target.
    EntityUpsert { boon: Boon, payload: String, targets: Vec<u128> },
    /// Free text was classified; its wrapped form goes to every target.
    Relayed { boof: Boof, matched: Vec<usize>, payload: String, targets: Vec<u128> },
    /// A ping from a registered session; the pong goes to it alone.
    Pong { data: Vec<u8> },
    /// Binary data to persist under the fresh id; on success the payload
    /// goes to every target.
    StoreImage { image_id: String, data: Vec<u8>, payload: String, targets: Vec<u128> },
    /// A close frame: answer the handshake and end this session.
    CloseAck,
    /// Nothing to do.
    Ignored,
}

/// The registry maps the path to some room and is otherwise unchanged.
pub open spec fn room_updated(m0: Map<Seq<char>, Honk>, m1: Map<Seq<char>, Honk>, p: Seq<char>) -> bool {
    &&& m1.contains_key(p)
    &&& m1 == m0.insert(p, m1[p])
}

/// Some room of the registry stores this entity record under some id.
pub open spec fn boon_listed(m: Map<Seq<char>, Honk>, b: Boon) -> bool {
    exists|p: Seq<char>, k: i64|
        #![auto]
        m.contains_key(p) && m[p].entities().contains_key(k) && m[p].entities()[k] == b
}

/// The entity records a listing carries, keys dropped.
pub open spec fn listing_values(l: Seq<(i64, Boon)>) -> Seq<Boon> {
    l.map_values(|pr: (i64, Boon)| pr.1)
}

/// The listings' records concatenated in order.
pub open spec fn rooms_concat(lss: Seq<Seq<(i64, Boon)>>) -> Seq<Boon>
    decreases lss.len(),
{
    if lss.len() == 0 {
        Seq::empty()
    } else {
        rooms_concat(lss.drop_last()) + listing_values(lss.last())
    }
}

/// The result is the concatenation, room by room, of one entity listing per
/// registered room: each room contributes each of its stored entries exactly
/// once, so the whole is the multiset union over the registry.
pub open spec fn lists_all_rooms(
    m: Map<Seq<char>, Honk>,
    ps: Seq<Seq<char>>,
    lss: Seq<Seq<(i64, Boon)>>,
    r: Seq<Boon>,
) -> bool {
    &&& ps.no_duplicates()
    &&& ps.to_set() == m.dom()
    &&& lss.len() == ps.len()
    &&& forall|j: int|
        0 <= j < ps.len() ==> is_entity_listing(#[trigger] lss[j], m[ps[j]].entities())
    &&& r == rooms_concat(lss)
}

impl Bone {
    /// The registry's contents.
    pub open spec fn rooms_view(self) -> Map<Seq<char>, Honk> {
        rooms_of(self.rooms)
    }

    /// The registry is finite and every registered room is well formed.
    pub open spec fn wf(self) -> bool {
        &&& self.rooms_view().dom().finite()
        &&& forall|p: Seq<char>|
            #[trigger] self.rooms_view().contains_key(p) ==> self.rooms_view()[p].wf()
    }

    /// An empty registry.
    pub fn new() -> (r: Bone)
        ensures
            r.rooms_view() == Map::<Seq<char>, Honk>::empty(),
            r.wf(),
    {
        Bone { rooms: rooms_new() }
    }

    /// Open a session on a path: resolve or create the room, draw a fresh
    /// session id, register it, resync the derived count, and build the
    /// initial snapshot payload for the new session. The snapshot lists
    /// exactly the entities of that room — and of no other — at join time.
    pub fn join(&mut self, path: &String) -> (r: Joined)
        requires
            old(self).wf(),
        ensures
            final(self).wf(),
            room_updated(old(self).rooms_view(), final(self).rooms_view(), path@),
            ({
                let h = final(self).rooms_view()[path@];
                let present = old(self).rooms_view().contains_key(path@);
                let h0 = old(self).rooms_view()[path@];
                &&& h.sessions() == if present {
                    h0.sessions().insert(r.bonk_id)
                } else {
                    Set::<u128>::empty().insert(r.bonk_id)
                }
                &&& h.count_in_sync()
                &&& h.entities() == if present {
                    h0.entities()
                } else {
                    Map::<i64, Boon>::empty()
                }
                &&& h.queue() == if present {
                    h0.queue()
                } else {
                    Seq::<Boof>::empty()
                }
                &&& (present ==> h.room_info.focal_point == h0.room_info.focal_point
                    && h.room_info.focal_range == h0.room_info.focal_range
                    && h.room_info.width == h0.room_info.width
                    && h.room_info.height == h0.room_info.height
                    && h.regex_set == h0.regex_set
                    && h.cancellation_token == h0.cancellation_token)
                &&& (!present ==> h.room_info.focal_point is None && h.room_info.focal_range is None
                    && h.room_info.width == num_of_u64(800) && h.room_info.height == num_of_u64(600)
                    && !flagged(h.cancellation_token) && h.regex_set == ruleset_of(
                    default_patterns(),
                ))
                &&& exists|l: Seq<(i64, Boon)>|
                    is_entity_listing(l, h.entities()) && r.snapshot@ == json_array(
                        l.map_values(|pr: (i64, Boon)| boon_json(pr.1)),
                    )
            }),
    {
        let bonk_id = fresh_bonk_id();
        let mut honk = match rooms_take(&mut self.rooms, path) {
            Some(h) => h,
            None => Honk::new(),
        };
        honk.add_bonk(bonk_id);
        honk.sync_active_count();
        let snapshot = honk.snapshot_payload();
        let ghost gh = honk;
        let ghost m0 = old(self).rooms_view();
        rooms_insert(&mut self.rooms, path.clone(), honk);
        proof {
            assert(rooms_of(self.rooms) =~= m0.insert(path@, gh));
        }
        Joined { bonk_id, snapshot }
    }

    /// Close a session on a path: deregister it, resync the derived count,
    /// and, when it was the last one, raise the room's teardown signal and
    /// drop the room from the registry. A missing path is a silent no-op.
    pub fn leave(&mut self, path: &String, bonk_id: u128)
        requires
            old(self).wf(),
        ensures
            final(self).wf(),
            (!old(self).rooms_view().contains_key(path@) ==> final(self).rooms_view() == old(self).rooms_view()),
            (old(self).rooms_view().contains_key(path@) ==> ({
                let h0 = old(self).rooms_view()[path@];
                let s1 = h0.sessions().remove(bonk_id);
                if s1.len() == 0 {
                    final(self).rooms_view() == old(self).rooms_view().remove(path@)
                } else {
                    room_updated(old(self).rooms_view(), final(self).rooms_view(), path@) && ({
                        let h = final(self).rooms_view()[path@];
                        &&& h.sessions() == s1
                        &&& h.count_in_sync()
                        &&& h.entities() == h0.entities()
                        &&& h.queue() == h0.queue()
                        &&& h.room_info.focal_point == h0.room_info.focal_point
                        &&& h.room_info.focal_range == h0.room_info.focal_range
                        &&& h.room_info.width == h0.room_info.width
                        &&& h.room_info.height == h0.room_info.height
                        &&& h.regex_set == h0.regex_set
                        &&& h.cancellation_token == h0.cancellation_token
                    })
                }
            })),
    {
        let mut honk = match rooms_take(&mut self.rooms, path) {
            Some(h) => h,
            None => {
                proof {
                    assert(rooms_of(self.rooms) =~= old(self).rooms_view());
                }
                return ;
            },
        };
        honk.remove_bonk(bonk_id);
        honk.sync_active_count();
        if honk.bonk_count() == 0 {
            token_cancel(&mut honk.cancellation_token);
        } else {
            let ghost gh = honk;
            let ghost m0 = old(self).rooms_view();
            rooms_insert(&mut self.rooms, path.clone(), honk);
            proof {
                assert(rooms_of(self.rooms) =~= m0.insert(path@, gh));
            }
        }
    }

    /// Classify one inbound frame and apply its effect to the room at the
    /// path: first structural match wins for text; binary data is assigned
    /// a fresh image id for storage; a ping is answered to its sender
    /// alone; a close frame ends the session. A missing room ignores the
    /// frame.
    pub fn dispatch(&mut self, path: &String, bonk_id: u128, frame: Frame) -> (r: Outcome)
        requires
            old(self).wf(),
        ensures
            final(self).wf(),
            (!old(self).rooms_view().contains_key(path@) ==> final(self).rooms_view() == old(self).rooms_view() && (r is Ignored)),
            (old(self).rooms_view().contains_key(path@) ==> room_updated(
                old(self).rooms_view(),
                final(self).rooms_view(),
                path@,
            ) && ({
                let h0 = old(self).rooms_view()[path@];
                let h1 = final(self).rooms_view()[path@];
                &&& (r matches Outcome::FocalUpdated { position, bounds } ==> focal_set(
                    h0,
                    h1,
                    position,
                    bounds,
                ) && (frame matches Frame::Text(t) && focal_parts_match(t@, position, bounds)))
                &&& (r matches Outcome::EntityUpsert { boon, payload, targets } ==> upserted(
                    h0,
                    h1,
                    boon,
                ) && payload@ == boon_json(boon) && lists_sessions(targets@, h1.sessions()) && (
                frame matches Frame::Text(t) && boon_parts_match(t@, boon)))
                &&& (r matches Outcome::Relayed { boof, matched, payload, targets } ==> relayed(
                    h0,
                    h1,
                    boof,
                    matched@,
                ) && (frame matches Frame::Text(t) && boof.content@ == t@) && payload@ == boof_json(
                    boof.content@,
                ) && lists_sessions(targets@, h1.sessions()))
                &&& (r matches Outcome::Pong { data } ==> h1 == h0 && (frame matches Frame::Ping(d)
                    && data == d) && h0.sessions().contains(bonk_id))
                &&& (r matches Outcome::StoreImage { image_id, data, payload, targets } ==> h1 == h0
                    && (frame matches Frame::Binary(d) && data == d) && payload@ == image_json(
                    image_id@,
                ) && lists_sessions(targets@, h1.sessions()))
                &&& (r is CloseAck ==> h1 == h0 && (frame is Close))
                &&& (r is Ignored ==> h1 == h0)
                &&& (frame is Ping ==> ((r is Pong) <==> h0.sessions().contains(bonk_id)) && ((
                r is Pong) || (r is Ignored)))
                &&& (frame matches Frame::Text(t) ==> ((r is FocalUpdated) <==> is_focal_text(t@))
                    && ((r is EntityUpsert) <==> !is_focal_text(t@) && is_boon_text(t@)) && ((
                r is Relayed) <==> !is_focal_text(t@) && !is_boon_text(t@)))
                &&& (frame is Binary ==> r is StoreImage)
                &&& (frame is Close ==> r is CloseAck)
            })),
    {
        let mut honk = match rooms_take(&mut self.rooms, path) {
            Some(h) => h,
            None => {
                proof {
                    assert(rooms_of(self.rooms) =~= old(self).rooms_view());
                }
                return Outcome::Ignored;
            },
        };
        let r = match frame {
            Frame::Ping(data) => {
                if honk.has_bonk(bonk_id) {
                    Outcome::Pong { data }
                } else {
                    Outcome::Ignored
                }
            },
            Frame::Text(text) => match honk.handle_text(&text) {
                TextEffect::FocalUpdated { position, bounds } => {
                    Outcome::FocalUpdated { position, bounds }
                },
                TextEffect::EntityUpsert { boon, payload } => {
                    let targets = honk.fan_out_targets();
                    Outcome::EntityUpsert { boon, payload, targets }
                },
                TextEffect::Relayed { boof, matched, payload } => {
                    let targets = honk.fan_out_targets();
                    Outcome::Relayed { boof, matched, payload, targets }
                },
            },
            Frame::Binary(data) => {
                let image_id = fresh_image_id();
                let payload = image_text(&image_id);
                let targets = honk.fan_out_targets();
                Outcome::StoreImage { image_id, data, payload, targets }
            },
            Frame::Close => Outcome::CloseAck,
        };
        let ghost gh = honk;
        let ghost m0 = old(self).rooms_view();
        rooms_insert(&mut self.rooms, path.clone(), honk);
        proof {
            assert(rooms_of(self.rooms) =~= m0.insert(path@, gh));
        }
        r
    }

    /// Drop the sessions whose send failed from the room at the path; a
    /// missing path is a no-op. The derived count is recomputed at the next
    /// join or leave, and an emptied room stays registered until its last
    /// session's own disconnect runs.
    pub fn report_send_failures(&mut self, path: &String, failed: &Vec<u128>)
        requires
            old(self).wf(),
        ensures
            final(self).wf(),
            (!old(self).rooms_view().contains_key(path@) ==> final(self).rooms_view() == old(self).rooms_view()),
            (old(self).rooms_view().contains_key(path@) ==> room_updated(
                old(self).rooms_view(),
                final(self).rooms_view(),
                path@,
            ) && ({
                let h0 = old(self).rooms_view()[path@];
                let h1 = final(self).rooms_view()[path@];
                &&& h1.sessions() == h0.sessions().difference(failed@.to_set())
                &&& h1.entities() == h0.entities()
                &&& h1.queue() == h0.queue()
                &&& h1.room_info == h0.room_info
                &&& h1.regex_set == h0.regex_set
                &&& h1.cancellation_token == h0.cancellation_token
            })),
    {
        let mut honk = match rooms_take(&mut self.rooms, path) {
            Some(h) => h,
            None => {
                proof {
                    assert(rooms_of(self.rooms) =~= old(self).rooms_view());
                }
                return ;
            },
        };
        honk.prune_failed(failed);
        let ghost gh = honk;
        let ghost m0 = old(self).rooms_view();
        rooms_insert(&mut self.rooms, path.clone(), honk);
        proof {
            assert(rooms_of(self.rooms) =~= m0.insert(path@, gh));
        }
    }

    /// Every entity of every room, one element per stored entry.
    pub fn all_boons(&mut self) -> (r: Vec<Boon>)
        requires
            old(self).wf(),
        ensures
            final(self).wf(),
            final(self).rooms_view() == old(self).rooms_view(),
            forall|i: int| 0 <= i < r@.len() ==> boon_listed(old(self).rooms_view(), #[trigger] r@[i]),
            forall|p: Seq<char>, k: i64|
                #![auto]
                old(self).rooms_view().contains_key(p) && old(self).rooms_view()[p].entities().contains_key(
                    k,
                ) ==> r@.contains(old(self).rooms_view()[p].entities()[k]),
            exists|ps: Seq<Seq<char>>, lss: Seq<Seq<(i64, Boon)>>|
                lists_all_rooms(old(self).rooms_view(), ps, lss, r@),
    {
        let ghost m0 = old(self).rooms_view();
        let paths = rooms_paths(&self.rooms);
        let ghost spaths = paths@.map_values(|s: String| s@);
        let ghost mut lss: Seq<Seq<(i64, Boon)>> = Seq::empty();
        let mut r: Vec<Boon> = Vec::new();
        let mut i: usize = 0;
        proof {
            assert(r@ =~= rooms_concat(lss));
        }
        while i < paths.len()
            invariant
                old(self).wf(),
                i <= paths@.len(),
                m0 == old(self).rooms_view(),
                rooms_of(self.rooms) == m0,
                spaths == paths@.map_values(|s: String| s@),
                spaths.no_duplicates(),
                spaths.to_set() == m0.dom(),
                lss.len() == i,
                forall|j: int|
                    0 <= j < i ==> is_entity_listing(#[trigger] lss[j], m0[spaths[j]].entities()),
                r@ == rooms_concat(lss),
                forall|j: int| 0 <= j < r@.len() ==> boon_listed(m0, #[trigger] r@[j]),
                forall|j: int, k: i64|
                    #![auto]
                    0 <= j < i && m0[spaths[j]].entities().contains_key(k) ==> r@.contains(
                        m0[spaths[j]].entities()[k],
                    ),
            decreases paths@.len() - i,
        {
            proof {
                assert(spaths[i as int] == paths@[i as int]@);
                assert(spaths.contains(spaths[i as int]));
                assert(spaths.to_set().contains(spaths[i as int]));
            }
            let path = &paths[i];
            let honk = match rooms_take(&mut self.rooms, path) {
                Some(h) => h,
                None => {
                    proof {
                        assert(false);
                    }
                    return r;
                },
            };
            let mut snap = honk.snapshot_bane();
            let ghost gh = honk;
            let ghost rpre = r@;
            let ghost snapv = snap@;
            r.append(&mut snap);
            rooms_insert(&mut self.rooms, path.clone(), honk);
            proof {
                assert(rooms_of(self.rooms) =~= m0);
                let l = choose|l: Seq<(i64, Boon)>|
                    is_entity_listing(l, gh.entities()) && snapv == l.map_values(
                        |pr: (i64, Boon)| pr.1,
                    );
                assert(m0.contains_key(spaths[i as int]) && m0[spaths[i as int]] == gh);
                let lss0 = lss;
                lss = lss.push(l);
                assert(lss.drop_last() =~= lss0);
                assert(lss.last() == l);
                assert(rooms_concat(lss) == rooms_concat(lss0) + listing_values(l));
                assert(listing_values(l) =~= snapv);
                assert(r@ =~= rooms_concat(lss));
                assert forall|j: int| 0 <= j < r@.len() implies boon_listed(m0, #[trigger] r@[j]) by {
                    if j < rpre.len() {
                        assert(r@[j] == rpre[j]);
                    } else {
                        let jj = j - rpre.len();
                        assert(r@[j] == snapv[jj]);
                        assert(snapv[jj] == l[jj].1);
                        assert(gh.entities().contains_key(l[jj].0) && gh.entities()[l[jj].0]
                            == l[jj].1);
                        assert(boon_listed(m0, r@[j]));
                    }
                }
                assert forall|j: int, k: i64|
                    #![auto]
                    0 <= j < i as int + 1 && m0[spaths[j]].entities().contains_key(k) implies r@.contains(
                    m0[spaths[j]].entities()[k],
                ) by {
                    if j < i as int {
                        assert(rpre.contains(m0[spaths[j]].entities()[k]));
                        let w = choose|w: int|
                            0 <= w < rpre.len() && rpre[w] == m0[spaths[j]].entities()[k];
                        assert(r@[w] == m0[spaths[j]].entities()[k]);
                    } else {
                        let wi = choose|wi: int| 0 <= wi < l.len() && #[trigger] l[wi].0 == k;
                        assert(l[wi].1 == gh.entities()[k]);
                        assert(snapv[wi] == l[wi].1);
                        assert(r@[rpre.len() + wi] == snapv[wi]);
                    }
                }
            }
            i = i + 1;
        }
        proof {
            assert forall|p: Seq<char>, k: i64|
                #![auto]
                m0.contains_key(p) && m0[p].entities().contains_key(k) implies r@.contains(
                m0[p].entities()[k],
            ) by {
                assert(spaths.to_set().contains(p));
                assert(spaths.contains(p));
                let j = choose|j: int| 0 <= j < spaths.len() && spaths[j] == p;
                assert(r@.contains(m0[spaths[j]].entities()[k]));
            }
            assert(lss.len() == spaths.len());
            assert(lists_all_rooms(m0, spaths, lss, r@));
            assert(exists|ps: Seq<Seq<char>>, lss2: Seq<Seq<(i64, Boon)>>|
                lists_all_rooms(m0, ps, lss2, r@));
        }
        r
    }

    /// The entity stored under an id in some room holding one; `None` when
    /// no room stores the id.
    pub fn boon_by_id(&mut self, id: i64) -> (r: Option<Boon>)
        requires
            old(self).wf(),
        ensures
            final(self).wf(),
            final(self).rooms_view() == old(self).rooms_view(),
            (r matches Some(b) ==> exists|p: Seq<char>|
                #![auto]
                old(self).rooms_view().contains_key(p) && old(self).rooms_view()[p].entities().contains_key(
                    id,
                ) && old(self).rooms_view()[p].entities()[id] == b),
            (r is None ==> forall|p: Seq<char>|
                #[trigger] old(self).rooms_view().contains_key(p) ==> !old(self).rooms_view()[p].entities().contains_key(id)),
    {
        let ghost m0 = old(self).rooms_view();
        let paths = rooms_paths(&self.rooms);
        let ghost spaths = paths@.map_values(|s: String| s@);
        let mut i: usize = 0;
        while i < paths.len()
            invariant
                old(self).wf(),
                i <= paths@.len(),
                m0 == old(self).rooms_view(),
                rooms_of(self.rooms) == m0,
                spaths == paths@.map_values(|s: String| s@),
                spaths.no_duplicates(),
                spaths.to_set() == m0.dom(),
                forall|j: int|
                    0 <= j < i ==> !m0[#[trigger] spaths[j]].entities().contains_key(id),
            decreases paths@.len() - i,
        {
            proof {
                assert(spaths[i as int] == paths@[i as int]@);
                assert(spaths.contains(spaths[i as int]));
                assert(spaths.to_set().contains(spaths[i as int]));
            }
            let path = &paths[i];
            let honk = match rooms_take(&mut self.rooms, path) {
                Some(h) => h,
                None => {
                    proof {
                        assert(false);
                    }
                    return None;
                },
            };
            let found = honk.boon_by_id(id);
            let ghost gh = honk;
            rooms_insert(&mut self.rooms, path.clone(), honk);
            proof {
                assert(rooms_of(self.rooms) =~= m0);
            }
            match found {
                Some(b) => {
                    return Some(b);
                },
                None => {},
            }
            i = i + 1;
        }
        proof {
            assert forall|p: Seq<char>| #[trigger] m0.contains_key(p) implies !m0[p].entities().contains_key(
                id,
            ) by {
                assert(spaths.to_set().contains(p));
                assert(spaths.contains(p));
                let j = choose|j: int| 0 <= j < spaths.len() && spaths[j] == p;
                assert(!m0[spaths[j]].entities().contains_key(id));
            }
        }
        None
    }

    /// Insert-or-replace the entity in every registered room at once.
    pub fn create_boon(&mut self, b: &Boon)
        requires
            old(self).wf(),
        ensures
            final(self).wf(),
            final(self).rooms_view().dom() == old(self).rooms_view().dom(),
            forall|p: Seq<char>|
                #[trigger] old(self).rooms_view().contains_key(p) ==> upserted(
                    old(self).rooms_view()[p],
                    final(self).rooms_view()[p],
                    *b,
                ),
    {
        let ghost m0 = old(self).rooms_view();
        let paths = rooms_paths(&self.rooms);
        let ghost spaths = paths@.map_values(|s: String| s@);
        let mut i: usize = 0;
        while i < paths.len()
            invariant
                old(self).wf(),
                i <= paths@.len(),
                m0 == old(self).rooms_view(),
                rooms_of(self.rooms).dom() == m0.dom(),
                spaths == paths@.map_values(|s: String| s@),
                spaths.no_duplicates(),
                spaths.to_set() == m0.dom(),
                forall|j: int|
                    0 <= j < i ==> upserted(
                        m0[#[trigger] spaths[j]],
                        rooms_of(self.rooms)[spaths[j]],
                        *b,
                    ),
                forall|p: Seq<char>|
                    #![auto]
                    m0.contains_key(p) && !spaths.take(i as int).contains(p) ==> rooms_of(
                        self.rooms,
                    )[p] == m0[p],
            decreases paths@.len() - i,
        {
            proof {
                assert(spaths[i as int] == paths@[i as int]@);
                assert(spaths.contains(spaths[i as int]));
                assert(spaths.to_set().contains(spaths[i as int]));
                assert(!spaths.take(i as int).contains(spaths[i as int]));
            }
            let path = &paths[i];
            let mut honk = match rooms_take(&mut self.rooms, path) {
                Some(h) => h,
                None => {
                    proof {
                        assert(false);
                    }
                    return ;
                },
            };
            honk.upsert_boon(b.clone());
            let ghost gh = honk;
            let ghost mpre = rooms_of(self.rooms);
            rooms_insert(&mut self.rooms, path.clone(), honk);
            proof {
                assert(rooms_of(self.rooms) =~= mpre.insert(spaths[i as int], gh));
                spaths.lemma_take_succ_push(i as int);
                assert forall|p: Seq<char>|
                    #![auto]
                    m0.contains_key(p) && !spaths.take(i as int + 1).contains(p) implies rooms_of(
                    self.rooms,
                )[p] == m0[p] by {
                    let t1 = spaths.take(i as int + 1);
                    assert(t1[t1.len() - 1] == spaths[i as int]);
                    assert(t1.contains(spaths[i as int]));
                    assert(p != spaths[i as int]);
                    assert(!spaths.take(i as int).contains(p));
                }
            }
            i = i + 1;
        }
        proof {
            assert(rooms_of(self.rooms).dom() =~= m0.dom());
            assert forall|p: Seq<char>| #[trigger] m0.contains_key(p) implies upserted(
                m0[p],
                rooms_of(self.rooms)[p],
                *b,
            ) by {
                assert(spaths.to_set().contains(p));
                assert(spaths.contains(p));
                let j = choose|j: int| 0 <= j < spaths.len() && spaths[j] == p;
                assert(upserted(m0[spaths[j]], rooms_of(self.rooms)[spaths[j]], *b));
            }
        }
    }

    /// Replace the entity stored under the id in one room that holds it;
    /// reports whether any room did. The replacement is stored under the
    /// given id even when the record carries another.
    pub fn update_boon(&mut self, id: i64, b: &Boon) -> (r: bool)
        requires
            old(self).wf(),
        ensures
            final(self).wf(),
            (!r ==> final(self).rooms_view() == old(self).rooms_view() && forall|p: Seq<char>|
                #[trigger] old(self).rooms_view().contains_key(p) ==> !old(self).rooms_view()[p].entities().contains_key(id)),
            (r ==> exists|p: Seq<char>|
                #![auto]
                old(self).rooms_view().contains_key(p) && old(self).rooms_view()[p].entities().contains_key(
                    id,
                ) && room_updated(old(self).rooms_view(), final(self).rooms_view(), p)
                    && replaced_under(
                    old(self).rooms_view()[p],
                    final(self).rooms_view()[p],
                    id,
                    *b,
                )),
    {
        let ghost m0 = old(self).rooms_view();
        let paths = rooms_paths(&self.rooms);
        let ghost spaths = paths@.map_values(|s: String| s@);
        let mut i: usize = 0;
        while i < paths.len()
            invariant
                old(self).wf(),
                i <= paths@.len(),
                m0 == old(self).rooms_view(),
                rooms_of(self.rooms) == m0,
                spaths == paths@.map_values(|s: String| s@),
                spaths.no_duplicates(),
                spaths.to_set() == m0.dom(),
                forall|j: int|
                    0 <= j < i ==> !m0[#[trigger] spaths[j]].entities().contains_key(id),
            decreases paths@.len() - i,
        {
            proof {
                assert(spaths[i as int] == paths@[i as int]@);
                assert(spaths.contains(spaths[i as int]));
                assert(spaths.to_set().contains(spaths[i as int]));
            }
            let path = &paths[i];
            let mut honk = match rooms_take(&mut self.rooms, path) {
                Some(h) => h,
                None => {
                    proof {
                        assert(false);
                    }
                    return false;
                },
            };
            let found = honk.boon_by_id(id);
            let had = match found {
                Some(_) => true,
                None => false,
            };
            if had {
                honk.replace_boon(id, b.clone());
            }
            let ghost gh = honk;
            rooms_insert(&mut self.rooms, path.clone(), honk);
            proof {
                assert(rooms_of(self.rooms) =~= m0.insert(spaths[i as int], gh));
                if !had {
                    assert(gh == m0[spaths[i as int]]);
                    assert(rooms_of(self.rooms) =~= m0);
                }
            }
            if had {
                return true;
            }
            i = i + 1;
        }
        proof {
            assert forall|p: Seq<char>| #[trigger] m0.contains_key(p) implies !m0[p].entities().contains_key(
                id,
            ) by {
                assert(spaths.to_set().contains(p));
                assert(spaths.contains(p));
                let j = choose|j: int| 0 <= j < spaths.len() && spaths[j] == p;
                assert(!m0[spaths[j]].entities().contains_key(id));
            }
        }
        false
    }

    /// Drop the entity stored under the id from one room that holds it;
    /// reports whether any room did.
    pub fn delete_boon(&mut self, id: i64) -> (r: bool)
        requires
            old(self).wf(),
        ensures
            final(self).wf(),
            (!r ==> final(self).rooms_view() == old(self).rooms_view() && forall|p: Seq<char>|
                #[trigger] old(self).rooms_view().contains_key(p) ==> !old(self).rooms_view()[p].entities().contains_key(id)),
            (r ==> exists|p: Seq<char>|
                #![auto]
                old(self).rooms_view().contains_key(p) && old(self).rooms_view()[p].entities().contains_key(
                    id,
                ) && room_updated(old(self).rooms_view(), final(self).rooms_view(), p)
                    && removed_under(
                    old(self).rooms_view()[p],
                    final(self).rooms_view()[p],
                    id,
                )),
    {
        let ghost m0 = old(self).rooms_view();
        let paths = rooms_paths(&self.rooms);
        let ghost spaths = paths@.map_values(|s: String| s@);
        let mut i: usize = 0;
        while i < paths.len()
            invariant
                old(self).wf(),
                i <= paths@.len(),
                m0 == old(self).rooms_view(),
                rooms_of(self.rooms) == m0,
                spaths == paths@.map_values(|s: String| s@),
                spaths.no_duplicates(),
                spaths.to_set() == m0.dom(),
                forall|j: int|
                    0 <= j < i ==> !m0[#[trigger] spaths[j]].entities().contains_key(id),
            decreases paths@.len() - i,
        {
            proof {
                assert(spaths[i as int] == paths@[i as int]@);
                assert(spaths.contains(spaths[i as int]));
                assert(spaths.to_set().contains(spaths[i as int]));
            }
            let path = &paths[i];
            let mut honk = match rooms_take(&mut self.rooms, path) {
                Some(h) => h,
                None => {
                    proof {
                        assert(false);
                    }
                    return false;
                },
            };
            let found = honk.boon_by_id(id);
            let had = match found {
                Some(_) => true,
                None => false,
            };
            if had {
                honk.remove_boon(id);
            }
            let ghost gh = honk;
            rooms_insert(&mut self.rooms, path.clone(), honk);
            proof {
                assert(rooms_of(self.rooms) =~= m0.insert(spaths[i as int], gh));
                if !had {
                    assert(gh == m0[spaths[i as int]]);
                    assert(rooms_of(self.rooms) =~= m0);
                }
            }
            if had {
                return true;
            }
            i = i + 1;
        }
        proof {
            assert forall|p: Seq<char>| #[trigger] m0.contains_key(p) implies !m0[p].entities().contains_key(
                id,
            ) by {
                assert(spaths.to_set().contains(p));
                assert(spaths.contains(p));
                let j = choose|j: int| 0 <= j < spaths.len() && spaths[j] == p;
                assert(!m0[spaths[j]].entities().contains_key(id));
            }
        }
        false
    }

    /// The paths of the registered rooms, each exactly once.
    pub fn honk_paths(&self) -> (r: Vec<String>)
        ensures
            r@.map_values(|s: String| s@).no_duplicates(),
            r@.map_values(|s: String| s@).to_set() == self.rooms_view().dom(),
    {
        rooms_paths(&self.rooms)
    }

    /// One room's summary: its live session count and a copy of its
    /// metadata. A missing path reports "not found" as `None`.
    pub fn honk_summary(&mut self, path: &String) -> (r: Option<(usize, RoomInfo)>)
        requires
            old(self).wf(),
        ensures
            final(self).wf(),
            final(self).rooms_view() == old(self).rooms_view(),
            (r is Some <==> old(self).rooms_view().contains_key(path@)),
            (r matches Some(pair) ==> ({
                let h0 = old(self).rooms_view()[path@];
                pair.0 == h0.sessions().len() && pair.1 == h0.room_info
            })),
    {
        let honk = match rooms_take(&mut self.rooms, path) {
            Some(h) => h,
            None => {
                proof {
                    assert(rooms_of(self.rooms) =~= old(self).rooms_view());
                }
                return None;
            },
        };
        let count = honk.bonk_count();
        let info = honk.room_info.clone();
        let ghost gh = honk;
        let ghost m0 = old(self).rooms_view();
        rooms_insert(&mut self.rooms, path.clone(), honk);
        proof {
            assert(rooms_of(self.rooms) =~= m0.insert(path@, gh));
            assert(m0.insert(path@, gh) =~= m0);
        }
        Some((count, info))
    }
}

} // verus!
