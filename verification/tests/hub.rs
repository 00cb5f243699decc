use lorehub::bone::Bone;
use lorehub::bone::Outcome;
use lorehub::honk::Honk;
use lorehub::honk::TextEffect;
use lorehub::models::Frame;
use serde_json::Number;

fn text_frame(s: &str) -> Frame {
    Frame::Text(String::from(s))
}

fn boon_text_payload(id: i64, name: &str) -> String {
    format!(
        "{{\"id\":{},\"name\":\"{}\",\"x\":1,\"y\":2,\"z\":3,\"boonhonk\":{{\"description\":\"d\",\"level\":5,\"is_active\":true}}}}",
        id, name
    )
}

#[test]
fn join_and_leave_keep_count_in_sync() {
    let mut bone = Bone::new();
    let path = String::from("cavern");
    let a = bone.join(&path);
    let (count, info) = bone.honk_summary(&path).unwrap();
    assert_eq!(count, 1);
    assert_eq!(info.active_bonks, 1);
    let b = bone.join(&path);
    let (count, info) = bone.honk_summary(&path).unwrap();
    assert_eq!(count, 2);
    assert_eq!(info.active_bonks, 2);
    bone.leave(&path, a.bonk_id);
    let (count, info) = bone.honk_summary(&path).unwrap();
    assert_eq!(count, 1);
    assert_eq!(info.active_bonks, 1);
    bone.leave(&path, b.bonk_id);
    assert!(bone.honk_summary(&path).is_none());
}

#[test]
fn last_leave_removes_room_and_rejoin_is_fresh() {
    let mut bone = Bone::new();
    let path = String::from("glade");
    let joined = bone.join(&path);
    bone.dispatch(&path, joined.bonk_id, text_frame(&boon_text_payload(7, "keep")));
    assert_eq!(bone.honk_paths().len(), 1);
    bone.leave(&path, joined.bonk_id);
    assert!(bone.honk_paths().is_empty());
    let rejoined = bone.join(&path);
    assert_eq!(rejoined.snapshot, "[]");
}

#[test]
fn second_upsert_replaces_first() {
    let mut bone = Bone::new();
    let path = String::from("den");
    let joined = bone.join(&path);
    bone.dispatch(&path, joined.bonk_id, text_frame(&boon_text_payload(7, "first")));
    bone.dispatch(&path, joined.bonk_id, text_frame(&boon_text_payload(7, "second")));
    let all = bone.all_boons();
    assert_eq!(all.len(), 1);
    assert_eq!(all[0].name, "second");
    let found = bone.boon_by_id(7).unwrap();
    assert_eq!(found.name, "second");
}

#[test]
fn snapshot_lists_only_the_joined_rooms_entities() {
    let mut bone = Bone::new();
    let pa = String::from("alpha");
    let pb = String::from("beta");
    let ja = bone.join(&pa);
    let jb = bone.join(&pb);
    bone.dispatch(&pa, ja.bonk_id, text_frame(&boon_text_payload(1, "ours")));
    bone.dispatch(&pb, jb.bonk_id, text_frame(&boon_text_payload(2, "theirs")));
    let j2 = bone.join(&pa);
    let parsed: Vec<serde_json::Value> = serde_json::from_str(&j2.snapshot).unwrap();
    let ids: Vec<i64> = parsed.iter().map(|v| v["id"].as_i64().unwrap()).collect();
    assert_eq!(ids, vec![1]);
    assert_eq!(parsed[0]["name"].as_str().unwrap(), "ours");
}

#[test]
fn broken_session_is_pruned_after_failed_send() {
    let mut bone = Bone::new();
    let path = String::from("hollow");
    let a = bone.join(&path);
    let b = bone.join(&path);
    let c = bone.join(&path);
    let out = bone.dispatch(&path, a.bonk_id, text_frame("just chatter"));
    let targets = match out {
        Outcome::Relayed { targets, .. } => targets,
        _ => panic!("expected a relay"),
    };
    assert_eq!(targets.len(), 3);
    assert!(targets.contains(&b.bonk_id));
    bone.report_send_failures(&path, &vec![b.bonk_id]);
    let out = bone.dispatch(&path, a.bonk_id, text_frame("more chatter"));
    let targets = match out {
        Outcome::Relayed { targets, .. } => targets,
        _ => panic!("expected a relay"),
    };
    assert_eq!(targets.len(), 2);
    assert!(!targets.contains(&b.bonk_id));
    assert!(targets.contains(&a.bonk_id));
    assert!(targets.contains(&c.bonk_id));
}

#[test]
fn classification_enqueues_only_matches_and_relays_both() {
    let mut honk = Honk::new();
    let effect = honk.handle_text(&String::from("ERROR: disk full"));
    match effect {
        TextEffect::Relayed { matched, payload, .. } => {
            assert_eq!(matched, vec![0]);
            assert_eq!(payload, "{\"content\":\"ERROR: disk full\"}");
        }
        _ => panic!("expected a relay"),
    }
    assert_eq!(honk.boof_queue.len(), 1);
    assert_eq!(honk.boof_queue[0].content, "ERROR: disk full");
    let effect = honk.handle_text(&String::from("hello"));
    match effect {
        TextEffect::Relayed { matched, payload, .. } => {
            assert!(matched.is_empty());
            assert_eq!(payload, "{\"content\":\"hello\"}");
        }
        _ => panic!("expected a relay"),
    }
    assert_eq!(honk.boof_queue.len(), 1);
}

#[test]
fn fresh_room_teardown_signal_starts_untriggered() {
    let honk = Honk::new();
    assert!(!honk.teardown_flagged());
    assert_eq!(honk.bonk_count(), 0);
}

#[test]
fn warn_and_info_prefixes_match_their_patterns() {
    let mut honk = Honk::new();
    match honk.handle_text(&String::from("WARN: low disk")) {
        TextEffect::Relayed { matched, .. } => assert_eq!(matched, vec![1]),
        _ => panic!("expected a relay"),
    }
    match honk.handle_text(&String::from("INFO: started")) {
        TextEffect::Relayed { matched, .. } => assert_eq!(matched, vec![2]),
        _ => panic!("expected a relay"),
    }
    assert_eq!(honk.boof_queue.len(), 2);
}

#[test]
fn classify_reports_matching_pattern_indices() {
    let honk = Honk::new();
    assert_eq!(honk.classify("ERROR: disk full"), vec![0]);
    assert!(honk.classify("hello").is_empty());
    assert!(honk.classify("an ERROR: not at the start").is_empty());
}

#[test]
fn removing_a_session_twice_is_a_harmless_no_op() {
    let mut honk = Honk::new();
    honk.add_bonk(1);
    honk.add_bonk(2);
    honk.remove_bonk(1);
    honk.remove_bonk(1);
    assert_eq!(honk.bonk_count(), 1);
    assert!(honk.has_bonk(2));
    assert!(!honk.has_bonk(1));
}

#[test]
fn focal_update_replaces_both_fields_and_is_not_relayed() {
    let mut bone = Bone::new();
    let path = String::from("stage");
    let joined = bone.join(&path);
    let msg = "{\"type\":\"focal-point\",\"position\":{\"x\":10,\"y\":20},\"bounds\":{\"x1\":0,\"y1\":0,\"x2\":100,\"y2\":100}}";
    let out = bone.dispatch(&path, joined.bonk_id, text_frame(msg));
    assert!(matches!(out, Outcome::FocalUpdated { .. }));
    let (_, info) = bone.honk_summary(&path).unwrap();
    assert_eq!(
        info.focal_point,
        Some((Number::from(10u64), Number::from(20u64)))
    );
    assert_eq!(
        info.focal_range,
        Some((
            Number::from(0u64),
            Number::from(0u64),
            Number::from(100u64),
            Number::from(100u64)
        ))
    );
    let msg2 = "{\"type\":\"focal-point\",\"position\":{\"x\":30,\"y\":40},\"bounds\":{\"x1\":1,\"y1\":2,\"x2\":3,\"y2\":4}}";
    let out = bone.dispatch(&path, joined.bonk_id, text_frame(msg2));
    assert!(matches!(out, Outcome::FocalUpdated { .. }));
    let (_, info) = bone.honk_summary(&path).unwrap();
    assert_eq!(
        info.focal_point,
        Some((Number::from(30u64), Number::from(40u64)))
    );
    assert_eq!(
        info.focal_range,
        Some((
            Number::from(1u64),
            Number::from(2u64),
            Number::from(3u64),
            Number::from(4u64)
        ))
    );
}

#[test]
fn fresh_room_has_default_metadata() {
    let mut bone = Bone::new();
    let path = String::from("fresh");
    bone.join(&path);
    let (_, info) = bone.honk_summary(&path).unwrap();
    assert_eq!(info.width, Number::from(800u64));
    assert_eq!(info.height, Number::from(600u64));
    assert!(info.focal_point.is_none());
    assert!(info.focal_range.is_none());
}

#[test]
fn ping_is_answered_only_for_registered_sessions() {
    let mut bone = Bone::new();
    let path = String::from("echo");
    let joined = bone.join(&path);
    let out = bone.dispatch(&path, joined.bonk_id, Frame::Ping(vec![9, 9]));
    match out {
        Outcome::Pong { data } => assert_eq!(data, vec![9, 9]),
        _ => panic!("expected a pong"),
    }
    let out = bone.dispatch(&path, joined.bonk_id ^ 1, Frame::Ping(vec![9]));
    assert!(matches!(out, Outcome::Ignored));
}

#[test]
fn close_frame_acknowledges_and_dispatch_without_room_is_ignored() {
    let mut bone = Bone::new();
    let path = String::from("door");
    let joined = bone.join(&path);
    let out = bone.dispatch(&path, joined.bonk_id, Frame::Close);
    assert!(matches!(out, Outcome::CloseAck));
    let missing = String::from("nowhere");
    let out = bone.dispatch(&missing, joined.bonk_id, text_frame("hi"));
    assert!(matches!(out, Outcome::Ignored));
    bone.leave(&missing, joined.bonk_id);
    assert!(bone.honk_summary(&missing).is_none());
}

#[test]
fn binary_frame_yields_fresh_image_id_and_payload() {
    let mut bone = Bone::new();
    let path = String::from("gallery");
    let joined = bone.join(&path);
    let out = bone.dispatch(&path, joined.bonk_id, Frame::Binary(vec![1, 2, 3]));
    match out {
        Outcome::StoreImage { image_id, data, payload, targets } => {
            assert_eq!(image_id.len(), 36);
            assert_eq!(data, vec![1, 2, 3]);
            assert_eq!(payload, format!("{{\"image_id\":\"{}\"}}", image_id));
            assert_eq!(targets.len(), 1);
        }
        _ => panic!("expected an image store"),
    }
    let out2 = bone.dispatch(&path, joined.bonk_id, Frame::Binary(vec![4]));
    match out2 {
        Outcome::StoreImage { image_id, .. } => assert_eq!(image_id.len(), 36),
        _ => panic!("expected an image store"),
    }
}

#[test]
fn create_boon_inserts_into_every_room() {
    let mut bone = Bone::new();
    let pa = String::from("one");
    let pb = String::from("two");
    bone.join(&pa);
    bone.join(&pb);
    let boon = lorehub::models::Boon {
        id: 42,
        name: String::from("shared"),
        x: Number::from(1u64),
        y: Number::from(2u64),
        z: Number::from(3u64),
        boonhonk: lorehub::models::Boonhonk {
            description: String::from("d"),
            level: 1,
            is_active: false,
        },
        image_id: None,
    };
    bone.create_boon(&boon);
    let all = bone.all_boons();
    assert_eq!(all.len(), 2);
    assert!(all.iter().all(|b| b.id == 42 && b.name == "shared"));
    let found = bone.boon_by_id(42).unwrap();
    assert_eq!(found.name, "shared");
}

#[test]
fn update_and_delete_report_not_found_distinctly() {
    let mut bone = Bone::new();
    let path = String::from("attic");
    let joined = bone.join(&path);
    let boon = lorehub::models::Boon {
        id: 5,
        name: String::from("new"),
        x: Number::from(1u64),
        y: Number::from(1u64),
        z: Number::from(1u64),
        boonhonk: lorehub::models::Boonhonk {
            description: String::from("s"),
            level: 0,
            is_active: true,
        },
        image_id: None,
    };
    assert!(!bone.update_boon(5, &boon));
    assert!(!bone.delete_boon(5));
    bone.dispatch(&path, joined.bonk_id, text_frame(&boon_text_payload(5, "old")));
    assert!(bone.update_boon(5, &boon));
    assert_eq!(bone.boon_by_id(5).unwrap().name, "new");
    assert!(bone.delete_boon(5));
    assert!(bone.boon_by_id(5).is_none());
    assert!(!bone.delete_boon(5));
}
