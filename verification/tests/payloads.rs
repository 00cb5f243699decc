use lorehub::bone::Bone;
use lorehub::bone::Outcome;
use lorehub::honk::Honk;
use lorehub::honk::TextEffect;
use lorehub::models::Frame;

#[test]
fn upsert_payload_serializes_the_stored_entity_exactly() {
    let mut bone = Bone::new();
    let path = String::from("forge");
    let joined = bone.join(&path);
    let msg = "{\"id\":1,\"name\":\"lamp\",\"x\":1.5,\"y\":2,\"z\":-3,\"boonhonk\":{\"description\":\"dim\",\"level\":-7,\"is_active\":false},\"image_id\":\"img-1\"}";
    let out = bone.dispatch(&path, joined.bonk_id, Frame::Text(String::from(msg)));
    match out {
        Outcome::EntityUpsert { boon, payload, .. } => {
            assert_eq!(boon.id, 1);
            assert_eq!(boon.image_id.as_deref(), Some("img-1"));
            assert_eq!(
                payload,
                "{\"id\":1,\"name\":\"lamp\",\"x\":1.5,\"y\":2,\"z\":-3,\"boonhonk\":{\"description\":\"dim\",\"level\":-7,\"is_active\":false},\"image_id\":\"img-1\"}"
            );
        }
        _ => panic!("expected an upsert"),
    }
}

#[test]
fn missing_or_null_image_id_serializes_as_null() {
    let mut honk = Honk::new();
    let msg = "{\"id\":2,\"name\":\"n\",\"x\":0,\"y\":0,\"z\":0,\"boonhonk\":{\"description\":\"\",\"level\":0,\"is_active\":true},\"image_id\":null}";
    match honk.handle_text(&String::from(msg)) {
        TextEffect::EntityUpsert { boon, payload } => {
            assert!(boon.image_id.is_none());
            assert!(payload.ends_with("\"image_id\":null}"));
        }
        _ => panic!("expected an upsert"),
    }
    let msg = "{\"id\":3,\"name\":\"n\",\"x\":0,\"y\":0,\"z\":0,\"boonhonk\":{\"description\":\"\",\"level\":0,\"is_active\":true}}";
    match honk.handle_text(&String::from(msg)) {
        TextEffect::EntityUpsert { boon, payload } => {
            assert!(boon.image_id.is_none());
            assert!(payload.ends_with("\"image_id\":null}"));
        }
        _ => panic!("expected an upsert"),
    }
}

#[test]
fn relay_payload_escapes_the_content() {
    let mut honk = Honk::new();
    match honk.handle_text(&String::from("he said \"boo\"\n")) {
        TextEffect::Relayed { payload, .. } => {
            assert_eq!(payload, "{\"content\":\"he said \\\"boo\\\"\\n\"}");
        }
        _ => panic!("expected a relay"),
    }
}

#[test]
fn non_integer_id_falls_through_to_relay() {
    let mut honk = Honk::new();
    let msg = "{\"id\":1.5,\"name\":\"n\",\"x\":0,\"y\":0,\"z\":0,\"boonhonk\":{\"description\":\"\",\"level\":0,\"is_active\":true}}";
    match honk.handle_text(&String::from(msg)) {
        TextEffect::Relayed { matched, .. } => assert!(matched.is_empty()),
        _ => panic!("expected a relay"),
    }
    assert!(honk.boof_queue.is_empty());
}

#[test]
fn incomplete_focal_message_falls_through() {
    let mut honk = Honk::new();
    let msg = "{\"type\":\"focal-point\",\"position\":{\"x\":10,\"y\":20}}";
    match honk.handle_text(&String::from(msg)) {
        TextEffect::Relayed { .. } => {}
        _ => panic!("expected a relay"),
    }
    assert!(honk.room_info.focal_point.is_none());
}

#[test]
fn focal_decode_wins_over_entity_decode() {
    let mut honk = Honk::new();
    let msg = "{\"type\":\"focal-point\",\"position\":{\"x\":1,\"y\":2},\"bounds\":{\"x1\":3,\"y1\":4,\"x2\":5,\"y2\":6},\"id\":9,\"name\":\"n\",\"x\":0,\"y\":0,\"z\":0,\"boonhonk\":{\"description\":\"\",\"level\":0,\"is_active\":true}}";
    match honk.handle_text(&String::from(msg)) {
        TextEffect::FocalUpdated { .. } => {}
        _ => panic!("expected a focal update"),
    }
    assert!(honk.boon_by_id(9).is_none());
}

#[test]
fn snapshot_payload_joins_entities_with_commas() {
    let mut bone = Bone::new();
    let path = String::from("depot");
    let first = bone.join(&path);
    let a = "{\"id\":1,\"name\":\"a\",\"x\":0,\"y\":0,\"z\":0,\"boonhonk\":{\"description\":\"\",\"level\":0,\"is_active\":true}}";
    let b = "{\"id\":2,\"name\":\"b\",\"x\":0,\"y\":0,\"z\":0,\"boonhonk\":{\"description\":\"\",\"level\":0,\"is_active\":true}}";
    bone.dispatch(&path, first.bonk_id, Frame::Text(String::from(a)));
    bone.dispatch(&path, first.bonk_id, Frame::Text(String::from(b)));
    let second = bone.join(&path);
    let parsed: Vec<serde_json::Value> = serde_json::from_str(&second.snapshot).unwrap();
    let mut ids: Vec<i64> = parsed.iter().map(|v| v["id"].as_i64().unwrap()).collect();
    ids.sort();
    assert_eq!(ids, vec![1, 2]);
}

#[test]
fn distinct_joins_draw_distinct_session_ids() {
    let mut bone = Bone::new();
    let path = String::from("pool");
    let a = bone.join(&path);
    let b = bone.join(&path);
    assert_ne!(a.bonk_id, b.bonk_id);
}
