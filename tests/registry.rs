use uaf::spawn::spawn_request;
use uaf::{ActorId, Registry};

#[test]
fn registered_sink_is_found() {
    let mut r: Registry<u32> = Registry::new();
    assert!(!r.contains(ActorId(7)));
    assert_eq!(r.lookup(ActorId(7)), None);
    r.register(ActorId(7), 70);
    assert!(r.contains(ActorId(7)));
    assert_eq!(r.lookup(ActorId(7)), Some(&70));
    assert_eq!(r.lookup(ActorId(8)), None);
}

#[test]
fn registering_again_replaces_the_sink() {
    let mut r: Registry<u32> = Registry::new();
    r.register(ActorId(7), 70);
    r.register(ActorId(7), 71);
    assert_eq!(r.lookup(ActorId(7)), Some(&71));
}

#[test]
fn fresh_ids_are_not_registered_and_differ() {
    let mut r: Registry<u32> = Registry::new();
    let mut seen = Vec::new();
    let p = uaf::Props { executable: "/bin/true".to_string(), args: vec![] };
    for k in 0..50u32 {
        let id = match spawn_request(&r, &p, true, true) {
            Ok(plan) => plan.id,
            Err(_) => panic!("no fresh id"),
        };
        assert!(!r.contains(id));
        assert!(!seen.contains(&id));
        // a version-4 UUID
        assert_eq!((id.0 >> 76) & 0xf, 4);
        seen.push(id);
        r.register(id, k);
    }
}

#[test]
fn id_text_is_hyphenated_lowercase() {
    assert_eq!(ActorId(0).text(), "00000000-0000-0000-0000-000000000000");
    assert_eq!(ActorId(u128::MAX).text(), "ffffffff-ffff-ffff-ffff-ffffffffffff");
    assert_eq!(
        ActorId(0x73f31d83a71e4e32a74a263d3139f54d).text(),
        "73f31d83-a71e-4e32-a74a-263d3139f54d"
    );
}
