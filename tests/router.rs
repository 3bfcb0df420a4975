use uaf::router::{classify, route, Inbound, Route};
use uaf::{ActorId, Data, Props, Registry};

fn data(from: Option<ActorId>, to: ActorId, n: i64) -> Data {
    Data { from, to, payload: serde_json::Value::from(n) }
}

fn props(path: &str) -> Props {
    Props { executable: path.to_string(), args: vec![] }
}

#[test]
fn data_reading_wins_over_spawn_reading() {
    let a = ActorId(1);
    assert!(matches!(
        classify(Some(data(None, a, 1)), Some(props("/bin/true"))),
        Inbound::Data(_)
    ));
    assert!(matches!(classify(None, Some(props("/bin/true"))), Inbound::Spawn(_)));
    assert!(matches!(classify(None, None), Inbound::Unknown));
}

#[test]
fn message_to_registered_actor_is_delivered_with_origin() {
    let (x, b) = (ActorId(1), ActorId(2));
    let mut r: Registry<u32> = Registry::new();
    r.register(b, 0);
    match route(&r, x, Inbound::Data(data(None, b, 5))) {
        Route::Deliver(d) => {
            assert_eq!(d.from, Some(x));
            assert_eq!(d.to, b);
            assert_eq!(d.payload, serde_json::Value::from(5));
        }
        _ => panic!("not delivered"),
    }
}

#[test]
fn claimed_origin_is_replaced_by_sender() {
    let (x, b, c) = (ActorId(1), ActorId(2), ActorId(3));
    let mut r: Registry<u32> = Registry::new();
    r.register(b, 0);
    match route(&r, x, Inbound::Data(data(Some(c), b, 5))) {
        Route::Deliver(d) => assert_eq!(d.from, Some(x)),
        _ => panic!("not delivered"),
    }
}

#[test]
fn message_to_unknown_actor_is_dropped() {
    let (x, b) = (ActorId(1), ActorId(2));
    let mut r: Registry<u32> = Registry::new();
    r.register(x, 0);
    match route(&r, x, Inbound::Data(data(None, b, 5))) {
        Route::Missed(d) => assert_eq!(d.to, b),
        _ => panic!("delivered to an unknown actor"),
    }
    assert!(!r.contains(b));
    // the router goes on with the next line
    assert!(matches!(route(&r, x, Inbound::Data(data(None, x, 6))), Route::Deliver(_)));
}

#[test]
fn spawn_request_is_tagged_with_requester() {
    let x = ActorId(1);
    let r: Registry<u32> = Registry::new();
    match route(&r, x, Inbound::Spawn(props("/bin/echo"))) {
        Route::Spawn { requester, props } => {
            assert_eq!(requester, x);
            assert_eq!(props.executable, "/bin/echo");
        }
        _ => panic!("not a spawn request"),
    }
    assert!(matches!(route(&r, x, Inbound::Unknown), Route::Unknown));
}

#[test]
fn identical_lines_are_delivered_twice() {
    let (x, b) = (ActorId(1), ActorId(2));
    let mut r: Registry<u32> = Registry::new();
    r.register(b, 0);
    let mut delivered = 0;
    for _ in 0..2 {
        if let Route::Deliver(d) = route(&r, x, Inbound::Data(data(None, b, 9))) {
            assert_eq!(d.payload, serde_json::Value::from(9));
            delivered += 1;
        }
    }
    assert_eq!(delivered, 2);
}

#[test]
fn messages_from_one_sender_keep_their_order() {
    let (x, b) = (ActorId(1), ActorId(2));
    let mut r: Registry<u32> = Registry::new();
    r.register(b, 0);
    let mut seen = Vec::new();
    for n in 0..5 {
        if let Route::Deliver(d) = route(&r, x, Inbound::Data(data(None, b, n))) {
            seen.push(d.payload.as_i64().unwrap());
        }
    }
    assert_eq!(seen, vec![0, 1, 2, 3, 4]);
}

#[test]
fn echoing_root_gets_ten_replies_and_no_spawn_requests() {
    let root = ActorId(0x73f31d83a71e4e32a74a263d3139f54d);
    let mut r: Registry<u32> = Registry::new();
    r.register(root, 0);
    let mut deliveries = 0;
    let mut spawns = 0;
    for count in 1..=10i64 {
        let line = classify(Some(data(None, root, count)), None);
        match route(&r, root, line) {
            Route::Deliver(d) => {
                assert_eq!(d.from, Some(root));
                assert_eq!(d.payload.as_i64(), Some(count));
                deliveries += 1;
            }
            Route::Spawn { .. } => spawns += 1,
            _ => panic!("unexpected route"),
        }
    }
    assert_eq!(deliveries, 10);
    assert_eq!(spawns, 0);
}
