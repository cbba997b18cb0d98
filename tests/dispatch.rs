use std::collections::HashSet;
use std::sync::{Arc, Mutex};

use unique_ids::node::{Action, Identifier, Node, Reply, ReplyBody, Strategy};
use unique_ids::request::{classify, Inbound, RequestKind};

fn inbound(src: &str, msg_id: u64, typ: &str) -> Inbound {
    Inbound { src: src.to_string(), msg_id, typ: typ.to_string() }
}

fn generated(act: &Action) -> Identifier {
    match act {
        Action::Send(Reply { body: ReplyBody::GenerateOk(id), .. }) => id.clone(),
        other => panic!("expected a generate_ok reply, got {:?}", other),
    }
}

#[test]
fn classify_tags() {
    assert_eq!(classify(&"init".to_string()), RequestKind::Init);
    assert_eq!(classify(&"generate".to_string()), RequestKind::Generate);
    assert_eq!(classify(&"unknown_op".to_string()), RequestKind::Unrecognized);
    assert_eq!(classify(&"".to_string()), RequestKind::Unrecognized);
    assert_eq!(classify(&"Init".to_string()), RequestKind::Unrecognized);
    assert_eq!(classify(&"generate_ok".to_string()), RequestKind::Unrecognized);
}

#[test]
fn init_gets_init_ok() {
    let mut node = Node::new(Strategy::CheckedRandom);
    let act = node.dispatch(inbound("c1", 1, "init"));
    assert_eq!(
        act,
        Action::Send(Reply { dest: "c1".to_string(), in_reply_to: 1, body: ReplyBody::InitOk })
    );
    assert_eq!(ReplyBody::InitOk.tag(), "init_ok");
}

#[test]
fn generate_gets_fresh_number() {
    let mut node = Node::new(Strategy::CheckedRandom);
    let act = node.dispatch(inbound("c2", 5, "generate"));
    match &act {
        Action::Send(reply) => {
            assert_eq!(reply.dest, "c2");
            assert_eq!(reply.in_reply_to, 5);
            assert_eq!(reply.body.tag(), "generate_ok");
        }
        other => panic!("unexpected {:?}", other),
    }
    match generated(&act) {
        Identifier::Number(n) => assert!(node.has_issued(n)),
        other => panic!("expected a number, got {:?}", other),
    }
}

#[test]
fn unknown_op_is_acknowledged() {
    let mut node = Node::new(Strategy::CheckedRandom);
    assert_eq!(node.dispatch(inbound("c1", 3, "unknown_op")), Action::Acknowledge);
    let mut node = Node::new(Strategy::SyntheticUnique);
    assert_eq!(node.dispatch(inbound("c1", 4, "echo")), Action::Acknowledge);
}

#[test]
fn init_twice_is_independent() {
    let mut node = Node::new(Strategy::CheckedRandom);
    let first = node.dispatch(inbound("c1", 10, "init"));
    let second = node.dispatch(inbound("c3", 11, "init"));
    assert_eq!(
        first,
        Action::Send(Reply { dest: "c1".to_string(), in_reply_to: 10, body: ReplyBody::InitOk })
    );
    assert_eq!(
        second,
        Action::Send(Reply { dest: "c3".to_string(), in_reply_to: 11, body: ReplyBody::InitOk })
    );
    for n in [0u64, 1, 42, u64::MAX] {
        assert!(!node.has_issued(n));
    }
}

#[test]
fn checked_numbers_distinct_and_kept() {
    let mut node = Node::new(Strategy::CheckedRandom);
    let mut seen = HashSet::new();
    for i in 0..100_000u64 {
        match generated(&node.dispatch(inbound("c1", i + 1, "generate"))) {
            Identifier::Number(n) => assert!(seen.insert(n), "number {} issued twice", n),
            other => panic!("expected a number, got {:?}", other),
        }
    }
    assert_eq!(seen.len(), 100_000);
    for n in &seen {
        assert!(node.has_issued(*n));
    }
}

#[test]
fn concurrent_generates_are_distinct_and_correlated() {
    let node = Arc::new(Mutex::new(Node::new(Strategy::CheckedRandom)));
    let runtime = tokio::runtime::Builder::new_multi_thread().worker_threads(4).build().unwrap();
    let replies = runtime.block_on(async {
        let mut handles = Vec::new();
        for i in 0..2_000u64 {
            let node = node.clone();
            handles.push(tokio::spawn(async move {
                let req = inbound(&format!("c{}", i % 7), i + 1, "generate");
                let act = node.lock().unwrap().dispatch(req);
                (i, act)
            }));
        }
        let mut out = Vec::new();
        for h in handles {
            out.push(h.await.unwrap());
        }
        out
    });
    let mut seen = HashSet::new();
    for (i, act) in replies {
        match &act {
            Action::Send(reply) => {
                assert_eq!(reply.dest, format!("c{}", i % 7));
                assert_eq!(reply.in_reply_to, i + 1);
            }
            other => panic!("unexpected {:?}", other),
        }
        match generated(&act) {
            Identifier::Number(n) => assert!(seen.insert(n)),
            other => panic!("expected a number, got {:?}", other),
        }
    }
    assert_eq!(seen.len(), 2_000);
}

#[test]
fn synthetic_tokens_distinct() {
    let mut node = Node::new(Strategy::SyntheticUnique);
    let mut seen = HashSet::new();
    for i in 0..10_000u64 {
        let act = node.dispatch(inbound("c1", i + 1, "generate"));
        match &act {
            Action::Send(reply) => assert_eq!(reply.in_reply_to, i + 1),
            other => panic!("unexpected {:?}", other),
        }
        match generated(&act) {
            Identifier::Token(t) => {
                let b = t.as_bytes();
                assert_eq!(b.len(), 36);
                for (k, c) in t.chars().enumerate() {
                    if k == 8 || k == 13 || k == 18 || k == 23 {
                        assert_eq!(c, '-');
                    } else {
                        assert!(c.is_ascii_digit() || ('a'..='f').contains(&c), "{}", t);
                    }
                }
                assert_eq!(b[14], b'4');
                assert!(matches!(b[19], b'8' | b'9' | b'a' | b'b'), "{}", t);
                assert!(seen.insert(t));
            }
            other => panic!("expected a token, got {:?}", other),
        }
    }
    assert_eq!(seen.len(), 10_000);
}

#[test]
fn shared_path_leaves_checked_generate() {
    let node = Node::new(Strategy::CheckedRandom);
    assert_eq!(
        node.dispatch_shared(inbound("c1", 2, "init")),
        Ok(Action::Send(Reply { dest: "c1".to_string(), in_reply_to: 2, body: ReplyBody::InitOk }))
    );
    assert_eq!(node.dispatch_shared(inbound("c1", 3, "cas")), Ok(Action::Acknowledge));
    assert_eq!(node.dispatch_shared(inbound("c1", 4, "generate")), Err(inbound("c1", 4, "generate")));
    let tokens = Node::new(Strategy::SyntheticUnique);
    match tokens.dispatch_shared(inbound("c5", 6, "generate")) {
        Ok(act) => match generated(&act) {
            Identifier::Token(t) => assert_eq!(t.len(), 36),
            other => panic!("expected a token, got {:?}", other),
        },
        other => panic!("unexpected {:?}", other),
    }
}

#[test]
fn fresh_checked_node_always_answers() {
    for i in 0..1_000u64 {
        let mut node = Node::new(Strategy::CheckedRandom);
        match node.dispatch(inbound("c1", i, "generate")) {
            Action::Send(reply) => assert_eq!(reply.in_reply_to, i),
            other => panic!("unexpected {:?}", other),
        }
    }
}
