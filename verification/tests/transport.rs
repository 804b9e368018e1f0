use fusen::transport::{request_shard, stable_shard};

fn reference_hash(authority: &[u8], request_id: &[u8]) -> u64 {
    let mut hash: u64 = 0xcbf2_9ce4_8422_2325;
    for part in [authority, request_id] {
        for byte in (part.len() as u64).to_le_bytes().iter().chain(part) {
            hash ^= u64::from(*byte);
            hash = hash.wrapping_mul(0x0000_0100_0000_01b3);
        }
    }
    hash
}

#[test]
fn requests_without_control_ids_round_robin_across_shards() {
    let authority = b"service.example";
    let mut next = 0usize;
    let mut shards = Vec::new();
    for _ in 0..4 {
        let (shard, used) = request_shard(authority, None, 3, next);
        if used {
            next += 1;
        }
        shards.push(shard);
    }
    assert_eq!(shards, vec![0, 1, 2, 0]);
}

#[test]
fn requests_with_control_ids_keep_stable_shard_selection() {
    let authority = b"service.example";
    let next = 0usize;
    let (selected, used) = request_shard(authority, Some(b"request-1"), 3, next);
    assert!(!used);
    assert_eq!(request_shard(authority, Some(b"request-1"), 3, 7).0, selected);
    assert_eq!(next, 0);
}

#[test]
fn empty_control_ids_take_turns() {
    assert_eq!(request_shard(b"a", Some(b""), 4, 6), (2, true));
}

#[test]
fn stable_shards_follow_length_prefixed_fnv1a() {
    for (authority, id, count) in [
        (&b"service.example"[..], &b"request-1"[..], 3usize),
        (&b""[..], &b"x"[..], 7),
        (&b"host:8080"[..], &b"0123456789abcdef"[..], 16),
    ] {
        let expected = (reference_hash(authority, id) % count as u64) as usize;
        assert_eq!(stable_shard(authority, id, count), expected);
    }
}
