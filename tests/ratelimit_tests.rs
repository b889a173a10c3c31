use ariadne::analytics::AnalyticsQueue;
use ariadne::ingest::count_view;
use ariadne::ratelimit::{client_bytes, ClientAddr, RateLimitQueue};
use sha2::Digest;

#[test]
fn admits_five_then_refuses() {
    let mut rl = RateLimitQueue::new("pepper".to_string());
    let ip = Some(ClientAddr::V4([10, 0, 0, 1]));
    for _ in 0..5 {
        assert!(rl.add(ip, "/mod/foo".to_string()));
    }
    assert!(!rl.add(ip, "/mod/foo".to_string()));
    assert!(!rl.add(ip, "/mod/foo".to_string()));
}

#[test]
fn reset_starts_a_new_window() {
    let mut rl = RateLimitQueue::new("pepper".to_string());
    let ip = Some(ClientAddr::V4([10, 0, 0, 1]));
    for _ in 0..6 {
        rl.add(ip, "/p".to_string());
    }
    rl.index();
    for _ in 0..5 {
        assert!(rl.add(ip, "/p".to_string()));
    }
    assert!(!rl.add(ip, "/p".to_string()));
}

#[test]
fn paths_are_separate_buckets() {
    let mut rl = RateLimitQueue::new("pepper".to_string());
    let ip = Some(ClientAddr::V4([10, 0, 0, 1]));
    for _ in 0..5 {
        assert!(rl.add(ip, "/a".to_string()));
    }
    assert!(!rl.add(ip, "/a".to_string()));
    assert!(rl.add(ip, "/b".to_string()));
}

#[test]
fn ipv6_clients_share_their_prefix() {
    let mut rl = RateLimitQueue::new("pepper".to_string());
    let a = Some(ClientAddr::V6([0x2001, 0xdb8, 0, 0, 1, 2, 3, 4]));
    let b = Some(ClientAddr::V6([0x2001, 0xdb8, 0, 0, 9, 9, 9, 9]));
    let c = Some(ClientAddr::V6([0x2001, 0xdb8, 0, 1, 1, 2, 3, 4]));
    for _ in 0..3 {
        assert!(rl.add(a, "/x".to_string()));
    }
    for _ in 0..2 {
        assert!(rl.add(b, "/x".to_string()));
    }
    assert!(!rl.add(a, "/x".to_string()));
    assert!(rl.add(c, "/x".to_string()));
}

#[test]
fn unparsable_address_pools_with_loopback() {
    let mut rl = RateLimitQueue::new("pepper".to_string());
    for _ in 0..5 {
        assert!(rl.add(None, "/x".to_string()));
    }
    assert!(!rl.add(Some(ClientAddr::V4([127, 0, 0, 1])), "/x".to_string()));
}

#[test]
fn client_text_forms() {
    assert_eq!(client_bytes(Some(ClientAddr::V4([192, 168, 0, 1]))), b"192.168.0.1".to_vec());
    assert_eq!(client_bytes(Some(ClientAddr::V4([8, 10, 255, 100]))), b"8.10.255.100".to_vec());
    assert_eq!(client_bytes(None), b"127.0.0.1".to_vec());
    assert_eq!(
        client_bytes(Some(ClientAddr::V6([0x2001, 0xdb8, 0, 0xabcd, 1, 2, 3, 4]))),
        b"[2001, DB8, 0, ABCD]".to_vec()
    );
    let groups: [u16; 8] = [0xfe80, 0, 0x1a, 0xbeef, 0, 0, 0, 1];
    assert_eq!(format!("{:X?}", &groups[0..4]).into_bytes(), client_bytes(Some(ClientAddr::V6(groups))));
}

#[test]
fn key_is_the_peppered_digest() {
    let rl = RateLimitQueue::new("s3cret".to_string());
    let (digest, path) = rl.key_for(Some(ClientAddr::V4([1, 2, 3, 4])), &"/mod/foo".to_string());
    let expected = sha2::Sha256::digest(b"1.2.3.4s3cret").to_vec();
    assert_eq!(digest, expected);
    assert_eq!(digest.len(), 32);
    assert_eq!(path, "/mod/foo");
    let other = RateLimitQueue::new("other".to_string());
    let (digest2, _) = other.key_for(Some(ClientAddr::V4([1, 2, 3, 4])), &"/mod/foo".to_string());
    assert_ne!(digest, digest2);
}

#[test]
fn sixth_view_is_dropped_silently() {
    let mut rl = RateLimitQueue::new("pepper".to_string());
    let mut q = AnalyticsQueue::new();
    let ip = Some(ClientAddr::V4([203, 0, 113, 9]));
    let mut counted = Vec::new();
    for _ in 0..6 {
        counted.push(count_view(&mut rl, &mut q, false, ip, 42, "/mod/foo".to_string()));
    }
    assert_eq!(counted, vec![true, true, true, true, true, false]);
    let b = q.index();
    assert_eq!(b.views, vec![((42, "/mod/foo".to_string()), 5)]);
}

#[test]
fn server_views_skip_the_limiter() {
    let mut rl = RateLimitQueue::new("pepper".to_string());
    let mut q = AnalyticsQueue::new();
    let ip = Some(ClientAddr::V4([203, 0, 113, 9]));
    for _ in 0..8 {
        assert!(count_view(&mut rl, &mut q, true, ip, 1, "/p".to_string()));
    }
    assert!(rl.add(ip, "/p".to_string()));
    let b = q.index();
    assert_eq!(b.views, vec![((1, "/p".to_string()), 8)]);
}
