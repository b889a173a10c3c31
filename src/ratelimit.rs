//! The hashed fixed-window rate limiter for anonymous page views.
//!
//! A client is identified by the SHA-256 digest of its coarsened address
//! followed by a server-held pepper; raw addresses are never stored.

use crate::analytics::succ_sat;
use crate::maps::{
    clear_rate_counts, get_rate_count, new_rate_counts, no_rate_counts, rate_counts, set_rate_count,
};
use dashmap::DashMap;
use sha2::Digest;
use vstd::prelude::*;
use vstd::utf8::encode_utf8;

verus! {

/// A client address as parsed from the request.
#[derive(Clone, Copy, Debug, PartialEq, Eq)]
pub enum ClientAddr {
    V4([u8; 4]),
    V6([u16; 8]),
}

/// The number of page views of one path admitted per client and window.
pub const VIEWS_PER_WINDOW: u32 = 5;

/// The ASCII digit of `d < 10`.
pub open spec fn ascii_digit(d: nat) -> u8 {
    (48 + d) as u8
}

/// The upper-case ASCII hex digit of `d < 16`.
pub open spec fn ascii_hex_digit(d: nat) -> u8 {
    if d < 10 {
        (48 + d) as u8
    } else {
        (55 + d) as u8
    }
}

/// `n` in decimal, without leading zeros.
pub open spec fn decimal(n: nat) -> Seq<u8>
    decreases n,
{
    if n < 10 {
        seq![ascii_digit(n)]
    } else {
        decimal(n / 10).push(ascii_digit(n % 10))
    }
}

/// `n` in upper-case hexadecimal, without leading zeros.
pub open spec fn hexadecimal(n: nat) -> Seq<u8>
    decreases n,
{
    if n < 16 {
        seq![ascii_hex_digit(n)]
    } else {
        hexadecimal(n / 16).push(ascii_hex_digit(n % 16))
    }
}

/// The loopback address that stands for a client whose address did not parse.
pub open spec fn loopback() -> ClientAddr {
    ClientAddr::V4([127u8, 0u8, 0u8, 1u8])
}

/// The text that identifies a client before hashing: an IPv4 address whole, as
/// `a.b.c.d`; an IPv6 address by its first four groups, as `[2001, DB8, 0, 0]`.
pub open spec fn client_text(addr: ClientAddr) -> Seq<u8> {
    match addr {
        ClientAddr::V4(o) => decimal(o@[0] as nat) + seq![46u8] + decimal(o@[1] as nat) + seq![46u8]
            + decimal(o@[2] as nat) + seq![46u8] + decimal(o@[3] as nat),
        ClientAddr::V6(g) => seq![91u8] + hexadecimal(g@[0] as nat) + seq![44u8, 32u8] + hexadecimal(
            g@[1] as nat,
        ) + seq![44u8, 32u8] + hexadecimal(g@[2] as nat) + seq![44u8, 32u8] + hexadecimal(
            g@[3] as nat,
        ) + seq![93u8],
    }
}

/// The address a request is counted under: an unparsable one pools with loopback.
pub open spec fn effective_addr(addr: Option<ClientAddr>) -> ClientAddr {
    match addr {
        Some(a) => a,
        None => loopback(),
    }
}

/// The SHA-256 digest of `data`.
pub uninterp spec fn sha256_of(data: Seq<u8>) -> Seq<u8>;

/// The key a request is counted under: the digest of the client text followed by
/// the pepper's UTF-8 bytes, with the site path.
pub open spec fn rate_key(addr: Option<ClientAddr>, pepper: Seq<char>, path: Seq<char>) -> (Seq<u8>, Seq<char>) {
    (sha256_of(client_text(effective_addr(addr)) + encode_utf8(pepper)), path)
}

/// Whether a request under `key` is admitted, given the entries before it.
pub open spec fn admits(m: Map<(Seq<u8>, Seq<char>), u32>, key: (Seq<u8>, Seq<char>)) -> bool {
    !m.dom().contains(key) || succ_sat(m[key]) < VIEWS_PER_WINDOW
}

/// The entries after a request under `key`: a new key starts at zero, a known one counts up.
pub open spec fn observe(m: Map<(Seq<u8>, Seq<char>), u32>, key: (Seq<u8>, Seq<char>)) -> Map<(Seq<u8>, Seq<char>), u32> {
    m.insert(key, if m.dom().contains(key) { succ_sat(m[key]) } else { 0 })
}

/// The entries after `n` requests under `key`.
pub open spec fn observe_times(m: Map<(Seq<u8>, Seq<char>), u32>, key: (Seq<u8>, Seq<char>), n: nat) -> Map<(Seq<u8>, Seq<char>), u32>
    decreases n,
{
    if n == 0 {
        m
    } else {
        observe(observe_times(m, key, (n - 1) as nat), key)
    }
}

/// Within one window, the requests under a key not seen yet are admitted for the first
/// five and refused from the sixth on.
pub proof fn lemma_five_per_window(m: Map<(Seq<u8>, Seq<char>), u32>, key: (Seq<u8>, Seq<char>), n: nat)
    requires
        !m.dom().contains(key),
    ensures
        admits(observe_times(m, key, n), key) == (n < 5),
        n > 0 ==> observe_times(m, key, n)[key] == if n - 1 > u32::MAX { u32::MAX as nat } else { (n - 1) as nat },
    decreases n,
{
    if n > 0 {
        lemma_five_per_window(m, key, (n - 1) as nat);
    }
}

/// After a reset the next request under any key is admitted, with a fresh count of zero.
pub proof fn lemma_reset_starts_fresh(key: (Seq<u8>, Seq<char>))
    ensures
        admits(no_rate_counts(), key),
        observe(no_rate_counts(), key)[key] == 0,
{
}

/// The same client counts under the same key for the same path (an unparsable address
/// as loopback, IPv6 addresses by their first four groups); two paths are two keys, and
/// a request under one leaves the other's entry as it was.
pub proof fn lemma_buckets(
    a: Option<ClientAddr>,
    b: Option<ClientAddr>,
    pepper: Seq<char>,
    path: Seq<char>,
    other_path: Seq<char>,
    m: Map<(Seq<u8>, Seq<char>), u32>,
)
    requires
        effective_addr(a) == effective_addr(b) || (effective_addr(a) is V6 && effective_addr(b) is V6
            && effective_addr(a)->V6_0@.take(4) == effective_addr(b)->V6_0@.take(4)),
        path != other_path,
    ensures
        rate_key(a, pepper, path) == rate_key(b, pepper, path),
        rate_key(a, pepper, path) != rate_key(a, pepper, other_path),
        observe(m, rate_key(a, pepper, path)).dom().contains(rate_key(a, pepper, other_path))
            == m.dom().contains(rate_key(a, pepper, other_path)),
        observe(m, rate_key(a, pepper, path))[rate_key(a, pepper, other_path)] == m[rate_key(a, pepper, other_path)],
{
    if effective_addr(a) != effective_addr(b) {
        let ga = effective_addr(a)->V6_0@;
        let gb = effective_addr(b)->V6_0@;
        assert(ga[0] == ga.take(4)[0] && ga[1] == ga.take(4)[1] && ga[2] == ga.take(4)[2] && ga[3] == ga.take(4)[3]);
        assert(gb[0] == gb.take(4)[0] && gb[1] == gb.take(4)[1] && gb[2] == gb.take(4)[2] && gb[3] == gb.take(4)[3]);
    }
}

/// Relies on `sha2::Sha256::digest`: the 32-byte SHA-256 digest of the input.
#[verifier::external_body]
fn sha256(data: &[u8]) -> (r: Vec<u8>)
    ensures
        r@ == sha256_of(data@),
        r@.len() == 32,
{
    sha2::Sha256::digest(data).to_vec()
}

fn push_decimal(out: &mut Vec<u8>, n: u8)
    ensures
        final(out)@ == old(out)@ + decimal(n as nat),
{
    reveal_with_fuel(decimal, 3);
    let ghost start = out@;
    if n >= 100 {
        out.push(48 + n / 100);
        out.push(48 + (n / 10) % 10);
        out.push(48 + n % 10);
        assert(decimal(n as nat) =~= seq![ascii_digit((n / 100) as nat), ascii_digit(((n / 10) % 10) as nat), ascii_digit((n % 10) as nat)]);
    } else if n >= 10 {
        out.push(48 + n / 10);
        out.push(48 + n % 10);
        assert(decimal(n as nat) =~= seq![ascii_digit((n / 10) as nat), ascii_digit((n % 10) as nat)]);
    } else {
        out.push(48 + n);
    }
    assert(out@ =~= start + decimal(n as nat));
}

fn hex_digit(d: u16) -> (b: u8)
    requires
        d < 16,
    ensures
        b == ascii_hex_digit(d as nat),
{
    if d < 10 {
        48 + d as u8
    } else {
        55 + d as u8
    }
}

fn push_hex(out: &mut Vec<u8>, n: u16)
    ensures
        final(out)@ == old(out)@ + hexadecimal(n as nat),
    decreases n,
{
    let ghost start = out@;
    if n >= 16 {
        push_hex(out, n / 16);
    }
    out.push(hex_digit(n % 16));
    assert(out@ =~= start + hexadecimal(n as nat));
}

/// The bytes that identify a client before hashing.
pub fn client_bytes(addr: Option<ClientAddr>) -> (r: Vec<u8>)
    ensures
        r@ == client_text(effective_addr(addr)),
{
    let a = match addr {
        Some(a) => a,
        None => ClientAddr::V4([127u8, 0u8, 0u8, 1u8]),
    };
    let mut out: Vec<u8> = Vec::new();
    match a {
        ClientAddr::V4(o) => {
            push_decimal(&mut out, o[0]);
            out.push(46);
            push_decimal(&mut out, o[1]);
            out.push(46);
            push_decimal(&mut out, o[2]);
            out.push(46);
            push_decimal(&mut out, o[3]);
        },
        ClientAddr::V6(g) => {
            out.push(91);
            push_hex(&mut out, g[0]);
            out.push(44);
            out.push(32);
            push_hex(&mut out, g[1]);
            out.push(44);
            out.push(32);
            push_hex(&mut out, g[2]);
            out.push(44);
            out.push(32);
            push_hex(&mut out, g[3]);
            out.push(93);
        },
    }
    assert(out@ =~= client_text(effective_addr(addr)));
    out
}

/// Limits page views to five recorded per window, per hashed client and path.
pub struct RateLimitQueue {
    pepper: String,
    views_queue: DashMap<(Vec<u8>, String), u32>,
}

impl RateLimitQueue {
    /// The server-held secret mixed into every key.
    pub closed spec fn pepper(&self) -> Seq<char> {
        self.pepper@
    }

    /// The entries of the current window.
    pub closed spec fn entries(&self) -> Map<(Seq<u8>, Seq<char>), u32> {
        rate_counts(self.views_queue)
    }

    /// A limiter with no entries.
    pub fn new(pepper: String) -> (r: Self)
        ensures
            r.pepper() == pepper@,
            r.entries() == no_rate_counts(),
    {
        RateLimitQueue { pepper, views_queue: new_rate_counts() }
    }

    /// The key under which a request from `ip` to `site_path` is counted.
    pub fn key_for(&self, ip: Option<ClientAddr>, site_path: &String) -> (r: (Vec<u8>, String))
        ensures
            (r.0@, r.1@) == rate_key(ip, self.pepper(), site_path@),
    {
        let mut data = client_bytes(ip);
        let ghost text = data@;
        let pepper = self.pepper.as_str().as_bytes();
        let mut i: usize = 0;
        while i < pepper.len()
            invariant
                i <= pepper@.len(),
                data@ == text + pepper@.take(i as int),
            decreases pepper@.len() - i,
        {
            data.push(pepper[i]);
            assert(pepper@.take(i + 1) =~= pepper@.take(i as int).push(pepper@[i as int]));
            i = i + 1;
        }
        assert(pepper@.take(i as int) =~= pepper@);
        (sha256(data.as_slice()), site_path.clone())
    }

    /// Records a page view from `ip` (`None`: it did not parse) to `site_path` and
    /// says whether it is admitted.
    pub fn add(&mut self, ip: Option<ClientAddr>, site_path: String) -> (r: bool)
        ensures
            r == admits(old(self).entries(), rate_key(ip, old(self).pepper(), site_path@)),
            final(self).entries() == observe(old(self).entries(), rate_key(ip, old(self).pepper(), site_path@)),
            final(self).pepper() == old(self).pepper(),
    {
        let key = self.key_for(ip, &site_path);
        match get_rate_count(&self.views_queue, &key) {
            Some(v) => {
                let next = v.saturating_add(1);
                set_rate_count(&mut self.views_queue, key, next);
                next < VIEWS_PER_WINDOW
            },
            None => {
                set_rate_count(&mut self.views_queue, key, 0);
                true
            },
        }
    }

    /// Ends the window: every entry is dropped.
    pub fn index(&mut self)
        ensures
            final(self).entries() == no_rate_counts(),
            final(self).pepper() == old(self).pepper(),
    {
        clear_rate_counts(&mut self.views_queue);
    }
}

} // verus!
