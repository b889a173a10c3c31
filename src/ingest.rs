//! The decisions taken while ingesting page views, downloads and revenue:
//! which URL and origin are accepted, which client address and headers are
//! recorded, which project a page belongs to, and the stored records.

use crate::base62::{decode, parse_base62};
use crate::error::ApiError;
use crate::analytics::{bump, AnalyticsQueue, RawQueue};
use crate::ratelimit::{admits, effective_addr, observe, rate_key, ClientAddr, RateLimitQueue};
use crate::text::{chars_of, ends_with, has_suffix, opt_view, slice_eq, str_eq, string_of};
use vstd::prelude::*;

verus! {

/// A download reported by the platform (admin only).
pub struct DownloadInput {
    pub ip: String,
    pub url: String,
    pub project_id: String,
    pub version_id: String,
    pub headers: Vec<(String, String)>,
}

/// A page view; `ip` and `headers` are only taken from the platform's own server.
pub struct UrlInput {
    pub url: String,
    pub ip: Option<String>,
    pub headers: Option<Vec<(String, String)>>,
}

/// A recorded page view.
pub struct PageView {
    pub id: u128,
    pub recorded: i64,
    pub domain: String,
    pub site_path: String,
    pub from_server: bool,
    pub user_id: u64,
    pub project_id: u64,
    pub ip: [u16; 8],
    pub country: String,
    pub user_agent: String,
    pub headers: Vec<(String, String)>,
}

/// A recorded download.
pub struct Download {
    pub id: u128,
    pub recorded: i64,
    pub domain: String,
    pub site_path: String,
    pub user_id: u64,
    pub project_id: u64,
    pub version_id: u64,
    pub ip: [u16; 8],
    pub country: String,
    pub user_agent: String,
    pub headers: Vec<(String, String)>,
}

/// The largest revenue one request may report, in millionths of the currency unit.
pub const MAX_REVENUE_MICROS: u64 = 5_000_000;

/// Headers that are never stored: credentials, and what is kept elsewhere or not needed.
pub open spec fn is_filtered_header(name: Seq<char>) -> bool {
    name == "authorization"@ || name == "cookie"@ || name == "modrinth-admin"@ || name == "user-agent"@
        || name == "cf-connecting-ip"@ || name == "cf-ipcountry"@ || name == "x-forwarded-for"@
        || name == "x-real-ip"@ || name == "x-vercel-ip-city"@ || name == "x-vercel-ip-timezone"@
        || name == "x-vercel-ip-longitude"@ || name == "x-vercel-proxy-signature"@
        || name == "x-vercel-ip-country-region"@ || name == "x-vercel-forwarded-for"@
        || name == "x-vercel-proxied-for"@ || name == "x-vercel-proxy-signature-ts"@
        || name == "x-vercel-ip-latitude"@ || name == "x-vercel-ip-country"@
}

/// The lower-case form of a string, as `str::to_lowercase` gives it.
pub uninterp spec fn lower_of(s: Seq<char>) -> Seq<char>;

/// The headers of `hs` whose lower-cased name is not filtered, in order.
pub open spec fn unfiltered_lowered(hs: Seq<(String, String)>) -> Seq<(String, String)>
    decreases hs.len(),
{
    if hs.len() == 0 {
        seq![]
    } else if is_filtered_header(lower_of(hs.last().0@)) {
        unfiltered_lowered(hs.drop_last())
    } else {
        unfiltered_lowered(hs.drop_last()).push(hs.last())
    }
}

/// The value of the first header named `name`.
pub open spec fn header_value(hs: Seq<(String, String)>, name: Seq<char>) -> Option<Seq<char>>
    decreases hs.len(),
{
    if hs.len() == 0 {
        None
    } else if hs[0].0@ == name {
        Some(hs[0].1@)
    } else {
        header_value(hs.drop_first(), name)
    }
}

/// The value of the first header named `name`, or the empty string.
pub open spec fn header_or_empty(hs: Seq<(String, String)>, name: Seq<char>) -> Seq<char> {
    match header_value(hs, name) {
        Some(v) => v,
        None => seq![],
    }
}

/// Relies on `str::to_lowercase`: the result depends on the characters alone.
#[verifier::external_body]
fn lowercase(s: &str) -> (r: String)
    ensures
        r@ == lower_of(s@),
{
    s.to_lowercase()
}

/// Whether a header of this name may be stored.
pub fn is_kept_header(name: &str) -> (r: bool)
    ensures
        r == !is_filtered_header(name@),
{
    !(str_eq(name, "authorization") || str_eq(name, "cookie") || str_eq(name, "modrinth-admin")
        || str_eq(name, "user-agent") || str_eq(name, "cf-connecting-ip") || str_eq(name, "cf-ipcountry")
        || str_eq(name, "x-forwarded-for") || str_eq(name, "x-real-ip") || str_eq(name, "x-vercel-ip-city")
        || str_eq(name, "x-vercel-ip-timezone") || str_eq(name, "x-vercel-ip-longitude")
        || str_eq(name, "x-vercel-proxy-signature") || str_eq(name, "x-vercel-ip-country-region")
        || str_eq(name, "x-vercel-forwarded-for") || str_eq(name, "x-vercel-proxied-for")
        || str_eq(name, "x-vercel-proxy-signature-ts") || str_eq(name, "x-vercel-ip-latitude")
        || str_eq(name, "x-vercel-ip-country"))
}

/// The headers that may be stored, matching lower-cased names.
pub fn filter_headers_lowered(hs: &Vec<(String, String)>) -> (r: Vec<(String, String)>)
    ensures
        r@ == unfiltered_lowered(hs@),
{
    let mut out: Vec<(String, String)> = Vec::new();
    let mut i: usize = 0;
    while i < hs.len()
        invariant
            i <= hs@.len(),
            out@ == unfiltered_lowered(hs@.take(i as int)),
        decreases hs@.len() - i,
    {
        assert(hs@.take(i + 1).drop_last() =~= hs@.take(i as int));
        let lowered = lowercase(hs[i].0.as_str());
        if is_kept_header(lowered.as_str()) {
            out.push((hs[i].0.clone(), hs[i].1.clone()));
        }
        i = i + 1;
    }
    assert(hs@.take(hs@.len() as int) =~= hs@);
    out
}

/// The value of the first header named `name`.
pub fn find_header(hs: &Vec<(String, String)>, name: &str) -> (r: Option<String>)
    ensures
        opt_view(r) == header_value(hs@, name@),
{
    let mut i: usize = 0;
    assert(hs@.subrange(0, hs@.len() as int) =~= hs@);
    while i < hs.len()
        invariant
            i <= hs@.len(),
            header_value(hs@, name@) == header_value(hs@.subrange(i as int, hs@.len() as int), name@),
        decreases hs@.len() - i,
    {
        let ghost rest = hs@.subrange(i as int, hs@.len() as int);
        assert(rest[0] == hs@[i as int]);
        if str_eq(hs[i].0.as_str(), name) {
            return Some(hs[i].1.clone());
        }
        assert(rest.drop_first() =~= hs@.subrange(i + 1, hs@.len() as int));
        i = i + 1;
    }
    None
}

/// The value of the first header named `name`, or the empty string.
pub fn header_or_default(hs: &Vec<(String, String)>, name: &str) -> (r: String)
    ensures
        r@ == header_or_empty(hs@, name@),
{
    match find_header(hs, name) {
        Some(v) => v,
        None => String::new(),
    }
}

/// The IPv6 form of an address: IPv4 as an IPv4-mapped address.
pub open spec fn ipv6_of(addr: ClientAddr) -> Seq<u16> {
    match addr {
        ClientAddr::V4(o) => seq![
            0u16,
            0u16,
            0u16,
            0u16,
            0u16,
            0xffffu16,
            (o@[0] as int * 256 + o@[1] as int) as u16,
            (o@[2] as int * 256 + o@[3] as int) as u16,
        ],
        ClientAddr::V6(g) => g@,
    }
}

/// The address a request is recorded under: an unparsable one as loopback.
pub fn to_ipv6(addr: Option<ClientAddr>) -> (r: [u16; 8])
    ensures
        r@ == ipv6_of(effective_addr(addr)),
{
    match addr {
        Some(ClientAddr::V6(g)) => g,
        Some(ClientAddr::V4(o)) => {
            let hi = o[0] as u16 * 256 + o[1] as u16;
            let lo = o[2] as u16 * 256 + o[3] as u16;
            let r = [0u16, 0u16, 0u16, 0u16, 0u16, 0xffffu16, hi, lo];
            assert(r@ =~= ipv6_of(effective_addr(addr)));
            r
        },
        None => {
            let r = [0u16, 0u16, 0u16, 0u16, 0u16, 0xffffu16, 0x7f00u16, 1u16];
            assert(r@ =~= ipv6_of(effective_addr(addr)));
            r
        },
    }
}

/// Whether a page view may be counted for this host.
pub open spec fn view_domain_allowed(domain: Seq<char>, origins: Seq<String>) -> bool {
    has_suffix(domain, ".modrinth.com"@) || domain == "modrinth.com"@ || exists|i: int|
        0 <= i < origins.len() && (#[trigger] origins[i])@ == "*"@
}

/// Whether the allowed origins admit any origin.
pub fn allows_any_origin(origins: &Vec<String>) -> (r: bool)
    ensures
        r == exists|i: int| 0 <= i < origins@.len() && (#[trigger] origins@[i])@ == "*"@,
{
    let mut i: usize = 0;
    while i < origins.len()
        invariant
            i <= origins@.len(),
            forall|j: int| 0 <= j < i ==> (#[trigger] origins@[j])@ != "*"@,
        decreases origins@.len() - i,
    {
        if str_eq(origins[i].as_str(), "*") {
            return true;
        }
        i = i + 1;
    }
    false
}

/// Whether a page view may be counted for this host.
pub fn domain_allowed(domain: &str, origins: &Vec<String>) -> (r: bool)
    ensures
        r == view_domain_allowed(domain@, origins@),
{
    ends_with(domain, ".modrinth.com") || str_eq(domain, "modrinth.com") || allows_any_origin(origins)
}

/// What a parsed URL offers: its host, if any, and its path.
pub uninterp spec fn url_parts(s: Seq<char>) -> Option<(Option<Seq<char>>, Seq<char>)>;

/// Relies on `url::Url::parse`, with `host_str` and `path` of the result.
#[verifier::external_body]
fn parse_url(s: &str) -> (r: Option<(Option<String>, String)>)
    ensures
        r is Some <==> url_parts(s@) is Some,
        r matches Some(p) ==> url_parts(s@) == Some((opt_view(p.0), p.1@)),
{
    match url::Url::parse(s) {
        Ok(u) => Some((u.host_str().map(|h| h.to_string()), u.path().to_string())),
        Err(_) => None,
    }
}

/// The view of parsed URL parts.
pub open spec fn parts_view(p: Option<(Option<String>, String)>) -> Option<(Option<Seq<char>>, Seq<char>)> {
    match p {
        Some(q) => Some((opt_view(q.0), q.1@)),
        None => None,
    }
}

/// Where a page view goes, given the parts of its URL: `(domain, path)`, or why it is refused.
pub open spec fn view_target_of(parts: Option<(Option<Seq<char>>, Seq<char>)>, origins: Seq<String>) -> Option<(Seq<char>, Seq<char>)> {
    match parts {
        Some((Some(host), path)) => if view_domain_allowed(host, origins) {
            Some((host, path))
        } else {
            None
        },
        _ => None,
    }
}

/// The domain and path of a page view, given the parsed parts of its URL; a URL without
/// a host, or on a host that is not allowed, is refused.
pub fn view_target_from_parts(parts: Option<(Option<String>, String)>, origins: &Vec<String>) -> (r: Result<(String, String), ApiError>)
    ensures
        r matches Ok(t) ==> view_target_of(parts_view(parts), origins@) == Some((t.0@, t.1@)),
        r matches Err(e) ==> view_target_of(parts_view(parts), origins@) is None
            && e == ApiError::InvalidInput(e->InvalidInput_0) && e->InvalidInput_0@ == "invalid page view URL specified!"@,
{
    match parts {
        Some((Some(host), path)) => {
            if domain_allowed(host.as_str(), origins) {
                Ok((host, path))
            } else {
                Err(ApiError::InvalidInput(String::from_str("invalid page view URL specified!")))
            }
        },
        _ => Err(ApiError::InvalidInput(String::from_str("invalid page view URL specified!"))),
    }
}

/// The domain and path of a page view URL, or why it is refused.
pub fn view_target(url: &str, origins: &Vec<String>) -> (r: Result<(String, String), ApiError>)
    ensures
        r matches Ok(t) ==> view_target_of(url_parts(url@), origins@) == Some((t.0@, t.1@)),
        r matches Err(e) ==> view_target_of(url_parts(url@), origins@) is None
            && e->InvalidInput_0@ == "invalid page view URL specified!"@,
{
    let parts = parse_url(url);
    view_target_from_parts(parts, origins)
}


/// The first `/` at or after index `i`, or the length of `p`.
pub open spec fn slash_from(p: Seq<char>, i: int) -> int
    decreases p.len() - i,
{
    if i >= p.len() {
        p.len() as int
    } else if p[i] == '/' {
        i
    } else {
        slash_from(p, i + 1)
    }
}

/// The kinds of project pages whose second path segment names a project.
pub open spec fn is_project_type(s: Seq<char>) -> bool {
    s == "mod"@ || s == "modpack"@ || s == "plugin"@ || s == "resourcepack"@ || s == "shader"@
        || s == "datapack"@
}

/// The project named by a page path `/<type>/<slug>/...`, where there are at least two
/// segments and the first is a project type.
pub open spec fn project_slug_of(path: Seq<char>) -> Option<Seq<char>> {
    if path.len() > 0 && path[0] == '/' {
        let j = slash_from(path, 1);
        if j < path.len() && is_project_type(path.subrange(1, j)) {
            Some(path.subrange(j + 1, slash_from(path, j + 1)))
        } else {
            None
        }
    } else {
        None
    }
}

fn find_slash(v: &Vec<char>, start: usize) -> (r: usize)
    requires
        start <= v@.len(),
    ensures
        r == slash_from(v@, start as int),
        start <= r <= v@.len(),
{
    let mut i = start;
    while i < v.len()
        invariant
            start <= i <= v@.len(),
            slash_from(v@, start as int) == slash_from(v@, i as int),
        decreases v@.len() - i,
    {
        if v[i] == '/' {
            return i;
        }
        i = i + 1;
    }
    i
}

fn is_project_type_exec(v: &Vec<char>, from: usize, to: usize) -> (r: bool)
    requires
        from <= to <= v@.len(),
    ensures
        r == is_project_type(v@.subrange(from as int, to as int)),
{
    slice_eq(v, from, to, &chars_of("mod")) || slice_eq(v, from, to, &chars_of("modpack"))
        || slice_eq(v, from, to, &chars_of("plugin")) || slice_eq(v, from, to, &chars_of("resourcepack"))
        || slice_eq(v, from, to, &chars_of("shader")) || slice_eq(v, from, to, &chars_of("datapack"))
}

/// The project named by a page path, whose id is then looked up.
pub fn project_slug(path: &str) -> (r: Option<String>)
    ensures
        opt_view(r) == project_slug_of(path@),
{
    let v = chars_of(path);
    if v.len() == 0 || v[0] != '/' {
        return None;
    }
    let j = find_slash(&v, 1);
    if j >= v.len() || !is_project_type_exec(&v, 1, j) {
        return None;
    }
    let k = find_slash(&v, j + 1);
    Some(string_of(&v, j + 1, k))
}

/// The project id of a page: the base62 id the lookup returned, or zero where the
/// lookup gave nothing or an id that does not decode.
pub fn resolve_project_id(checked_id: Option<&str>) -> (r: u64)
    ensures
        r == match checked_id {
            Some(s) => match decode(s@) {
                Ok(v) => v,
                Err(_) => 0,
            },
            None => 0,
        },
{
    match checked_id {
        Some(s) => match parse_base62(s) {
            Ok(v) => v,
            Err(_) => 0,
        },
        None => 0,
    }
}

/// The headers of a page view: those in the body where the platform's server sent
/// them, else those of the request.
pub fn select_headers(
    from_server: bool,
    body_headers: Option<Vec<(String, String)>>,
    request_headers: Vec<(String, String)>,
) -> (r: Vec<(String, String)>)
    ensures
        r@ == match body_headers {
            Some(h) if from_server => h@,
            _ => request_headers@,
        },
{
    match body_headers {
        Some(h) if from_server => h,
        _ => request_headers,
    }
}

/// Which text names the client of a page view.
pub open spec fn client_ip_text_of(
    from_server: bool,
    body_ip: Option<Seq<char>>,
    headers: Seq<(String, String)>,
    peer: Option<Seq<char>>,
) -> Seq<char> {
    if from_server && body_ip is Some {
        body_ip->Some_0
    } else if header_value(headers, "cf-connecting-ip"@) is Some {
        header_value(headers, "cf-connecting-ip"@)->Some_0
    } else {
        match peer {
            Some(p) => p,
            None => seq![],
        }
    }
}

/// The text that names the client: the body's `ip` from the platform's server, else
/// the proxy's `cf-connecting-ip` header, else the peer address.
pub fn client_ip_text(
    from_server: bool,
    body_ip: Option<String>,
    headers: &Vec<(String, String)>,
    peer: Option<String>,
) -> (r: String)
    ensures
        r@ == client_ip_text_of(from_server, opt_view(body_ip), headers@, opt_view(peer)),
{
    if from_server && body_ip.is_some() {
        return body_ip.unwrap();
    }
    match find_header(headers, "cf-connecting-ip") {
        Some(h) => h,
        None => match peer {
            Some(p) => p,
            None => String::new(),
        },
    }
}

/// The record of a page view, before its project is resolved.
pub fn page_view_record(
    domain: String,
    site_path: String,
    from_server: bool,
    id: u128,
    recorded: i64,
    ip: [u16; 8],
    country: String,
    headers: &Vec<(String, String)>,
) -> (r: PageView)
    ensures
        r.id == id,
        r.recorded == recorded,
        r.domain == domain,
        r.site_path == site_path,
        r.from_server == from_server,
        r.user_id == 0,
        r.project_id == 0,
        r.ip == ip,
        r.country == country,
        r.user_agent@ == header_or_empty(headers@, "user-agent"@),
        r.headers@ == unfiltered_lowered(headers@),
{
    PageView {
        id,
        recorded,
        domain,
        site_path,
        from_server,
        user_id: 0,
        project_id: 0,
        ip,
        country,
        user_agent: header_or_default(headers, "user-agent"),
        headers: filter_headers_lowered(headers),
    }
}

/// The record of a download, given the parsed parts of its URL.
pub fn download_from_parts(
    parts: Option<(Option<String>, String)>,
    input: &DownloadInput,
    id: u128,
    recorded: i64,
    ip: [u16; 8],
    country: String,
) -> (r: Result<Download, ApiError>)
    ensures
        r is Ok <==> (parts is Some && decode(input.project_id@) is Ok && decode(input.version_id@) is Ok),
        parts is None ==> (r matches Err(ApiError::InvalidInput(m)) && m@ == "invalid download URL specified!"@),
        parts is Some && decode(input.project_id@) is Err ==> (r matches Err(ApiError::InvalidInput(m))
            && m@ == "invalid project ID in download URL!"@),
        parts is Some && decode(input.project_id@) is Ok && decode(input.version_id@) is Err ==> (r matches Err(
            ApiError::InvalidInput(m),
        ) && m@ == "invalid version ID in download URL!"@),
        r matches Ok(d) ==> {
            &&& d.id == id
            &&& d.recorded == recorded
            &&& d.domain@ == match parts->Some_0.0 {
                Some(h) => h@,
                None => Seq::<char>::empty(),
            }
            &&& d.site_path@ == parts->Some_0.1@
            &&& d.user_id == 0
            &&& d.project_id == decode(input.project_id@)->Ok_0
            &&& d.version_id == decode(input.version_id@)->Ok_0
            &&& d.ip == ip
            &&& d.country == country
            &&& d.user_agent@ == header_or_empty(input.headers@, "user-agent"@)
            &&& d.headers@ == unfiltered_lowered(input.headers@)
        },
{
    let (host, path) = match parts {
        Some(p) => p,
        None => {
            return Err(ApiError::InvalidInput(String::from_str("invalid download URL specified!")));
        },
    };
    let project_id = match parse_base62(input.project_id.as_str()) {
        Ok(v) => v,
        Err(_) => {
            return Err(ApiError::InvalidInput(String::from_str("invalid project ID in download URL!")));
        },
    };
    let version_id = match parse_base62(input.version_id.as_str()) {
        Ok(v) => v,
        Err(_) => {
            return Err(ApiError::InvalidInput(String::from_str("invalid version ID in download URL!")));
        },
    };
    let domain = match host {
        Some(h) => h,
        None => String::new(),
    };
    Ok(Download {
        id,
        recorded,
        domain,
        site_path: path,
        user_id: 0,
        project_id,
        version_id,
        ip,
        country,
        user_agent: header_or_default(&input.headers, "user-agent"),
        headers: filter_headers_lowered(&input.headers),
    })
}

/// The record of a download: its URL must parse and both ids must be base62.
pub fn download_record(input: &DownloadInput, id: u128, recorded: i64, ip: [u16; 8], country: String) -> (r: Result<Download, ApiError>)
    ensures
        r is Ok <==> (url_parts(input.url@) is Some && decode(input.project_id@) is Ok && decode(input.version_id@) is Ok),
        url_parts(input.url@) is None ==> (r matches Err(ApiError::InvalidInput(m)) && m@ == "invalid download URL specified!"@),
        url_parts(input.url@) is Some && decode(input.project_id@) is Err ==> (r matches Err(ApiError::InvalidInput(m))
            && m@ == "invalid project ID in download URL!"@),
        url_parts(input.url@) is Some && decode(input.project_id@) is Ok && decode(input.version_id@) is Err ==> (r matches Err(
            ApiError::InvalidInput(m),
        ) && m@ == "invalid version ID in download URL!"@),
        r matches Ok(d) ==> {
            &&& d.id == id
            &&& d.recorded == recorded
            &&& d.domain@ == match url_parts(input.url@)->Some_0.0 {
                Some(h) => h,
                None => Seq::<char>::empty(),
            }
            &&& d.site_path@ == url_parts(input.url@)->Some_0.1
            &&& d.user_id == 0
            &&& d.project_id == decode(input.project_id@)->Ok_0
            &&& d.version_id == decode(input.version_id@)->Ok_0
            &&& d.ip == ip
            &&& d.country == country
            &&& d.user_agent@ == header_or_empty(input.headers@, "user-agent"@)
            &&& d.headers@ == unfiltered_lowered(input.headers@)
        },
{
    let parts = parse_url(input.url.as_str());
    download_from_parts(parts, input, id, recorded, ip, country)
}

/// Accepts a reported revenue (in millionths) up to the per-request cap.
pub fn validate_revenue(micros: u64) -> (r: Result<u64, ApiError>)
    ensures
        r is Ok <==> micros <= MAX_REVENUE_MICROS,
        r matches Ok(v) ==> v == micros,
        r matches Err(e) ==> e matches ApiError::InvalidInput(m) && m@ == "revenue exceeds the per-request cap!"@,
{
    if micros > MAX_REVENUE_MICROS {
        Err(ApiError::InvalidInput(String::from_str("revenue exceeds the per-request cap!")))
    } else {
        Ok(micros)
    }
}


/// Counts a page view unless the limiter refuses it: views from the platform's own
/// server skip the limiter. A refused view leaves the buffer as it was; says whether
/// the view was counted.
pub fn count_view(
    limiter: &mut RateLimitQueue,
    queue: &mut AnalyticsQueue,
    from_server: bool,
    ip: Option<ClientAddr>,
    project_id: u64,
    site_path: String,
) -> (r: bool)
    ensures
        r == (from_server || admits(old(limiter).entries(), rate_key(ip, old(limiter).pepper(), site_path@))),
        final(limiter).entries() == if from_server {
            old(limiter).entries()
        } else {
            observe(old(limiter).entries(), rate_key(ip, old(limiter).pepper(), site_path@))
        },
        final(limiter).pepper() == old(limiter).pepper(),
        final(queue).views() == if r {
            bump(old(queue).views(), (project_id, site_path@))
        } else {
            old(queue).views()
        },
        final(queue).downloads() == old(queue).downloads(),
        final(queue).revenue() == old(queue).revenue(),
{
    let admitted = from_server || limiter.add(ip, site_path.clone());
    if admitted {
        queue.add_view(project_id, site_path);
    }
    admitted
}


/// Records a page view unless the limiter refuses it: views from the platform's own
/// server skip the limiter. A refused view leaves the buffer as it was; says whether
/// the view was recorded.
pub fn record_view(
    limiter: &mut RateLimitQueue,
    queue: &mut RawQueue,
    ip: Option<ClientAddr>,
    view: PageView,
) -> (r: bool)
    ensures
        r == (view.from_server || admits(old(limiter).entries(), rate_key(ip, old(limiter).pepper(), view.site_path@))),
        final(limiter).entries() == if view.from_server {
            old(limiter).entries()
        } else {
            observe(old(limiter).entries(), rate_key(ip, old(limiter).pepper(), view.site_path@))
        },
        final(limiter).pepper() == old(limiter).pepper(),
        final(queue).views() == if r && !old(queue).views().contains_key(view.id) {
            old(queue).views().insert(view.id, view)
        } else {
            old(queue).views()
        },
        final(queue).downloads() == old(queue).downloads(),
{
    let admitted = view.from_server || limiter.add(ip, view.site_path.clone());
    if admitted {
        queue.add_view(view);
    }
    admitted
}

} // verus!
