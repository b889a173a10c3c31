use ariadne::error::ApiError;
use ariadne::ingest::{
    client_ip_text, domain_allowed, download_from_parts, download_record, filter_headers_lowered, find_header, is_kept_header, page_view_record, project_slug,
    resolve_project_id, select_headers, to_ipv6, validate_revenue, view_target,
    view_target_from_parts, DownloadInput,
};
use ariadne::ratelimit::ClientAddr;

fn h(k: &str, v: &str) -> (String, String) {
    (k.to_string(), v.to_string())
}

#[test]
fn revenue_cap_is_inclusive() {
    assert_eq!(validate_revenue(5_000_000), Ok(5_000_000));
    assert_eq!(validate_revenue(0), Ok(0));
    assert!(matches!(validate_revenue(5_000_001), Err(ApiError::InvalidInput(_))));
    assert!(matches!(validate_revenue(u64::MAX), Err(ApiError::InvalidInput(_))));
}

#[test]
fn filtered_header_names() {
    assert!(!is_kept_header("authorization"));
    assert!(!is_kept_header("cookie"));
    assert!(!is_kept_header("x-vercel-ip-country"));
    assert!(!is_kept_header("user-agent"));
    assert!(is_kept_header("accept-language"));
    assert!(is_kept_header("Authorization"));
    assert!(is_kept_header("x-vercel-ip-countr"));
}

#[test]
fn view_headers_are_filtered_by_lower_case() {
    let hs = vec![h("accept", "*/*"), h("cookie", "a=b"), h("Cookie", "c=d"), h("AUTHORIZATION", "x"), h("referer", "r")];
    let v = page_view_record(
        "modrinth.com".to_string(),
        "/".to_string(),
        true,
        1,
        0,
        [0; 8],
        String::new(),
        &hs,
    );
    assert_eq!(v.headers, vec![h("accept", "*/*"), h("referer", "r")]);
}

#[test]
fn download_headers_are_filtered_by_lower_case() {
    let hs = vec![h("Accept", "*/*"), h("Authorization", "Bearer x"), h("X-Real-IP", "1.2.3.4"), h("DNT", "1")];
    assert_eq!(filter_headers_lowered(&hs), vec![h("Accept", "*/*"), h("DNT", "1")]);
}

#[test]
fn finds_first_header() {
    let hs = vec![h("a", "1"), h("user-agent", "ua"), h("user-agent", "other")];
    assert_eq!(find_header(&hs, "user-agent"), Some("ua".to_string()));
    assert_eq!(find_header(&hs, "missing"), None);
}

#[test]
fn allowed_view_domains() {
    let none: Vec<String> = vec![];
    assert!(domain_allowed("modrinth.com", &none));
    assert!(domain_allowed("staging.modrinth.com", &none));
    assert!(!domain_allowed("evilmodrinth.com", &none));
    assert!(!domain_allowed("example.org", &none));
    assert!(domain_allowed("example.org", &vec!["https://a.b".to_string(), "*".to_string()]));
    assert!(!domain_allowed("example.org", &vec!["https://a.b".to_string()]));
}

#[test]
fn view_targets() {
    let none: Vec<String> = vec![];
    assert_eq!(
        view_target("https://modrinth.com/mod/sodium", &none),
        Ok(("modrinth.com".to_string(), "/mod/sodium".to_string()))
    );
    assert_eq!(
        view_target("not a url", &none),
        Err(ApiError::InvalidInput("invalid page view URL specified!".to_string()))
    );
    assert_eq!(
        view_target("https://example.org/x", &none),
        Err(ApiError::InvalidInput("invalid page view URL specified!".to_string()))
    );
    assert_eq!(
        view_target("mailto:someone@modrinth.com", &none),
        Err(ApiError::InvalidInput("invalid page view URL specified!".to_string()))
    );
    assert_eq!(
        view_target_from_parts(Some((Some("a.modrinth.com".to_string()), "/p".to_string())), &none),
        Ok(("a.modrinth.com".to_string(), "/p".to_string()))
    );
    assert!(view_target_from_parts(Some((None, "/p".to_string())), &none).is_err());
    assert!(view_target_from_parts(None, &none).is_err());
}

#[test]
fn project_slugs() {
    assert_eq!(project_slug("/mod/sodium"), Some("sodium".to_string()));
    assert_eq!(project_slug("/modpack/fabulously-optimized/versions"), Some("fabulously-optimized".to_string()));
    assert_eq!(project_slug("/datapack/x/"), Some("x".to_string()));
    assert_eq!(project_slug("/mod/"), Some("".to_string()));
    assert_eq!(project_slug("/mod"), None);
    assert_eq!(project_slug("/user/someone"), None);
    assert_eq!(project_slug("/mods/sodium"), None);
    assert_eq!(project_slug(""), None);
    assert_eq!(project_slug("mod/sodium"), None);
}

#[test]
fn resolved_project_ids() {
    assert_eq!(resolve_project_id(Some("10")), 62);
    assert_eq!(resolve_project_id(Some("bad-id")), 0);
    assert_eq!(resolve_project_id(None), 0);
}

#[test]
fn ipv6_forms() {
    assert_eq!(to_ipv6(Some(ClientAddr::V4([127, 0, 0, 1]))), [0, 0, 0, 0, 0, 0xffff, 0x7f00, 1]);
    assert_eq!(to_ipv6(Some(ClientAddr::V4([192, 168, 1, 2]))), [0, 0, 0, 0, 0, 0xffff, 0xc0a8, 0x0102]);
    assert_eq!(to_ipv6(None), [0, 0, 0, 0, 0, 0xffff, 0x7f00, 1]);
    let g = [0x2001, 0xdb8, 1, 2, 3, 4, 5, 6];
    assert_eq!(to_ipv6(Some(ClientAddr::V6(g))), g);
}

#[test]
fn client_ip_choice() {
    let hs = vec![h("cf-connecting-ip", "1.1.1.1")];
    let empty: Vec<(String, String)> = vec![];
    assert_eq!(client_ip_text(true, Some("2.2.2.2".to_string()), &hs, Some("3.3.3.3".to_string())), "2.2.2.2");
    assert_eq!(client_ip_text(false, Some("2.2.2.2".to_string()), &hs, Some("3.3.3.3".to_string())), "1.1.1.1");
    assert_eq!(client_ip_text(true, None, &empty, Some("3.3.3.3".to_string())), "3.3.3.3");
    assert_eq!(client_ip_text(false, None, &empty, None), "");
}

#[test]
fn header_choice() {
    let body = vec![h("a", "1")];
    let req = vec![h("b", "2")];
    assert_eq!(select_headers(true, Some(body.clone()), req.clone()), body);
    assert_eq!(select_headers(false, Some(body.clone()), req.clone()), req);
    assert_eq!(select_headers(true, None, req.clone()), req);
}

#[test]
fn page_view_records() {
    let hs = vec![h("user-agent", "Firefox"), h("accept", "*/*"), h("x-real-ip", "9.9.9.9")];
    let v = page_view_record(
        "modrinth.com".to_string(),
        "/mod/foo".to_string(),
        false,
        7,
        1234,
        [0, 0, 0, 0, 0, 0xffff, 0x7f00, 1],
        "DE".to_string(),
        &hs,
    );
    assert_eq!(v.user_agent, "Firefox");
    assert_eq!(v.headers, vec![h("accept", "*/*")]);
    assert_eq!(v.project_id, 0);
    assert_eq!(v.user_id, 0);
    assert_eq!(v.country, "DE");
    assert_eq!(v.id, 7);
}

fn input(url: &str, pid: &str, vid: &str) -> DownloadInput {
    DownloadInput {
        ip: "1.2.3.4".to_string(),
        url: url.to_string(),
        project_id: pid.to_string(),
        version_id: vid.to_string(),
        headers: vec![h("User-Agent", "curl"), h("Cookie", "x"), h("Accept", "*/*")],
    }
}

#[test]
fn download_records() {
    let ip = [0, 0, 0, 0, 0, 0xffff, 0x0102, 0x0304];
    let d = download_record(&input("https://cdn.modrinth.com/data/AANobbMI/file.jar", "10", "zz"), 5, 99, ip, "US".to_string()).unwrap();
    assert_eq!(d.domain, "cdn.modrinth.com");
    assert_eq!(d.site_path, "/data/AANobbMI/file.jar");
    assert_eq!(d.project_id, 62);
    assert_eq!(d.version_id, 3843);
    assert_eq!(d.ip, ip);
    assert_eq!(d.user_agent, "");
    assert_eq!(d.headers, vec![h("Accept", "*/*")]);
    assert_eq!(d.recorded, 99);
}

#[test]
fn download_errors() {
    let ip = [0u16; 8];
    assert_eq!(
        download_record(&input("::nope", "10", "10"), 1, 1, ip, String::new()).err(),
        Some(ApiError::InvalidInput("invalid download URL specified!".to_string()))
    );
    assert_eq!(
        download_record(&input("https://a.b/c", "1-0", "10"), 1, 1, ip, String::new()).err(),
        Some(ApiError::InvalidInput("invalid project ID in download URL!".to_string()))
    );
    assert_eq!(
        download_record(&input("https://a.b/c", "10", "?"), 1, 1, ip, String::new()).err(),
        Some(ApiError::InvalidInput("invalid version ID in download URL!".to_string()))
    );
    let no_host = download_from_parts(Some((None, "/c".to_string())), &input("", "1", "2"), 1, 1, ip, String::new()).unwrap();
    assert_eq!(no_host.domain, "");
    assert_eq!(no_host.site_path, "/c");
}
