use scheme_redirect::data::{default_duration, StrictTransportSecurity};
use scheme_redirect::middleware::apply_hsts;
use scheme_redirect::response::Response;

fn count_header(res: &Response, name: &str) -> usize {
    res.headers.iter().filter(|h| h.name == name).count()
}

fn header_value_of(res: &Response, name: &str) -> Option<String> {
    res.headers.iter().find(|h| h.name == name).map(|h| h.value.clone())
}

#[test]
fn hsts_value_plain() {
    let h = StrictTransportSecurity { duration: 300, include_subdomains: false, preload: false };
    assert_eq!(h.header_value(), "max-age=300");
}

#[test]
fn hsts_value_all_directives() {
    let h = StrictTransportSecurity { duration: 600, include_subdomains: true, preload: true };
    assert_eq!(h.header_value(), "max-age=600; includeSubDomains; preload");
}

#[test]
fn hsts_value_subdomains_only() {
    let h = StrictTransportSecurity { duration: 1, include_subdomains: true, preload: false };
    assert_eq!(h.header_value(), "max-age=1; includeSubDomains");
}

#[test]
fn hsts_value_preload_only() {
    let h = StrictTransportSecurity { duration: 0, include_subdomains: false, preload: true };
    assert_eq!(h.header_value(), "max-age=0; preload");
}

#[test]
fn hsts_value_large_duration() {
    let h = StrictTransportSecurity {
        duration: 31536000,
        include_subdomains: false,
        preload: false,
    };
    assert_eq!(h.header_value(), "max-age=31536000");
}

#[test]
fn hsts_defaults() {
    let h = StrictTransportSecurity::default();
    assert_eq!(h.duration, 300);
    assert!(!h.include_subdomains);
    assert!(!h.preload);
    assert_eq!(default_duration(), 300);
}

#[test]
fn set_header_appends_when_absent() {
    let mut res = Response::new(200);
    res.set_header(String::from("x-test"), String::from("a"));
    assert_eq!(res.headers.len(), 1);
    assert_eq!(header_value_of(&res, "x-test").unwrap(), "a");
}

#[test]
fn set_header_twice_keeps_single_later_value() {
    let mut res = Response::new(200);
    res.set_header(String::from("x-test"), String::from("a"));
    res.set_header(String::from("x-test"), String::from("b"));
    assert_eq!(count_header(&res, "x-test"), 1);
    assert_eq!(header_value_of(&res, "x-test").unwrap(), "b");
}

#[test]
fn insert_into_twice_single_occurrence_later_value() {
    let mut res = Response::new(200);
    let first = StrictTransportSecurity { duration: 100, include_subdomains: false, preload: false };
    let second = StrictTransportSecurity { duration: 900, include_subdomains: true, preload: false };
    first.insert_into(&mut res);
    second.insert_into(&mut res);
    assert_eq!(count_header(&res, "strict-transport-security"), 1);
    assert_eq!(
        header_value_of(&res, "strict-transport-security").unwrap(),
        "max-age=900; includeSubDomains"
    );
}

#[test]
fn insert_into_overwrites_what_next_set() {
    let mut res = Response::new(200);
    res.set_header(
        String::from("strict-transport-security"),
        String::from("max-age=1"),
    );
    res.set_header(String::from("content-type"), String::from("text/plain"));
    let h = StrictTransportSecurity { duration: 300, include_subdomains: false, preload: false };
    h.insert_into(&mut res);
    assert_eq!(count_header(&res, "strict-transport-security"), 1);
    assert_eq!(
        header_value_of(&res, "strict-transport-security").unwrap(),
        "max-age=300"
    );
    // Other headers stay in place.
    assert_eq!(header_value_of(&res, "content-type").unwrap(), "text/plain");
    assert_eq!(res.headers.len(), 2);
}

#[test]
fn apply_hsts_none_leaves_response_alone() {
    let mut res = Response::new(200);
    res.set_header(String::from("content-type"), String::from("text/plain"));
    apply_hsts(&mut res, None);
    assert_eq!(count_header(&res, "strict-transport-security"), 0);
    assert_eq!(res.headers.len(), 1);
    assert_eq!(res.status, 200);
}

#[test]
fn apply_hsts_some_inserts_header() {
    let mut res = Response::new(200);
    let h = StrictTransportSecurity { duration: 300, include_subdomains: false, preload: false };
    apply_hsts(&mut res, Some(h));
    assert_eq!(count_header(&res, "strict-transport-security"), 1);
    assert_eq!(
        header_value_of(&res, "strict-transport-security").unwrap(),
        "max-age=300"
    );
}
