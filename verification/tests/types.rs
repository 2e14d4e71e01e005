use smolhttp::types::{Header, Method, Request, Response, StatusCode};

#[test]
fn status_code_boundaries() {
    assert!(StatusCode::new(99).is_none());
    assert!(StatusCode::new(600).is_none());
    assert!(StatusCode::new(100).is_some());
    assert!(StatusCode::new(599).is_some());
}

#[test]
fn status_code_rejects_far_out_of_range() {
    assert!(StatusCode::new(0).is_none());
    assert!(StatusCode::new(1).is_none());
    assert!(StatusCode::new(1000).is_none());
    assert!(StatusCode::new(u16::MAX).is_none());
}

#[test]
fn status_code_accepts_whole_range() {
    for code in 100..600u16 {
        assert!(StatusCode::new(code).is_some());
    }
    for code in 0..100u16 {
        assert!(StatusCode::new(code).is_none());
    }
    for code in 600..700u16 {
        assert!(StatusCode::new(code).is_none());
    }
}

#[test]
fn status_code_round_trip() {
    for code in [100u16, 200, 301, 404, 418, 599] {
        let sc = StatusCode::new(code).unwrap();
        let raw = u16::from(sc.clone());
        assert_eq!(raw, code);
        let again = StatusCode::new(raw).unwrap();
        assert_eq!(again, sc);
    }
}

#[test]
fn status_code_code_matches_from() {
    let sc = StatusCode::new(503).unwrap();
    assert_eq!(sc.code(), 503);
    assert_eq!(u16::from(sc), 503);
}

#[test]
fn status_code_default_is_placeholder() {
    let sc = StatusCode::default();
    assert_eq!(sc.code(), 0);
    assert!(StatusCode::new(sc.code()).is_none());
}

#[test]
fn method_from_string() {
    let m = Method::from(String::from("GET"));
    assert_eq!(m.as_str(), "GET");
    assert_eq!(m, Method(String::from("GET")));
}

#[test]
fn method_is_case_sensitive() {
    assert_ne!(Method(String::from("get")), Method(String::from("GET")));
}

#[test]
fn method_default_is_empty() {
    assert_eq!(Method::default().as_str(), "");
}

#[test]
fn header_renders_name_colon_space_value() {
    let h = Header {
        name: String::from("Host"),
        value: String::from("example.com"),
    };
    assert_eq!(h.render(), "Host: example.com");
}

#[test]
fn header_render_does_not_escape() {
    let h = Header {
        name: String::from("X-Odd"),
        value: String::from("a\r\nb"),
    };
    assert_eq!(h.render(), "X-Odd: a\r\nb");
}

#[test]
fn entity_defaults_are_field_wise() {
    let req = Request::default();
    assert_eq!(req.method, Method::default());
    assert_eq!(req.request_target, "");
    assert!(req.headers.is_empty());

    let resp = Response::default();
    assert_eq!(resp.status_code, StatusCode::default());
    assert_eq!(resp.reason_phrase, "");
    assert!(resp.headers.is_empty());
}

#[test]
fn entities_compare_and_order_structurally() {
    let a = Header {
        name: String::from("A"),
        value: String::from("1"),
    };
    let b = Header {
        name: String::from("B"),
        value: String::from("1"),
    };
    assert!(a < b);
    assert_eq!(a.clone(), a);
    assert!(StatusCode::new(200).unwrap() < StatusCode::new(201).unwrap());
    assert!(Method(String::from("GET")) < Method(String::from("PUT")));
}
