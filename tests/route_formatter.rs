use actix_web_opentelemetry::{PassThroughFormatter, RouteFormatter, UuidWildcardFormatter};

#[test]
fn uuid_is_replaced_by_a_wildcard() {
    let f = UuidWildcardFormatter::new();
    assert_eq!(f.format("/users/4f5accfe-45d2-43b1-bf10-fdad708732a8"), "/users/*");
    assert_eq!(
        f.format("/a/4F5ACCFE-45D2-43B1-BF10-FDAD708732A8/b/4f5accfe-45d2-43b1-bf10-fdad708732a8"),
        "/a/*/b/*"
    );
    assert_eq!(f.format("/users/123"), "/users/123");
    assert_eq!(f.format(""), "");
}

#[test]
fn uuid_formatting_is_idempotent() {
    let f = UuidWildcardFormatter::new();
    let once = f.format("/users/123e4567-e89b-12d3-a456-426614174000");
    assert_eq!(once, "/users/*");
    assert_eq!(f.format(&once), "/users/*");
}

#[test]
fn adjacent_uuids_are_replaced_from_the_left() {
    let f = UuidWildcardFormatter::new();
    let two = "123e4567-e89b-12d3-a456-426614174000123e4567-e89b-12d3-a456-426614174000";
    assert_eq!(f.format(two), "**");
    let shifted = "x123e4567-e89b-12d3-a456-4266141740000";
    assert_eq!(f.format(shifted), "x*0");
}

#[test]
fn pass_through_keeps_the_path() {
    let f = PassThroughFormatter::new();
    assert_eq!(f.format("/users/{id}"), "/users/{id}");
}
