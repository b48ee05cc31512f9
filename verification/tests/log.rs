use png_edge::log::{log_line, UNKNOWN_COORDINATES, UNKNOWN_REGION};

#[test]
fn log_line_with_all_data() {
    assert_eq!(
        log_line("Wed Oct 28 2026 10:00:00 GMT", "/form", Some("(52.52, 13.4)"), Some("Berlin")),
        "Wed Oct 28 2026 10:00:00 GMT - [/form], located at: (52.52, 13.4), within: Berlin"
    );
}

#[test]
fn log_line_without_region() {
    assert_eq!(
        log_line("now", "/", Some("(1.5, -2.5)"), None),
        "now - [/], located at: (1.5, -2.5), within: unknown region"
    );
}

#[test]
fn log_line_without_any_geographic_data() {
    assert_eq!(
        log_line("now", "/worker-version", None, None),
        "now - [/worker-version], located at: (0.0, 0.0), within: unknown region"
    );
}

#[test]
fn log_line_without_coordinates() {
    assert_eq!(
        log_line("", "", None, Some("")),
        " - [], located at: (0.0, 0.0), within: "
    );
}

#[test]
fn unknown_coordinates_are_the_default_pair() {
    let origin: (f32, f32) = Default::default();
    assert_eq!(UNKNOWN_COORDINATES, format!("{:?}", origin));
    assert_eq!(UNKNOWN_REGION, "unknown region");
}
