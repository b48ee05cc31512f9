use png_edge::method::Method;
use png_edge::router::{route, Route, PREFLIGHT_PATH, UPLOAD_PATH, VERSION_PATH};

const METHODS: [Method; 10] = [
    Method::Head,
    Method::Get,
    Method::Post,
    Method::Put,
    Method::Patch,
    Method::Delete,
    Method::Options,
    Method::Connect,
    Method::Trace,
    Method::Report,
];

#[test]
fn the_three_routes() {
    assert_eq!(route(Method::Post, "/form"), Route::Upload);
    assert_eq!(route(Method::Options, "/"), Route::Preflight);
    assert_eq!(route(Method::Get, "/worker-version"), Route::Version);
}

#[test]
fn route_paths() {
    assert_eq!(UPLOAD_PATH, "/form");
    assert_eq!(PREFLIGHT_PATH, "/");
    assert_eq!(VERSION_PATH, "/worker-version");
}

#[test]
fn other_methods_on_a_known_path_find_nothing() {
    for method in METHODS {
        if method != Method::Post {
            assert_eq!(route(method, "/form"), Route::NotFound);
        }
        if method != Method::Options {
            assert_eq!(route(method, "/"), Route::NotFound);
        }
        if method != Method::Get {
            assert_eq!(route(method, "/worker-version"), Route::NotFound);
        }
    }
}

#[test]
fn paths_match_exactly() {
    for path in ["", "/form/", "/Form", "/FORM", "form", "/form?x=1", "/forms", "/for", "//form", "/form "] {
        assert_eq!(route(Method::Post, path), Route::NotFound, "{:?}", path);
    }
    for path in ["", "//", "/ ", "*", "/index.html"] {
        assert_eq!(route(Method::Options, path), Route::NotFound, "{:?}", path);
    }
    for path in ["/worker-version/", "/worker_version", "/version", "worker-version"] {
        assert_eq!(route(Method::Get, path), Route::NotFound, "{:?}", path);
    }
}

#[test]
fn unknown_paths_find_nothing() {
    for method in METHODS {
        assert_eq!(route(method, "/nothing-here"), Route::NotFound);
    }
}
