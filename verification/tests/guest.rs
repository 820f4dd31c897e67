use runtime_factors::guest::{route, GuestRoute};

#[test]
fn root_is_greeted() {
    let r = route("/");
    assert_eq!(r, GuestRoute::Root);
    assert_eq!(r.status(), 200);
    assert_eq!(r.body(), "response");
    assert_eq!(r.greeting(), Some("Hello! - from root HTTP handler"));
}

#[test]
fn other_paths_are_not_found() {
    for path in ["/index.html", "/?q=1", "", "//", "/ ", "x"] {
        let r = route(path);
        assert_eq!(r, GuestRoute::NotFound, "{path}");
        assert_eq!(r.status(), 404);
        assert_eq!(r.body(), "");
        assert_eq!(r.greeting(), None);
    }
}
