use ace_router::ResourceRouter;
use ace_router::ResourceType;

#[test]
fn bundle_route_wins_for_project_paths() {
    let router = ResourceRouter::new();
    let m = router.lookup("/project/ui/index.html").unwrap();
    assert_eq!(m.0, ResourceType::Bundle);
    assert_eq!(m.1, "ui/index.html");
}

#[test]
fn bundle_route_wins_with_many_slashes() {
    let router = ResourceRouter::new();
    let m = router.lookup("/project/a/b/c/d.js").unwrap();
    assert_eq!(m.0, ResourceType::Bundle);
    assert_eq!(m.1, "a/b/c/d.js");
}

#[test]
fn bundle_route_matches_bare_prefix() {
    let router = ResourceRouter::new();
    let m = router.lookup("/project/").unwrap();
    assert_eq!(m.0, ResourceType::Bundle);
    assert_eq!(m.1, "");
}

#[test]
fn external_route_for_other_paths() {
    let router = ResourceRouter::new();
    let m = router.lookup("/app.js").unwrap();
    assert_eq!(m.0, ResourceType::External);
    assert_eq!(m.1, "app.js");
}

#[test]
fn external_route_for_project_without_trailing_slash() {
    let router = ResourceRouter::new();
    let m = router.lookup("/project").unwrap();
    assert_eq!(m.0, ResourceType::External);
    assert_eq!(m.1, "project");
}

#[test]
fn external_route_for_nested_external_path() {
    let router = ResourceRouter::new();
    let m = router.lookup("/assets/css/site.css").unwrap();
    assert_eq!(m.0, ResourceType::External);
    assert_eq!(m.1, "assets/css/site.css");
}

#[test]
fn external_route_for_path_without_leading_slash() {
    let router = ResourceRouter::new();
    let m = router.lookup("stray").unwrap();
    assert_eq!(m.0, ResourceType::External);
    assert_eq!(m.1, "stray");
}

#[test]
fn empty_path_matches_no_route() {
    let router = ResourceRouter::new();
    assert!(router.lookup("").is_none());
}
