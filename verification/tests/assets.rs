use sidecar_launch::assets::has_index_html;
use sidecar_launch::assets::resolve_web_assets;
use sidecar_launch::assets::search_marker;
use sidecar_launch::assets::AssetCandidate;
use sidecar_launch::assets::AssetDir;

fn candidate(path: &str, has_marker: bool) -> AssetCandidate {
    AssetCandidate { path: path.to_string(), has_marker }
}

fn dir(path: &str, has_marker: bool, subdirs: Vec<usize>) -> AssetDir {
    AssetDir { path: path.to_string(), has_marker, subdirs }
}

#[test]
fn third_candidate_with_marker_wins() {
    let candidates = vec![
        candidate("/res", false),
        candidate("/res/web-dist", false),
        candidate("/res/dist", true),
        candidate("/res/web/dist", true),
    ];
    let tree: Vec<AssetDir> = Vec::new();
    let r = resolve_web_assets(&candidates, &tree, None, "/workspace/web/dist".to_string());
    assert_eq!(r.as_str(), "/res/dist");
}

#[test]
fn no_marker_anywhere_returns_last_resort_unconditionally() {
    let candidates = vec![candidate("/res", false), candidate("/res/dist", false)];
    let tree = vec![dir("/res", false, vec![1]), dir("/res/sub", false, vec![])];
    let r = resolve_web_assets(&candidates, &tree, Some(0), "/workspace/web/dist".to_string());
    assert_eq!(r.as_str(), "/workspace/web/dist");
}

#[test]
fn nested_marker_found_below_resource_root() {
    let candidates = vec![candidate("/res", false)];
    let tree = vec![
        dir("/res", false, vec![1, 2]),
        dir("/res/a", false, vec![]),
        dir("/res/b", false, vec![3]),
        dir("/res/b/dist", true, vec![]),
    ];
    let r = resolve_web_assets(&candidates, &tree, Some(0), "/workspace/web/dist".to_string());
    assert_eq!(r.as_str(), "/res/b/dist");
}

#[test]
fn search_respects_depth_bound() {
    // A chain six levels deep: the marker sits at depth 6, one past the bound.
    let tree = vec![
        dir("/d0", false, vec![1]),
        dir("/d1", false, vec![2]),
        dir("/d2", false, vec![3]),
        dir("/d3", false, vec![4]),
        dir("/d4", false, vec![5]),
        dir("/d5", false, vec![6]),
        dir("/d6", true, vec![]),
    ];
    assert!(search_marker(&tree, 0, 5).is_none());
    assert_eq!(search_marker(&tree, 0, 6), Some(6));
    assert_eq!(search_marker(&tree, 1, 5), Some(6));
}

#[test]
fn marked_root_is_found_directly() {
    let tree = vec![dir("/res", true, vec![])];
    assert_eq!(search_marker(&tree, 0, 0), Some(0));
}

#[test]
fn missing_directory_has_no_marker() {
    assert!(!has_index_html("/no/such/directory/for-this-launcher"));
}
