use bevymmo::world::{
    first_repeat, validate, validate_manifest, validate_structure, PropCheck, ValidationIssue,
    CURRENT_VERSION, LEGACY_VERSION_1,
};

fn prop(id: &str, kind: &str) -> PropCheck {
    PropCheck {
        id: id.to_string(),
        kind: kind.to_string(),
        kind_known: true,
        placement_issues: vec![],
    }
}

fn messages(issues: &[ValidationIssue]) -> Vec<String> {
    issues.iter().map(|i| i.message.clone()).collect()
}

#[test]
fn empty_manifest_is_valid() {
    assert!(validate_structure(CURRENT_VERSION, "test_map", "Test Map", &vec![], &[]).is_empty());
}

#[test]
fn duplicate_prop_ids_are_rejected() {
    let props = [prop("prop_a", "tree_oak"), prop("prop_a", "rock_01")];
    let issues = validate_structure(CURRENT_VERSION, "test_map", "Test Map", &vec![], &props);
    assert!(issues
        .iter()
        .any(|i| i.message.contains("duplicate prop id")));
}

#[test]
fn unknown_version_is_rejected() {
    let issues = validate_structure(99, "test_map", "Test Map", &vec![], &[]);
    assert!(issues
        .iter()
        .any(|i| i.message.contains("unknown manifest version")));
}

#[test]
fn unknown_kind_is_flagged() {
    let mut p = prop("prop_x", "nonexistent_kind");
    p.kind_known = false;
    let issues = validate(CURRENT_VERSION, "test_map", "Test Map", &vec![], &[p]);
    assert!(issues.iter().any(|i| i.message.contains("unknown kind")));
}

#[test]
fn version_one_is_still_accepted() {
    assert_eq!(LEGACY_VERSION_1, 1);
    assert!(validate_structure(LEGACY_VERSION_1, "old", "Old", &vec![], &[]).is_empty());
}

#[test]
fn header_issues_are_reported_in_order() {
    let issues = validate_structure(3, "   ", " ", &vec![], &[]);
    assert_eq!(
        messages(&issues),
        vec![
            "unknown manifest version 3 (expected 2)".to_string(),
            "map_id is empty".to_string(),
            "display_name is empty".to_string(),
        ]
    );
}

#[test]
fn a_map_id_with_spaces_is_quoted_in_its_issue() {
    let issues = validate_structure(CURRENT_VERSION, "my map", "Map", &vec![], &[]);
    assert_eq!(
        messages(&issues),
        vec!["map_id \"my map\" contains invalid characters (allowed: [A-Za-z0-9_-])".to_string()]
    );
}

#[test]
fn an_invalid_prop_id_hides_its_other_issues() {
    let mut bad = prop("bad id", "tree_oak");
    bad.placement_issues = vec![ValidationIssue::new("outside".to_string())];
    let mut good = prop("ok", "tree_oak");
    good.placement_issues = vec![ValidationIssue::new("too small".to_string())];
    let geometry = vec![ValidationIssue::new("bounds".to_string())];
    let issues = validate_structure(CURRENT_VERSION, "m", "M", &geometry, &[bad, good]);
    assert_eq!(
        messages(&issues),
        vec![
            "bounds".to_string(),
            "prop id \"bad id\" is not a valid identifier".to_string(),
            "too small".to_string(),
        ]
    );
}

#[test]
fn a_repeated_prop_reports_the_duplicate_before_its_placement() {
    let first = prop("a", "k");
    let mut second = prop("a", "k");
    second.placement_issues = vec![ValidationIssue::new("placement".to_string())];
    let issues = validate_structure(CURRENT_VERSION, "m", "M", &vec![], &[first, second]);
    assert_eq!(
        messages(&issues),
        vec!["duplicate prop id \"a\"".to_string(), "placement".to_string()]
    );
}

#[test]
fn unknown_kinds_follow_the_structural_issues() {
    let mut p = prop("p1", "ghost");
    p.kind_known = false;
    let issues = validate(7, "m", "M", &vec![], &[p]);
    assert_eq!(
        messages(&issues),
        vec![
            "unknown manifest version 7 (expected 2)".to_string(),
            "prop \"p1\" has unknown kind \"ghost\"".to_string(),
        ]
    );
}

#[test]
fn first_repeat_finds_the_earliest_second_occurrence() {
    let ids: Vec<String> = ["a", "b", "c", "b", "a"].iter().map(|s| s.to_string()).collect();
    assert_eq!(first_repeat(&ids), Some(3));
    let unique: Vec<String> = ["a", "b"].iter().map(|s| s.to_string()).collect();
    assert_eq!(first_repeat(&unique), None);
}

#[test]
fn whole_manifest_check_stops_at_the_first_error() {
    let none: Vec<String> = vec![];
    assert_eq!(
        validate_manifest(5, "", Err("geometry".to_string()), &none, &none),
        Err("Unknown manifest version: 5".to_string())
    );
    assert_eq!(
        validate_manifest(2, "", Ok(()), &none, &none),
        Err("map_id must not be empty".to_string())
    );
    assert_eq!(
        validate_manifest(2, "m", Err("bounds.min_x must be less than bounds.max_x".to_string()), &none, &none),
        Err("bounds.min_x must be less than bounds.max_x".to_string())
    );
}

#[test]
fn whole_manifest_check_finds_repeated_surface_and_blocker_ids() {
    let surfaces: Vec<String> = vec!["s1".to_string(), "s1".to_string()];
    let blockers: Vec<String> = vec!["b".to_string(), "c".to_string(), "b".to_string()];
    let none: Vec<String> = vec![];
    assert_eq!(
        validate_manifest(1, "m", Ok(()), &surfaces, &blockers),
        Err("Duplicate surface id: s1".to_string())
    );
    assert_eq!(
        validate_manifest(1, "m", Ok(()), &none, &blockers),
        Err("Duplicate blocker id: b".to_string())
    );
    assert_eq!(validate_manifest(2, "m", Ok(()), &none, &none), Ok(()));
}

use bevymmo::world::{
    default_id_from_node, glb_prop_id, is_map_meta_node, map_format, meta_text_or,
    missing_meta_issue, save_order, MapFormat, DEFAULT_DISPLAY_NAME, DEFAULT_MAP_ID,
};

fn ids(v: &[&str]) -> Vec<String> {
    v.iter().map(|s| s.to_string()).collect()
}

#[test]
fn saved_props_are_sorted_by_id() {
    let v = ids(&["prop_001", "prop_000"]);
    assert_eq!(save_order(&v), vec![1, 0]);
    let v = ids(&["b", "a", "c", "a", "ab", ""]);
    let order = save_order(&v);
    assert_eq!(order, vec![5, 1, 3, 4, 0, 2]);
}

#[test]
fn save_order_compares_like_str() {
    let v = ids(&["Zeta", "alpha", "Äpfel", "zeta"]);
    let order = save_order(&v);
    let mut expected: Vec<usize> = (0..v.len()).collect();
    expected.sort_by(|a, b| v[*a].cmp(&v[*b]));
    assert_eq!(order, expected);
}

#[test]
fn map_files_are_read_by_their_format() {
    assert_eq!(map_format(true, "glb"), MapFormat::WorldJson);
    assert_eq!(map_format(false, "glb"), MapFormat::Glb);
    assert_eq!(map_format(false, "gltf"), MapFormat::Glb);
    assert_eq!(map_format(false, "ron"), MapFormat::Ron);
    assert_eq!(map_format(false, ""), MapFormat::Ron);
}

#[test]
fn gltf_props_without_an_id_are_numbered() {
    assert_eq!(default_id_from_node(), "auto");
    assert_eq!(glb_prop_id("auto", 0), "prop_001");
    assert_eq!(glb_prop_id("", 41), "prop_042");
    assert_eq!(glb_prop_id("tree_7", 3), "tree_7");
    assert_eq!(glb_prop_id("auto", 1234), "prop_1235");
}

#[test]
fn gltf_metadata_has_defaults() {
    assert!(is_map_meta_node("__bevymmo_map_meta"));
    assert!(is_map_meta_node("__bevymmo_map_meta__"));
    assert!(!is_map_meta_node("tree"));
    assert_eq!(meta_text_or(None, DEFAULT_MAP_ID), "untitled");
    assert_eq!(meta_text_or(Some("hills".to_string()), DEFAULT_DISPLAY_NAME), "hills");
    assert_eq!(meta_text_or(None, DEFAULT_DISPLAY_NAME), "Untitled Map");
    assert_eq!(missing_meta_issue().message, "missing __bevymmo_map_meta node in GLB");
}

use bevymmo::world::{check_heightfield_size, collision_kind, flat_collision_kind, CollisionKind};

#[test]
fn collision_types_are_named() {
    assert_eq!(collision_kind("cylinder"), Ok(CollisionKind::Cylinder));
    assert_eq!(collision_kind("box"), Ok(CollisionKind::Box));
    assert_eq!(collision_kind("sphere"), Ok(CollisionKind::Sphere));
    assert_eq!(collision_kind("Box"), Err("unknown collision type 'Box'".to_string()));
    assert_eq!(flat_collision_kind("sphere"), Some(CollisionKind::Sphere));
    assert_eq!(flat_collision_kind("none"), None);
    assert_eq!(flat_collision_kind(""), None);
}

#[test]
fn a_heightfield_has_one_height_per_corner() {
    assert_eq!(check_heightfield_size(2, 9), Ok(()));
    assert_eq!(check_heightfield_size(0, 1), Ok(()));
    assert_eq!(
        check_heightfield_size(2, 8),
        Err("Heightfield has 8 heights but expected 9 for resolution 2".to_string())
    );
}

use bevymmo::world::{glb_node_role, NodeRole};

#[test]
fn gltf_nodes_are_classified_by_name_and_extras() {
    assert_eq!(glb_node_role("tree", false, true, true), NodeRole::Skip);
    assert_eq!(glb_node_role("__bevymmo_map_meta", true, false, false), NodeRole::Meta { nested: false });
    assert_eq!(glb_node_role("__bevymmo_map_meta__", true, true, false), NodeRole::Meta { nested: true });
    assert_eq!(glb_node_role("tree", true, true, false), NodeRole::Prop { nested: true });
    assert_eq!(glb_node_role("tree", true, false, true), NodeRole::Prop { nested: false });
    assert_eq!(glb_node_role("tree", true, false, false), NodeRole::Skip);
}

#[test]
fn legacy_manifest_without_terrain_loads_with_default_terrain() {
    // A version 1 map with no props and no terrain section.
    assert!(validate_structure(LEGACY_VERSION_1, "legacy_map", "Legacy", &vec![], &[]).is_empty());
}

use bevymmo::world::{plan_glb_nodes, GlbNode};

fn node(name: &str, has_extras: bool, has_nested: bool, has_flat_kind: bool, extras_id: &str) -> GlbNode {
    GlbNode {
        name: name.to_string(),
        has_extras,
        has_nested,
        has_flat_kind,
        extras_id: extras_id.to_string(),
    }
}

#[test]
fn glb_scene_numbers_props_in_node_order_and_takes_the_last_meta() {
    let nodes = vec![
        node("rock", true, true, false, "auto"),
        node("__bevymmo_map_meta", true, true, false, "auto"),
        node("camera", false, false, false, "auto"),
        node("tree", true, false, true, "tree_7"),
        node("note", true, false, false, "auto"),
        node("__bevymmo_map_meta__", true, false, false, "auto"),
        node("bush", true, false, true, ""),
    ];
    let plan = plan_glb_nodes(&nodes).ok().unwrap();
    assert_eq!(plan.meta_node, 5);
    assert!(!plan.meta_nested);
    assert_eq!(plan.prop_nodes, vec![0, 3, 6]);
    assert_eq!(plan.prop_ids, vec!["prop_001".to_string(), "tree_7".to_string(), "prop_003".to_string()]);
}

#[test]
fn glb_scene_without_meta_node_is_refused() {
    let nodes = vec![node("rock", true, true, false, "auto"), node("__bevymmo_map_meta", false, true, false, "auto")];
    let issue = plan_glb_nodes(&nodes).err().unwrap();
    assert_eq!(issue.message, "missing __bevymmo_map_meta node in GLB");
    assert!(plan_glb_nodes(&Vec::new()).is_err());
}
