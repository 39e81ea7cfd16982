use fgm::assets::{is_image, pixels_similar, resolve_output_path};
use fgm::doctree::{
    collect_node_ids, coverage_summary, extract_all_node_ids, extract_components,
    extract_frame_ids, extract_frame_info, find_first_frame, ComponentEntry, ComponentStatus,
    Document, Node,
};
use fgm::key::CacheKey;

fn node(id: &str, name: &str, node_type: &str, children: Option<Vec<Node>>) -> Node {
    Node {
        id: id.to_string(),
        name: name.to_string(),
        node_type: node_type.to_string(),
        children,
    }
}

fn sample_document() -> Document {
    let page1 = node(
        "0:1",
        "Page 1",
        "CANVAS",
        Some(vec![
            node("1:1", "Header", "FRAME", None),
            node(
                "1:2",
                "Button",
                "COMPONENT",
                Some(vec![node("1:3", "Label", "TEXT", None)]),
            ),
            node("1:4", "Notes", "TEXT", None),
        ]),
    );
    let page2 = node(
        "0:2",
        "Page 2",
        "CANVAS",
        Some(vec![node("2:1", "Card", "FRAME", None)]),
    );
    let stray = node("0:3", "Stray", "SECTION", None);
    Document {
        id: "0:0".to_string(),
        name: "Document".to_string(),
        node_type: "DOCUMENT".to_string(),
        children: Some(vec![page1, page2, stray]),
    }
}

#[test]
fn all_node_ids_are_collected_depth_first() {
    let doc = sample_document();
    let ids = extract_all_node_ids(&doc);
    let expected = vec!["0:1", "1:1", "1:2", "1:3", "1:4", "0:2", "2:1", "0:3"];
    assert_eq!(ids.len(), expected.len());
    for (got, want) in ids.iter().zip(expected.iter()) {
        assert_eq!(got, want);
    }
}

#[test]
fn collect_node_ids_appends() {
    let mut ids = vec!["seed".to_string()];
    let children = Some(vec![node("9:9", "N", "FRAME", None)]);
    collect_node_ids(&children, &mut ids);
    assert_eq!(ids, vec!["seed".to_string(), "9:9".to_string()]);
    collect_node_ids(&None, &mut ids);
    assert_eq!(ids.len(), 2);
}

#[test]
fn frame_ids_are_the_frames_directly_under_pages() {
    let doc = sample_document();
    // "1:3" (nested) and "1:4" (TEXT) are not top-level frames.
    assert_eq!(
        extract_frame_ids(&doc),
        vec!["1:1".to_string(), "1:2".to_string(), "2:1".to_string()]
    );
}

#[test]
fn frame_info_pairs_ids_with_names() {
    let doc = sample_document();
    let info = extract_frame_info(&doc);
    assert_eq!(
        info,
        vec![
            ("1:1".to_string(), "Header".to_string()),
            ("1:2".to_string(), "Button".to_string()),
            ("2:1".to_string(), "Card".to_string()),
        ]
    );
}

#[test]
fn first_frame_is_found_in_document_order() {
    let doc = sample_document();
    assert_eq!(find_first_frame(&doc), Some("1:1".to_string()));

    let empty = Document {
        id: "0:0".to_string(),
        name: "Empty".to_string(),
        node_type: "DOCUMENT".to_string(),
        children: None,
    };
    assert_eq!(find_first_frame(&empty), None);
}

#[test]
fn components_become_fresh_map_entries() {
    let doc = sample_document();
    let entries = extract_components(&doc);
    assert_eq!(entries.len(), 1);
    assert_eq!(entries[0].node_id, "1:2");
    assert_eq!(entries[0].figma_name, "Button");
    assert_eq!(entries[0].code_path, None);
    assert_eq!(entries[0].status, ComponentStatus::NotStarted);
    assert_eq!(entries[0].notes, None);
}

fn entry_with(status: ComponentStatus) -> ComponentEntry {
    ComponentEntry {
        node_id: "n".to_string(),
        figma_name: "c".to_string(),
        code_path: None,
        status,
        notes: None,
    }
}

#[test]
fn coverage_counts_by_status() {
    let entries = vec![
        entry_with(ComponentStatus::Implemented),
        entry_with(ComponentStatus::Implemented),
        entry_with(ComponentStatus::InProgress),
        entry_with(ComponentStatus::NotStarted),
    ];
    let s = coverage_summary(&entries);
    assert_eq!(s.total, 4);
    assert_eq!(s.implemented, 2);
    assert_eq!(s.in_progress, 1);
    assert_eq!(s.needs_update, 0);
    assert_eq!(s.not_started, 1);
    assert_eq!(s.percent, 50);
    assert_eq!(s.bar_filled, 15);

    let empty: Vec<ComponentEntry> = Vec::new();
    let s = coverage_summary(&empty);
    assert_eq!(s.total, 0);
    assert_eq!(s.percent, 0);
    assert_eq!(s.bar_filled, 0);
}

#[test]
fn status_names_match_the_map_file() {
    assert_eq!(ComponentStatus::NotStarted.as_str(), "not_started");
    assert_eq!(ComponentStatus::InProgress.as_str(), "in_progress");
    assert_eq!(ComponentStatus::Implemented.as_str(), "implemented");
    assert_eq!(ComponentStatus::NeedsUpdate.as_str(), "needs_update");
    assert_eq!(ComponentStatus::default(), ComponentStatus::NotStarted);
}

#[test]
fn output_paths_resolve_under_the_base() {
    let base = Some("assets".to_string());
    assert_eq!(resolve_output_path(&base, &None, "icon"), "assets/icon.png");
    assert_eq!(
        resolve_output_path(&base, &Some("sub/a.svg".to_string()), "icon"),
        "assets/sub/a.svg"
    );
    assert_eq!(
        resolve_output_path(&base, &Some("/abs/a.png".to_string()), "icon"),
        "/abs/a.png"
    );
    assert_eq!(resolve_output_path(&None, &None, "icon"), "./icon.png");
}

#[test]
fn image_files_are_recognized_by_extension() {
    assert!(is_image("shots/header.png"));
    assert!(is_image("a.JPG"));
    assert!(is_image("b.jpeg"));
    assert!(is_image("c.webp"));
    assert!(!is_image("readme.md"));
    assert!(!is_image("noext"));
    assert!(!is_image(".hidden"));
    assert!(!is_image("dir.d/noext"));
}

#[test]
fn pixel_similarity_uses_channel_distance() {
    assert!(pixels_similar((10, 20, 30), (15, 25, 35), 10));
    assert!(!pixels_similar((10, 20, 30), (10, 20, 41), 10));
    assert!(pixels_similar((200, 0, 0), (190, 0, 0), 10));
}

#[test]
fn export_params_distinguish_format_and_scale() {
    let ids = vec!["1:1".to_string()];
    let png2 = CacheKey::hash_export_params(&ids, "png", 2u32);
    let svg2 = CacheKey::hash_export_params(&ids, "svg", 2u32);
    let png3 = CacheKey::hash_export_params(&ids, "png", 3u32);
    assert_ne!(png2, svg2);
    assert_ne!(png2, png3);
    assert_eq!(png2, CacheKey::hash_export_params(&ids, "png", 2u32));
}
