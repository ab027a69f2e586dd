use moms_insta::models::{Project, ProjectContentGroup, ProjectContentItem, ProjectMeta};
use moms_insta::store::{
    content_file_path, create_project, create_project_steps, delete_project_steps, list_projects,
    project_file_path, project_id_from_uuid, project_meta, remove_from_index, research_file_path,
    save_project_steps, update_projects_index, StoreStep, INDEX_FILE,
};

fn item(id: &str) -> ProjectContentItem {
    ProjectContentItem {
        id: id.to_string(),
        title: "t".to_string(),
        character_name: "c".to_string(),
        journal_number: 1,
        content: "x".to_string(),
        image_concept: "i".to_string(),
        status: "pending".to_string(),
        generated_image_id: None,
    }
}

fn group(id: &str, n: usize) -> ProjectContentGroup {
    ProjectContentGroup {
        id: id.to_string(),
        name: "g".to_string(),
        research_item_ids: vec![],
        contents: (0..n).map(|k| item(&format!("{}-{}", id, k))).collect(),
        created_at: "2024-01-01T00:00:00Z".to_string(),
    }
}

fn meta(id: &str, updated: &str) -> ProjectMeta {
    ProjectMeta {
        id: id.to_string(),
        name: id.to_string(),
        created_at: "2024-01-01T00:00:00Z".to_string(),
        updated_at: updated.to_string(),
        research_count: 0,
        content_count: 0,
        image_count: 0,
    }
}

#[test]
fn new_project_is_empty_with_fresh_id() {
    let p = create_project("여름 캠페인".to_string());
    assert!(p.id.starts_with("proj_"));
    assert_eq!(p.id.len(), 17);
    assert!(p.id[5..].chars().all(|c| c.is_ascii_hexdigit() && !c.is_ascii_uppercase()));
    assert_eq!(p.name, "여름 캠페인");
    assert_eq!(p.created_at, p.updated_at);
    assert!(p.created_at.contains('T') && p.created_at.len() >= 20);
    assert!(p.research_items.is_empty() && p.content_groups.is_empty() && p.generated_images.is_empty());
    let q = create_project("other".to_string());
    assert_ne!(p.id, q.id);
}

#[test]
fn project_id_from_uuid_text() {
    assert_eq!(
        project_id_from_uuid("123e4567-e89b-12d3-a456-426614174000"),
        "proj_123e4567e89b"
    );
}

#[test]
fn meta_counts_contents_over_all_groups() {
    let mut p = create_project("n".to_string());
    p.content_groups = vec![group("g1", 3), group("g2", 0), group("g3", 4)];
    let m = project_meta(&p);
    assert_eq!(m.content_count, 7);
    assert_eq!(m.research_count, 0);
    assert_eq!(m.image_count, 0);
    assert_eq!(m.id, p.id);
}

#[test]
fn create_then_save_lists_the_project_once() {
    let created = create_project("캠페인".to_string());
    let index = update_projects_index(None, &created, false);
    let mut saved = created.clone();
    saved.content_groups = vec![group("g1", 2), group("g2", 5)];
    saved.updated_at = "2099-01-01T00:00:00Z".to_string();
    let index = update_projects_index(Some(index), &saved, false);
    let listed = list_projects(Some(index));
    let mine: Vec<&ProjectMeta> = listed.iter().filter(|m| m.id == saved.id).collect();
    assert_eq!(mine.len(), 1);
    assert_eq!(mine[0].content_count, 7);
    assert_eq!(mine[0].updated_at, "2099-01-01T00:00:00Z");
}

#[test]
fn save_replaces_only_its_own_entry() {
    let p = create_project("p".to_string());
    let before = vec![meta("a", "1"), meta(&p.id, "0"), meta("b", "2")];
    let after = update_projects_index(Some(before), &p, false);
    let ids: Vec<&str> = after.iter().map(|m| m.id.as_str()).collect();
    assert_eq!(ids, vec!["a", "b", p.id.as_str()]);
}

#[test]
fn listing_is_most_recent_first_and_stable() {
    let index = vec![
        meta("old", "2024-01-01"),
        meta("new", "2024-03-01"),
        meta("mid1", "2024-02-01"),
        meta("mid2", "2024-02-01"),
    ];
    let listed = list_projects(Some(index));
    let ids: Vec<&str> = listed.iter().map(|m| m.id.as_str()).collect();
    assert_eq!(ids, vec!["new", "mid1", "mid2", "old"]);
}

#[test]
fn listing_without_index_is_empty() {
    assert!(list_projects(None).is_empty());
}

#[test]
fn delete_unlists_and_repeats_harmlessly() {
    let index = vec![meta("a", "1"), meta("b", "2"), meta("a", "3")];
    let once = remove_from_index(Some(index), "a");
    assert!(once.iter().all(|m| m.id != "a"));
    assert_eq!(once.len(), 1);
    let twice = remove_from_index(Some(once.clone()), "a");
    assert_eq!(twice, once);
    assert!(remove_from_index(None, "a").is_empty());
    let p = create_project("x".to_string());
    assert!(update_projects_index(Some(vec![meta(&p.id, "1")]), &p, true).is_empty());
}

#[test]
fn file_layout() {
    assert_eq!(project_file_path("proj_1"), "proj_1/project.json");
    assert_eq!(research_file_path("proj_1", "r9"), "proj_1/research/r9.json");
    assert_eq!(content_file_path("proj_1", "g2"), "proj_1/content/g2.json");
    assert_eq!(INDEX_FILE, "projects_index.json");
}

#[test]
fn create_steps_build_skeleton_then_snapshot_then_index() {
    let mut p = create_project("x".to_string());
    p.id = "proj_a".to_string();
    assert_eq!(
        create_project_steps(&p),
        vec![
            StoreStep::CreateDir("proj_a".to_string()),
            StoreStep::CreateDir("proj_a/research".to_string()),
            StoreStep::CreateDir("proj_a/content".to_string()),
            StoreStep::CreateDir("proj_a/images".to_string()),
            StoreStep::WriteProject("proj_a/project.json".to_string()),
            StoreStep::UpdateIndex,
        ]
    );
}

#[test]
fn save_steps_write_every_group_and_skip_skeleton_when_present() {
    let mut p = create_project("x".to_string());
    p.id = "proj_a".to_string();
    p.content_groups = vec![group("g1", 1), group("g2", 1)];
    assert_eq!(
        save_project_steps(&p, true),
        vec![
            StoreStep::WriteProject("proj_a/project.json".to_string()),
            StoreStep::EnsureDir("proj_a/research".to_string()),
            StoreStep::EnsureDir("proj_a/content".to_string()),
            StoreStep::WriteContentGroup(0, "proj_a/content/g1.json".to_string()),
            StoreStep::WriteContentGroup(1, "proj_a/content/g2.json".to_string()),
            StoreStep::UpdateIndex,
        ]
    );
    let fresh = save_project_steps(&p, false);
    assert_eq!(fresh.len(), 10);
    assert_eq!(fresh[0], StoreStep::CreateDir("proj_a".to_string()));
}

#[test]
fn delete_steps() {
    assert_eq!(
        delete_project_steps("proj_a"),
        vec![StoreStep::RemoveDir("proj_a".to_string()), StoreStep::RemoveFromIndex]
    );
}

#[test]
fn saving_keeps_project_value() {
    let p: Project = create_project("keep".to_string());
    let index = update_projects_index(None, &p, false);
    assert_eq!(index.len(), 1);
    assert_eq!(index[0].name, "keep");
    assert_eq!(index[0].created_at, p.created_at);
}
