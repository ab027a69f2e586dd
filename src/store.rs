//! The project store: the index of project summaries, the order in which
//! projects are listed, and the files and directories that each operation
//! touches.
//!
//! Paths are relative to the projects root and use `/` as separator. The
//! caller performs the steps that the plans list, in order, and decodes and
//! encodes the files; a file that is absent or does not decode reaches these
//! functions as `None`.
use vstd::prelude::*;
use crate::models::{Project, ProjectContentGroup, ProjectMeta};
use crate::order::{TextKeyed, sort_by_text_key, sorted_by_key, with_key};
use crate::text::{chars_of, owned, push_str, str_eq};
use crate::thirdparty::{is_hyphenated_uuid, new_uuid, now_rfc3339};

verus! {

broadcast use vstd::seq_lib::group_to_multiset_ensures, vstd::multiset::group_multiset_axioms;

// ---------------------------------------------------------------------------
// Summaries and the index
// ---------------------------------------------------------------------------

/// The number of content items over a list of content groups.
pub open spec fn content_total(groups: Seq<ProjectContentGroup>) -> nat
    decreases groups.len(),
{
    if groups.len() == 0 {
        0
    } else {
        content_total(groups.drop_last()) + groups.last().contents@.len()
    }
}

/// The index entry of a project: its identity and timestamps, with the
/// number of research items, of content items over all groups, and of images.
pub open spec fn meta_of(p: Project) -> ProjectMeta {
    ProjectMeta {
        id: p.id,
        name: p.name,
        created_at: p.created_at,
        updated_at: p.updated_at,
        research_count: p.research_items@.len() as usize,
        content_count: content_total(p.content_groups@) as usize,
        image_count: p.generated_images@.len() as usize,
    }
}

/// The index without the entries of project `id`, other entries in order.
pub open spec fn without_id(s: Seq<ProjectMeta>, id: Seq<char>) -> Seq<ProjectMeta>
    decreases s.len(),
{
    if s.len() == 0 {
        s
    } else if s.last().id@ == id {
        without_id(s.drop_last(), id)
    } else {
        without_id(s.drop_last(), id).push(s.last())
    }
}

/// The index after a save of `p`: its old entry removed, a fresh one last.
pub open spec fn index_after_save(s: Seq<ProjectMeta>, p: Project) -> Seq<ProjectMeta> {
    without_id(s, p.id@).push(meta_of(p))
}

/// The entries of an index file; one that is absent or does not decode
/// counts as empty.
pub open spec fn stored_index(index: Option<Vec<ProjectMeta>>) -> Seq<ProjectMeta> {
    match index {
        Some(v) => v@,
        None => Seq::empty(),
    }
}

/// Computes the index entry of a project.
pub fn project_meta(p: &Project) -> (m: ProjectMeta)
    requires
        content_total(p.content_groups@) <= usize::MAX,
    ensures
        m == meta_of(*p),
{
    let groups = &p.content_groups;
    let mut total: usize = 0;
    let mut i: usize = 0;
    while i < groups.len()
        invariant
            *groups == p.content_groups,
            i <= groups@.len(),
            total == content_total(groups@.take(i as int)),
            content_total(groups@) <= usize::MAX,
        decreases groups@.len() - i,
    {
        assert(groups@.take(i + 1).drop_last() =~= groups@.take(i as int));
        proof {
            lemma_content_total_prefix(groups@, i as int + 1);
        }
        total = total + groups[i].contents.len();
        i = i + 1;
    }
    assert(groups@.take(i as int) =~= groups@);
    ProjectMeta {
        id: p.id.clone(),
        name: p.name.clone(),
        created_at: p.created_at.clone(),
        updated_at: p.updated_at.clone(),
        research_count: p.research_items.len(),
        content_count: total,
        image_count: p.generated_images.len(),
    }
}

proof fn lemma_content_total_prefix(s: Seq<ProjectContentGroup>, k: int)
    requires
        0 <= k <= s.len(),
    ensures
        content_total(s.take(k)) <= content_total(s),
    decreases s.len() - k,
{
    if k < s.len() {
        lemma_content_total_prefix(s, k + 1);
        assert(s.take(k + 1).drop_last() =~= s.take(k));
    } else {
        assert(s.take(k) =~= s);
    }
}

/// A field-by-field copy of an index entry.
pub fn copy_meta(m: &ProjectMeta) -> (r: ProjectMeta)
    ensures
        r == *m,
{
    ProjectMeta {
        id: m.id.clone(),
        name: m.name.clone(),
        created_at: m.created_at.clone(),
        updated_at: m.updated_at.clone(),
        research_count: m.research_count,
        content_count: m.content_count,
        image_count: m.image_count,
    }
}

fn without_id_vec(entries: &Vec<ProjectMeta>, id: &str) -> (r: Vec<ProjectMeta>)
    ensures
        r@ == without_id(entries@, id@),
{
    let mut kept: Vec<ProjectMeta> = Vec::new();
    let mut i: usize = 0;
    while i < entries.len()
        invariant
            i <= entries@.len(),
            kept@ == without_id(entries@.take(i as int), id@),
        decreases entries@.len() - i,
    {
        assert(entries@.take(i + 1).drop_last() =~= entries@.take(i as int));
        if !str_eq(entries[i].id.as_str(), id) {
            kept.push(copy_meta(&entries[i]));
        }
        i = i + 1;
    }
    assert(entries@.take(i as int) =~= entries@);
    kept
}

/// Removes the entries of project `id` from the index, as a delete does.
pub fn remove_from_index(index: Option<Vec<ProjectMeta>>, id: &str) -> (r: Vec<ProjectMeta>)
    ensures
        r@ == without_id(stored_index(index), id@),
{
    match index {
        Some(v) => without_id_vec(&v, id),
        None => Vec::new(),
    }
}

/// The index after a save (`delete` false) or a delete (`delete` true) of
/// `project`: any entry of the project is removed, and after a save a fresh
/// entry is appended.
pub fn update_projects_index(index: Option<Vec<ProjectMeta>>, project: &Project, delete: bool) -> (r:
    Vec<ProjectMeta>)
    requires
        content_total(project.content_groups@) <= usize::MAX,
    ensures
        delete ==> r@ == without_id(stored_index(index), project.id@),
        !delete ==> r@ == index_after_save(stored_index(index), *project),
{
    let mut r = remove_from_index(index, project.id.as_str());
    if !delete {
        r.push(project_meta(project));
    }
    r
}

impl TextKeyed for ProjectMeta {
    open spec fn text_key(&self) -> Seq<char> {
        self.updated_at@
    }

    fn key_chars(&self) -> (r: Vec<char>) {
        chars_of(self.updated_at.as_str())
    }
}

/// The entries of the index, most recently updated first; entries updated
/// at the same instant keep their index order.
pub fn list_projects(index: Option<Vec<ProjectMeta>>) -> (r: Vec<ProjectMeta>)
    ensures
        r@.to_multiset() == stored_index(index).to_multiset(),
        sorted_by_key(r@, true),
        forall|k: Seq<char>| #[trigger] with_key(r@, k) == with_key(stored_index(index), k),
{
    let entries = match index {
        Some(v) => v,
        None => Vec::new(),
    };
    sort_by_text_key(entries, true)
}

// ---------------------------------------------------------------------------
// Laws of the index
// ---------------------------------------------------------------------------

proof fn lemma_without_id_drops(s: Seq<ProjectMeta>, id: Seq<char>)
    ensures
        forall|i: int| 0 <= i < without_id(s, id).len() ==> #[trigger] without_id(s, id)[i].id@ != id,
        forall|m: ProjectMeta| #[trigger] without_id(s, id).contains(m) ==> s.contains(m),
    decreases s.len(),
{
    if s.len() > 0 {
        lemma_without_id_drops(s.drop_last(), id);
        let w = without_id(s.drop_last(), id);
        assert forall|m: ProjectMeta| #[trigger] without_id(s, id).contains(m) implies s.contains(m) by {
            let k = choose|k: int| 0 <= k < without_id(s, id).len() && without_id(s, id)[k] == m;
            if k < w.len() {
                assert(w[k] == m);
                assert(w.contains(m));
                let j = choose|j: int| 0 <= j < s.drop_last().len() && s.drop_last()[j] == m;
                assert(s[j] == m);
            } else {
                assert(s[s.len() - 1] == m);
            }
        }
    }
}

proof fn lemma_without_id_keeps(s: Seq<ProjectMeta>, id: Seq<char>, m: ProjectMeta)
    requires
        s.contains(m),
        m.id@ != id,
    ensures
        without_id(s, id).contains(m),
    decreases s.len(),
{
    let t = s.drop_last();
    let w = without_id(t, id);
    if s.last() == m {
        assert(without_id(s, id)[w.len() as int] == m);
    } else {
        let k = choose|k: int| 0 <= k < s.len() && s[k] == m;
        assert(t[k] == m);
        lemma_without_id_keeps(t, id, m);
        let j = choose|j: int| 0 <= j < w.len() && w[j] == m;
        assert(without_id(s, id)[j] == m);
    }
}

proof fn lemma_without_id_idempotent(s: Seq<ProjectMeta>, id: Seq<char>)
    ensures
        without_id(without_id(s, id), id) == without_id(s, id),
    decreases s.len(),
{
    if s.len() > 0 {
        lemma_without_id_idempotent(s.drop_last(), id);
        let w = without_id(s.drop_last(), id);
        if s.last().id@ != id {
            assert(w.push(s.last()).drop_last() =~= w);
        }
    }
}

proof fn lemma_count_two(r: Seq<ProjectMeta>, a: int, b: int)
    requires
        0 <= a < r.len(),
        0 <= b < r.len(),
        a != b,
        r[a] == r[b],
    ensures
        r.to_multiset().count(r[a]) >= 2,
{
    let x = r[a];
    let q = r.remove(a);
    let bb = if b < a {
        b
    } else {
        b - 1
    };
    assert(q[bb] == x);
    assert(q.contains(x));
    assert(q.to_multiset().count(x) > 0);
    assert(q.to_multiset() =~= r.to_multiset().remove(x));
    assert(r.to_multiset().remove(x).count(x) > 0);
}

/// After a project is created and then saved under the same id, listing the
/// index shows exactly one entry with that id, and its content count is the
/// number of content items over the saved project's groups.
pub proof fn lemma_save_lists_project_once(
    index: Seq<ProjectMeta>,
    created: Project,
    saved: Project,
    listed: Seq<ProjectMeta>,
)
    requires
        created.id@ == saved.id@,
        content_total(saved.content_groups@) <= usize::MAX,
        listed.to_multiset() == index_after_save(index_after_save(index, created), saved).to_multiset(),
    ensures
        exists|i: int|
            0 <= i < listed.len() && listed[i].id@ == saved.id@ && listed[i].content_count
                == content_total(saved.content_groups@),
        forall|i: int, j: int|
            0 <= i < listed.len() && 0 <= j < listed.len() && listed[i].id@ == saved.id@
                && listed[j].id@ == saved.id@ ==> i == j,
{
    let id = saved.id@;
    let mid = index_after_save(index, created);
    let w = without_id(mid, id);
    let fin = w.push(meta_of(saved));
    let m = meta_of(saved);
    lemma_without_id_drops(mid, id);
    assert(!w.contains(m)) by {
        if w.contains(m) {
            let k = choose|k: int| 0 <= k < w.len() && w[k] == m;
            assert(w[k].id@ != id);
        }
    }
    assert(fin.to_multiset().count(m) == 1) by {
        assert(fin.to_multiset() =~= w.to_multiset().insert(m));
    }
    assert(fin[w.len() as int] == m);
    assert(fin.contains(m));
    assert(listed.contains(m));
    assert(forall|x: ProjectMeta| #[trigger] listed.contains(x) ==> fin.contains(x)) by {
        assert forall|x: ProjectMeta| #[trigger] listed.contains(x) implies fin.contains(x) by {
            assert(listed.to_multiset().count(x) > 0);
        }
    }
    assert forall|i: int| 0 <= i < listed.len() && listed[i].id@ == id implies listed[i] == m by {
        assert(listed.contains(listed[i]));
        assert(fin.contains(listed[i]));
        let k = choose|k: int| 0 <= k < fin.len() && fin[k] == listed[i];
        if k < w.len() {
            assert(w[k].id@ != id);
        }
    }
    assert forall|i: int, j: int|
        0 <= i < listed.len() && 0 <= j < listed.len() && listed[i].id@ == id && listed[j].id@
            == id implies i == j by {
        if i != j {
            assert(listed[i] == m);
            assert(listed[j] == m);
            lemma_count_two(listed, i, j);
        }
    }
    let k = choose|k: int| 0 <= k < listed.len() && listed[k] == m;
    assert(listed[k].id@ == id);
    assert(listed[k].content_count == content_total(saved.content_groups@));
}

/// After project `id` is deleted, listing the index shows no entry with that
/// id; deleting it again leaves the index as it is.
pub proof fn lemma_delete_unlists_project(index: Seq<ProjectMeta>, id: Seq<char>, listed: Seq<ProjectMeta>)
    requires
        listed.to_multiset() == without_id(index, id).to_multiset(),
    ensures
        forall|i: int| 0 <= i < listed.len() ==> #[trigger] listed[i].id@ != id,
        without_id(without_id(index, id), id) == without_id(index, id),
{
    lemma_without_id_drops(index, id);
    lemma_without_id_idempotent(index, id);
    let w = without_id(index, id);
    assert forall|i: int| 0 <= i < listed.len() implies #[trigger] listed[i].id@ != id by {
        assert(listed.contains(listed[i]));
        assert(listed.to_multiset().count(listed[i]) > 0);
        assert(w.contains(listed[i]));
        let k = choose|k: int| 0 <= k < w.len() && w[k] == listed[i];
        assert(w[k].id@ != id);
    }
}

// ---------------------------------------------------------------------------
// New projects
// ---------------------------------------------------------------------------

/// `s` without its `-` characters.
pub open spec fn without_hyphens(s: Seq<char>) -> Seq<char>
    decreases s.len(),
{
    if s.len() == 0 {
        s
    } else if s.last() == '-' {
        without_hyphens(s.drop_last())
    } else {
        without_hyphens(s.drop_last()).push(s.last())
    }
}

/// The project id made from a UUID's text: `proj_` and the first twelve of
/// its characters other than `-`.
pub open spec fn project_id_from(uuid: Seq<char>) -> Seq<char> {
    let digits = without_hyphens(uuid);
    "proj_"@ + if digits.len() <= 12 {
        digits
    } else {
        digits.take(12)
    }
}

/// Makes a project id from the text of a UUID.
pub fn project_id_from_uuid(uuid: &str) -> (r: String)
    ensures
        r@ == project_id_from(uuid@),
{
    let cs = chars_of(uuid);
    let mut digits: Vec<char> = Vec::new();
    let mut i: usize = 0;
    while i < cs.len()
        invariant
            cs@ == uuid@,
            i <= cs@.len(),
            digits@ == without_hyphens(cs@.take(i as int)),
        decreases cs@.len() - i,
    {
        assert(cs@.take(i + 1).drop_last() =~= cs@.take(i as int));
        if cs[i] != '-' {
            digits.push(cs[i]);
        }
        i = i + 1;
    }
    assert(cs@.take(i as int) =~= cs@);
    let end: usize = if digits.len() <= 12 {
        digits.len()
    } else {
        12
    };
    let mut r = owned("proj_");
    crate::text::push_range(&mut r, digits.as_slice(), 0, end);
    assert(digits@.subrange(0, end as int) =~= if digits@.len() <= 12 {
        digits@
    } else {
        digits@.take(12)
    });
    r
}

/// A new, empty project named `name`: a fresh id, and the current time as
/// both creation and update time.
pub fn create_project(name: String) -> (p: Project)
    ensures
        exists|u: Seq<char>| is_hyphenated_uuid(u) && p.id@ == project_id_from(u),
        p.name == name,
        p.created_at == p.updated_at,
        p.research_items@.len() == 0,
        p.content_groups@.len() == 0,
        p.generated_images@.len() == 0,
{
    let u = new_uuid();
    let id = project_id_from_uuid(u.as_str());
    let now = now_rfc3339();
    let p = Project {
        id,
        name,
        created_at: now.clone(),
        updated_at: now,
        research_items: Vec::new(),
        content_groups: Vec::new(),
        generated_images: Vec::new(),
    };
    assert(is_hyphenated_uuid(u@) && p.id@ == project_id_from(u@));
    p
}

// ---------------------------------------------------------------------------
// Layout on disk
// ---------------------------------------------------------------------------

/// The name of the index file in the projects root.
pub const INDEX_FILE: &'static str = "projects_index.json";

/// The aggregate snapshot of project `id`.
pub open spec fn project_file(id: Seq<char>) -> Seq<char> {
    id + "/project.json"@
}

/// The directory of research item files of project `id`.
pub open spec fn research_dir(id: Seq<char>) -> Seq<char> {
    id + "/research"@
}

/// The directory of content group files of project `id`.
pub open spec fn content_dir(id: Seq<char>) -> Seq<char> {
    id + "/content"@
}

/// The directory of rendered images of project `id`.
pub open spec fn images_dir(id: Seq<char>) -> Seq<char> {
    id + "/images"@
}

/// The file of research item `item` of project `id`.
pub open spec fn research_file(id: Seq<char>, item: Seq<char>) -> Seq<char> {
    research_dir(id) + "/"@ + item + ".json"@
}

/// The file of content group `group` of project `id`.
pub open spec fn content_file(id: Seq<char>, group: Seq<char>) -> Seq<char> {
    content_dir(id) + "/"@ + group + ".json"@
}

fn joined(a: &str, b: &str) -> (r: String)
    ensures
        r@ == a@ + b@,
{
    let mut r = owned(a);
    push_str(&mut r, b);
    r
}

/// The path of the aggregate snapshot of project `id`.
pub fn project_file_path(id: &str) -> (r: String)
    ensures
        r@ == project_file(id@),
{
    joined(id, "/project.json")
}

/// The path of the research directory of project `id`.
pub fn research_dir_path(id: &str) -> (r: String)
    ensures
        r@ == research_dir(id@),
{
    joined(id, "/research")
}

/// The path of the content directory of project `id`.
pub fn content_dir_path(id: &str) -> (r: String)
    ensures
        r@ == content_dir(id@),
{
    joined(id, "/content")
}

/// The path of the image directory of project `id`.
pub fn images_dir_path(id: &str) -> (r: String)
    ensures
        r@ == images_dir(id@),
{
    joined(id, "/images")
}

/// The path of the file of research item `item` of project `id`.
pub fn research_file_path(id: &str, item: &str) -> (r: String)
    ensures
        r@ == research_file(id@, item@),
{
    let mut r = research_dir_path(id);
    push_str(&mut r, "/");
    push_str(&mut r, item);
    push_str(&mut r, ".json");
    r
}

/// The path of the file of content group `group` of project `id`.
pub fn content_file_path(id: &str, group: &str) -> (r: String)
    ensures
        r@ == content_file(id@, group@),
{
    let mut r = content_dir_path(id);
    push_str(&mut r, "/");
    push_str(&mut r, group);
    push_str(&mut r, ".json");
    r
}

// ---------------------------------------------------------------------------
// Plans of the store operations
// ---------------------------------------------------------------------------

/// One step of a store operation, on a path relative to the projects root.
#[derive(Debug, Clone, PartialEq)]
pub enum StoreStep {
    /// Create a directory and its parents; a failure fails the operation.
    CreateDir(String),
    /// Create a directory and its parents; a failure is passed over.
    EnsureDir(String),
    /// Write the project's aggregate snapshot; a failure fails the operation.
    WriteProject(String),
    /// Write research item `i` of the project to its own file; a failure is
    /// passed over.
    WriteResearchItem(usize, String),
    /// Write content group `i` of the project to its own file; a failure is
    /// passed over.
    WriteContentGroup(usize, String),
    /// Rewrite the index with the project's fresh entry (`update_projects_index`).
    UpdateIndex,
    /// Remove a directory with all it holds, where it exists.
    RemoveDir(String),
    /// Where the index file exists, rewrite it without the project's entry
    /// (`remove_from_index`).
    RemoveFromIndex,
}

/// A store step with its path as characters.
pub enum StepView {
    CreateDir(Seq<char>),
    EnsureDir(Seq<char>),
    WriteProject(Seq<char>),
    WriteResearchItem(nat, Seq<char>),
    WriteContentGroup(nat, Seq<char>),
    UpdateIndex,
    RemoveDir(Seq<char>),
    RemoveFromIndex,
}

impl View for StoreStep {
    type V = StepView;

    open spec fn view(&self) -> StepView {
        match self {
            StoreStep::CreateDir(p) => StepView::CreateDir(p@),
            StoreStep::EnsureDir(p) => StepView::EnsureDir(p@),
            StoreStep::WriteProject(p) => StepView::WriteProject(p@),
            StoreStep::WriteResearchItem(i, p) => StepView::WriteResearchItem(*i as nat, p@),
            StoreStep::WriteContentGroup(i, p) => StepView::WriteContentGroup(*i as nat, p@),
            StoreStep::UpdateIndex => StepView::UpdateIndex,
            StoreStep::RemoveDir(p) => StepView::RemoveDir(p@),
            StoreStep::RemoveFromIndex => StepView::RemoveFromIndex,
        }
    }
}

/// The views of a list of steps.
pub open spec fn step_views(steps: Seq<StoreStep>) -> Seq<StepView> {
    steps.map_values(|s: StoreStep| s@)
}

/// The project directory and its three subdirectories, created in order.
pub open spec fn skeleton_plan(id: Seq<char>) -> Seq<StepView> {
    seq![
        StepView::CreateDir(id),
        StepView::CreateDir(research_dir(id)),
        StepView::CreateDir(content_dir(id)),
        StepView::CreateDir(images_dir(id)),
    ]
}

/// Create: the directory skeleton, the snapshot, then the index.
pub open spec fn create_plan(id: Seq<char>) -> Seq<StepView> {
    skeleton_plan(id) + seq![StepView::WriteProject(project_file(id)), StepView::UpdateIndex]
}

/// One file write per research item, in order.
pub open spec fn research_plan(p: Project) -> Seq<StepView> {
    Seq::new(
        p.research_items@.len(),
        |i: int| StepView::WriteResearchItem(i as nat, research_file(p.id@, p.research_items@[i].id@)),
    )
}

/// One file write per content group, in order.
pub open spec fn group_plan(p: Project) -> Seq<StepView> {
    Seq::new(
        p.content_groups@.len(),
        |i: int| StepView::WriteContentGroup(i as nat, content_file(p.id@, p.content_groups@[i].id@)),
    )
}

/// Save: the skeleton where the project directory is missing, the snapshot,
/// the per-item files, then the index. Files of items no longer in the
/// project are left as they are.
pub open spec fn save_plan(p: Project, dir_exists: bool) -> Seq<StepView> {
    let id = p.id@;
    (if dir_exists {
        Seq::empty()
    } else {
        skeleton_plan(id)
    }) + seq![StepView::WriteProject(project_file(id)), StepView::EnsureDir(research_dir(id))]
        + research_plan(p) + seq![StepView::EnsureDir(content_dir(id))] + group_plan(p) + seq![
        StepView::UpdateIndex,
    ]
}

/// Delete: the project directory, then the index entry.
pub open spec fn delete_plan(id: Seq<char>) -> Seq<StepView> {
    seq![StepView::RemoveDir(id), StepView::RemoveFromIndex]
}

fn push_step(steps: &mut Vec<StoreStep>, s: StoreStep)
    ensures
        step_views(final(steps)@) == step_views(old(steps)@).push(s@),
        final(steps)@.len() == old(steps)@.len() + 1,
{
    steps.push(s);
    assert(step_views(steps@) =~= step_views(old(steps)@).push(s@));
}

fn push_skeleton(steps: &mut Vec<StoreStep>, id: &str)
    ensures
        step_views(final(steps)@) == step_views(old(steps)@) + skeleton_plan(id@),
{
    let ghost before = step_views(steps@);
    push_step(steps, StoreStep::CreateDir(owned(id)));
    push_step(steps, StoreStep::CreateDir(research_dir_path(id)));
    push_step(steps, StoreStep::CreateDir(content_dir_path(id)));
    push_step(steps, StoreStep::CreateDir(images_dir_path(id)));
    assert(step_views(steps@) =~= before + skeleton_plan(id@));
}

/// The steps that create a project on disk.
pub fn create_project_steps(project: &Project) -> (r: Vec<StoreStep>)
    ensures
        step_views(r@) == create_plan(project.id@),
{
    let id = project.id.as_str();
    let mut steps: Vec<StoreStep> = Vec::new();
    assert(step_views(steps@) =~= Seq::<StepView>::empty());
    push_skeleton(&mut steps, id);
    push_step(&mut steps, StoreStep::WriteProject(project_file_path(id)));
    push_step(&mut steps, StoreStep::UpdateIndex);
    assert(step_views(steps@) =~= create_plan(project.id@));
    steps
}

/// The steps that save a project; `dir_exists` tells whether its directory
/// is already on disk.
pub fn save_project_steps(project: &Project, dir_exists: bool) -> (r: Vec<StoreStep>)
    ensures
        step_views(r@) == save_plan(*project, dir_exists),
{
    let id = project.id.as_str();
    let mut steps: Vec<StoreStep> = Vec::new();
    assert(step_views(steps@) =~= Seq::<StepView>::empty());
    if !dir_exists {
        push_skeleton(&mut steps, id);
    }
    push_step(&mut steps, StoreStep::WriteProject(project_file_path(id)));
    push_step(&mut steps, StoreStep::EnsureDir(research_dir_path(id)));
    let ghost head = step_views(steps@);
    let items = &project.research_items;
    let mut i: usize = 0;
    while i < items.len()
        invariant
            *items == project.research_items,
            id@ == project.id@,
            i <= items@.len(),
            step_views(steps@) == head + research_plan(*project).take(i as int),
        decreases items@.len() - i,
    {
        push_step(&mut steps, StoreStep::WriteResearchItem(i, research_file_path(id, items[i].id.as_str())));
        assert(research_plan(*project).take(i + 1) =~= research_plan(*project).take(i as int).push(
            research_plan(*project)[i as int],
        ));
        assert(step_views(steps@) =~= head + research_plan(*project).take(i + 1));
        i = i + 1;
    }
    assert(research_plan(*project).take(i as int) =~= research_plan(*project));
    push_step(&mut steps, StoreStep::EnsureDir(content_dir_path(id)));
    let ghost middle = step_views(steps@);
    let groups = &project.content_groups;
    let mut g: usize = 0;
    while g < groups.len()
        invariant
            *groups == project.content_groups,
            id@ == project.id@,
            g <= groups@.len(),
            step_views(steps@) == middle + group_plan(*project).take(g as int),
        decreases groups@.len() - g,
    {
        push_step(&mut steps, StoreStep::WriteContentGroup(g, content_file_path(id, groups[g].id.as_str())));
        assert(group_plan(*project).take(g + 1) =~= group_plan(*project).take(g as int).push(
            group_plan(*project)[g as int],
        ));
        assert(step_views(steps@) =~= middle + group_plan(*project).take(g + 1));
        g = g + 1;
    }
    assert(group_plan(*project).take(g as int) =~= group_plan(*project));
    push_step(&mut steps, StoreStep::UpdateIndex);
    assert(step_views(steps@) =~= save_plan(*project, dir_exists));
    steps
}

/// The steps that delete project `id`. Deleting an id that is not on disk
/// is no error: each step applies only where its target exists.
pub fn delete_project_steps(id: &str) -> (r: Vec<StoreStep>)
    ensures
        step_views(r@) == delete_plan(id@),
{
    let mut steps: Vec<StoreStep> = Vec::new();
    assert(step_views(steps@) =~= Seq::<StepView>::empty());
    push_step(&mut steps, StoreStep::RemoveDir(owned(id)));
    push_step(&mut steps, StoreStep::RemoveFromIndex);
    assert(step_views(steps@) =~= delete_plan(id@));
    steps
}

} // verus!
