//! Upload announcements: a metadata row per file, the object key each file
//! is stored under, and the presigned URLs grouped by log name.
use vstd::prelude::*;
use crate::enrichment::FilesEnrichment;
use crate::file_type::{FileType, extension_of};
use crate::files::{FileInput, FilesRow};
use crate::text::{append_decimal, decimal, log_group_of};

verus! {

/// One file a client wants to upload.
#[derive(Debug, Clone)]
pub struct FileUploadInfo {
    pub file_name: String,
    pub log_name: String,
    pub file_size: u64,
    pub file_type: FileType,
    pub step: u64,
    pub time: u64,
}

/// The files of one upload request.
#[derive(Debug, Clone)]
pub struct FileUploadRequest {
    pub files: Vec<FileUploadInfo>,
}

/// Presigned URLs grouped by log name, each group in request order, the
/// groups in the order their log names first appear.
#[derive(Debug, Clone)]
pub struct PresignedUrlResponse {
    pub log_files: Vec<(String, Vec<(String, String)>)>,
}

/// The metadata row of an announced file: its fields, its extension as the
/// file type, and the request context.
pub open spec fn upload_row(r: FilesRow, f: FileUploadInfo, e: FilesEnrichment) -> bool {
    &&& r.tenant_id@ == e.tenant_id@
    &&& r.project_name@ == e.project_name@
    &&& r.run_id == e.run_id
    &&& r.time == f.time
    &&& r.step == f.step
    &&& r.log_group@ == log_group_of(f.log_name@)
    &&& r.log_name@ == f.log_name@
    &&& r.file_name@ == f.file_name@
    &&& r.file_type@ == extension_of(f.file_type)
    &&& r.file_size == f.file_size
}

/// The metadata rows of the announced files, one per file, in order.
pub fn upload_rows(files: &Vec<FileUploadInfo>, enrichment: &FilesEnrichment) -> (rows: Vec<
    FilesRow,
>)
    ensures
        rows@.len() == files@.len(),
        forall|j: int| 0 <= j < files@.len() ==> upload_row(#[trigger] rows@[j], files@[j], *enrichment),
{
    let mut rows: Vec<FilesRow> = Vec::new();
    let mut i: usize = 0;
    while i < files.len()
        invariant
            i <= files@.len(),
            rows@.len() == i,
            forall|j: int| 0 <= j < i ==> upload_row(#[trigger] rows@[j], files@[j], *enrichment),
        decreases files@.len() - i,
    {
        let f = &files[i];
        let input = FileInput {
            log_name: f.log_name.clone(),
            file_name: f.file_name.clone(),
            file_type: f.file_type.extension(),
            time: f.time,
            step: f.step,
            file_size: f.file_size,
        };
        let context = FilesEnrichment {
            tenant_id: enrichment.tenant_id.clone(),
            run_id: enrichment.run_id,
            project_name: enrichment.project_name.clone(),
        };
        match FilesRow::from(input, context) {
            Ok(row) => {
                rows.push(row);
            },
            Err(_) => {},
        }
        i += 1;
    }
    rows
}

/// The object key a file is stored under.
pub open spec fn object_key_of(
    tenant_id: Seq<char>,
    project_name: Seq<char>,
    run_id: u64,
    log_name: Seq<char>,
    file_name: Seq<char>,
) -> Seq<char> {
    tenant_id + "/"@ + project_name + "/"@ + decimal(run_id as nat) + "/"@ + log_name + "/"@
        + file_name
}

/// `{tenant}/{project}/{run}/{log name}/{file name}`.
pub fn object_key(
    tenant_id: &str,
    project_name: &str,
    run_id: u64,
    log_name: &str,
    file_name: &str,
) -> (r: String)
    ensures
        r@ == object_key_of(tenant_id@, project_name@, run_id, log_name@, file_name@),
{
    let mut key = String::from_str(tenant_id);
    key.append("/");
    key.append(project_name);
    key.append("/");
    append_decimal(&mut key, run_id);
    key.append("/");
    key.append(log_name);
    key.append("/");
    key.append(file_name);
    key
}

/// A group: a log name and its (file name, URL) pairs.
pub type GroupView = (Seq<char>, Seq<(Seq<char>, Seq<char>)>);

/// Index of the group named `key`, or -1.
pub open spec fn key_index(g: Seq<GroupView>, key: Seq<char>) -> int
    decreases g.len(),
{
    if g.len() == 0 {
        -1
    } else if g.last().0 == key {
        g.len() - 1
    } else {
        key_index(g.drop_last(), key)
    }
}

/// (log name, file name, URL) results grouped by log name: each result joins
/// the end of its log name's group, and a new log name opens a group at the
/// end.
pub open spec fn grouped(rs: Seq<(Seq<char>, Seq<char>, Seq<char>)>) -> Seq<GroupView>
    decreases rs.len(),
{
    if rs.len() == 0 {
        Seq::empty()
    } else {
        let g = grouped(rs.drop_last());
        let r = rs.last();
        let k = key_index(g, r.0);
        if 0 <= k < g.len() {
            g.update(k, (g[k].0, g[k].1.push((r.1, r.2))))
        } else {
            g.push((r.0, seq![(r.1, r.2)]))
        }
    }
}

/// The characters of (log name, file name, URL) results.
pub open spec fn triples_view(s: Seq<(String, String, String)>) -> Seq<(Seq<char>, Seq<char>, Seq<char>)> {
    Seq::new(s.len(), |i: int| (s[i].0@, s[i].1@, s[i].2@))
}

/// The characters of (file name, URL) pairs.
pub open spec fn pairs_view(s: Seq<(String, String)>) -> Seq<(Seq<char>, Seq<char>)> {
    Seq::new(s.len(), |i: int| (s[i].0@, s[i].1@))
}

/// The characters of groups of (file name, URL) pairs.
pub open spec fn groups_view(s: Seq<(String, Vec<(String, String)>)>) -> Seq<GroupView> {
    Seq::new(s.len(), |i: int| (s[i].0@, pairs_view(s[i].1@)))
}

proof fn lemma_key_index_bounds(g: Seq<GroupView>, key: Seq<char>)
    ensures
        -1 <= key_index(g, key) < g.len(),
        key_index(g, key) >= 0 ==> g[key_index(g, key)].0 == key,
    decreases g.len(),
{
    if g.len() > 0 && g.last().0 != key {
        lemma_key_index_bounds(g.drop_last(), key);
    }
}

/// How many (file name, URL) pairs the groups hold together.
pub open spec fn pair_count(g: Seq<GroupView>) -> nat
    decreases g.len(),
{
    if g.len() == 0 {
        0
    } else {
        pair_count(g.drop_last()) + g.last().1.len()
    }
}

proof fn lemma_key_index_absent(g: Seq<GroupView>, key: Seq<char>)
    ensures
        key_index(g, key) == -1 ==> forall|i: int| 0 <= i < g.len() ==> g[i].0 != key,
    decreases g.len(),
{
    if g.len() > 0 && g.last().0 != key {
        lemma_key_index_absent(g.drop_last(), key);
        assert forall|i: int| 0 <= i < g.len() - 1 implies g[i] == g.drop_last()[i] by {}
    }
}

proof fn lemma_pair_count_update(g: Seq<GroupView>, k: int, x: (Seq<char>, Seq<char>))
    requires
        0 <= k < g.len(),
    ensures
        pair_count(g.update(k, (g[k].0, g[k].1.push(x)))) == pair_count(g) + 1,
    decreases g.len(),
{
    let u = g.update(k, (g[k].0, g[k].1.push(x)));
    if k == g.len() - 1 {
        assert(u.drop_last() =~= g.drop_last());
    } else {
        let d = g.drop_last();
        assert(u.drop_last() =~= d.update(k, (d[k].0, d[k].1.push(x))));
        lemma_pair_count_update(d, k, x);
    }
}

/// Grouping loses and repeats no result: the groups hold as many pairs as
/// there are results, and no two groups share a log name.
pub proof fn lemma_grouping_partitions(rs: Seq<(Seq<char>, Seq<char>, Seq<char>)>)
    ensures
        pair_count(grouped(rs)) == rs.len(),
        forall|i: int, j: int|
            0 <= i < j < grouped(rs).len() ==> grouped(rs)[i].0 != grouped(rs)[j].0,
    decreases rs.len(),
{
    if rs.len() > 0 {
        let g = grouped(rs.drop_last());
        let r = rs.last();
        lemma_grouping_partitions(rs.drop_last());
        lemma_key_index_bounds(g, r.0);
        let k = key_index(g, r.0);
        if 0 <= k < g.len() {
            lemma_pair_count_update(g, k, (r.1, r.2));
        } else {
            lemma_key_index_absent(g, r.0);
            let n = g.push((r.0, seq![(r.1, r.2)]));
            assert(n.drop_last() =~= g);
        }
    }
}

/// Groups (log name, file name, URL) results by log name.
pub fn group_by_log_name(results: Vec<(String, String, String)>) -> (r: PresignedUrlResponse)
    ensures
        groups_view(r.log_files@) == grouped(triples_view(results@)),
{
    let mut groups: Vec<(String, Vec<(String, String)>)> = Vec::new();
    let mut i: usize = 0;
    assert(triples_view(results@).subrange(0, 0) =~= Seq::<(Seq<char>, Seq<char>, Seq<char>)>::empty());
    assert(groups_view(groups@) =~= Seq::<GroupView>::empty());
    while i < results.len()
        invariant
            i <= results@.len(),
            groups_view(groups@) == grouped(triples_view(results@).subrange(0, i as int)),
        decreases results@.len() - i,
    {
        let ghost before = groups_view(groups@);
        let ghost rs = triples_view(results@).subrange(0, i + 1);
        assert(rs.drop_last() =~= triples_view(results@).subrange(0, i as int));
        assert(rs.last() == (results@[i as int].0@, results@[i as int].1@, results@[i as int].2@));
        let log_name = &results[i].0;
        let pair = (results[i].1.clone(), results[i].2.clone());
        let mut j: usize = groups.len();
        let mut found = false;
        assert(before.subrange(0, j as int) =~= before);
        while j > 0
            invariant_except_break
                !found,
            invariant
                j <= groups@.len(),
                before == groups_view(groups@),
                key_index(before, log_name@) == key_index(before.subrange(0, j as int), log_name@),
            ensures
                found ==> 1 <= j <= groups@.len() && key_index(before, log_name@) == j - 1,
                !found ==> key_index(before, log_name@) == -1,
            decreases j,
        {
            if groups[j - 1].0 == *log_name {
                found = true;
                assert(before.subrange(0, j as int).last().0 == log_name@);
                break;
            }
            assert(before.subrange(0, j as int).drop_last() =~= before.subrange(0, j - 1));
            j -= 1;
            if j == 0 {
                assert(before.subrange(0, 0) =~= Seq::<GroupView>::empty());
            }
        }
        proof {
            lemma_key_index_bounds(before, log_name@);
        }
        if found {
            let k = j - 1;
            assert(key_index(before, log_name@) == k);
            let ghost old_pairs = groups@[k as int].1@;
            groups[k].1.push(pair);
            assert(pairs_view(groups@[k as int].1@) =~= pairs_view(old_pairs).push(
                (pair.0@, pair.1@),
            ));
            assert(groups_view(groups@) =~= before.update(
                k as int,
                (before[k as int].0, before[k as int].1.push((pair.0@, pair.1@))),
            ));
        } else {
            assert(key_index(before, log_name@) == -1);
            let name = log_name.clone();
            let mut first: Vec<(String, String)> = Vec::new();
            first.push(pair);
            assert(pairs_view(first@) =~= seq![(pair.0@, pair.1@)]);
            groups.push((name, first));
            assert(groups_view(groups@) =~= before.push((log_name@, seq![(pair.0@, pair.1@)])));
        }
        i += 1;
    }
    assert(triples_view(results@).subrange(0, results@.len() as int) =~= triples_view(results@));
    PresignedUrlResponse { log_files: groups }
}

} // verus!
