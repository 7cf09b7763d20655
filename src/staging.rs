//! Staging: each event record goes to its own file, named by its timestamp,
//! under the staging directory. A record never replaces another one.
use vstd::prelude::*;
use crate::event::{Event, EventView, event_json};
use crate::paths::{joined, join};
use crate::text::{int_text, push_int_text, lemma_int_text_injective};

verus! {

pub open spec fn staging_dir(home: Seq<char>) -> Seq<char> {
    joined(home, "staging"@)
}

pub open spec fn staged_name(timestamp: int) -> Seq<char> {
    int_text(timestamp) + ".json"@
}

/// `<home>/staging/<timestamp>.json`
pub open spec fn staged_path(home: Seq<char>, timestamp: int) -> Seq<char> {
    joined(staging_dir(home), staged_name(timestamp))
}

/// The staging directory under a home directory.
pub fn staging_directory(home: &str) -> (r: String)
    ensures
        r@ == staging_dir(home@),
{
    join(home, "staging")
}

/// The file name of a record staged at `timestamp`.
pub fn staged_file_name(timestamp: i64) -> (r: String)
    ensures
        r@ == staged_name(timestamp as int),
{
    let mut out = String::new();
    push_int_text(&mut out, timestamp);
    out.append(".json");
    out
}

/// The full path of a record staged at `timestamp`.
pub fn staged_file_path(home: &str, timestamp: i64) -> (r: String)
    ensures
        r@ == staged_path(home@, timestamp as int),
{
    let dir = staging_directory(home);
    let name = staged_file_name(timestamp);
    join(dir.as_str(), name.as_str())
}

/// Why staging failed.
#[derive(Debug, Clone, PartialEq, Eq)]
pub enum StageError {
    /// The staging directory is still missing after provisioning.
    StagingDirMissing(String),
    /// A file for this timestamp already exists.
    Collision(String),
    /// Creating or writing the file failed.
    Io(String),
}

impl StageError {
    pub open spec fn fatal(&self) -> bool {
        self is StagingDirMissing || self is Collision
    }

    /// A missing directory or a collision stops the program; the others are
    /// reported to the caller.
    pub fn is_fatal(&self) -> (r: bool)
        ensures
            r == self.fatal(),
    {
        match self {
            StageError::StagingDirMissing(_) => true,
            StageError::Collision(_) => true,
            _ => false,
        }
    }
}

/// A file to create: the directory it goes in, its path and its contents.
#[derive(Debug, Clone, PartialEq, Eq)]
pub struct StagedFile {
    pub directory: String,
    pub path: String,
    pub contents: String,
}

/// What became of creating a staged file with create-new semantics.
#[derive(Debug, Clone, PartialEq, Eq)]
pub enum CreateOutcome {
    Created,
    AlreadyExists,
    Failed(String),
}

/// A directory, as a map from path to contents, after creating the file
/// `path` with create-new semantics: `None`, and no change, when it exists.
pub open spec fn create_new(files: Map<Seq<char>, Seq<char>>, path: Seq<char>, contents: Seq<char>) -> Option<Map<Seq<char>, Seq<char>>> {
    if files.contains_key(path) {
        None
    } else {
        Some(files.insert(path, contents))
    }
}

impl Event {
    /// The file that staging this record creates under `home`: creating it
    /// with create-new semantics is staging the record, as `stage_into`
    /// describes, in every directory.
    pub fn stage_plan(&self, home: &str) -> (r: StagedFile)
        ensures
            r.directory@ == staging_dir(home@),
            r.path@ == staged_path(home@, self@.timestamp),
            r.contents@ == event_json(self@),
            forall|files: Map<Seq<char>, Seq<char>>|
                #[trigger] stage_into(files, home@, self@) == create_new(files, r.path@, r.contents@),
    {
        StagedFile {
            directory: staging_directory(home),
            path: staged_file_path(home, self.timestamp()),
            contents: self.to_json(),
        }
    }
}

/// Staging goes on only into a directory that exists.
pub fn check_staging_directory(dir_exists: bool, file: &StagedFile) -> (r: Result<(), StageError>)
    ensures
        dir_exists ==> r is Ok,
        !dir_exists ==> (r matches Err(StageError::StagingDirMissing(d)) && d@ == file.directory@),
{
    if dir_exists {
        Ok(())
    } else {
        Err(StageError::StagingDirMissing(file.directory.clone()))
    }
}

/// The result of staging from what creating the file gave: an existing file
/// is a collision, never overwritten.
pub fn finish_stage(outcome: CreateOutcome, file: &StagedFile) -> (r: Result<(), StageError>)
    ensures
        outcome is Created ==> r is Ok,
        outcome is AlreadyExists ==> (r matches Err(StageError::Collision(p)) && p@ == file.path@),
        outcome matches CreateOutcome::Failed(m) ==> (r matches Err(StageError::Io(m2)) && m2@ == m@),
{
    match outcome {
        CreateOutcome::Created => Ok(()),
        CreateOutcome::AlreadyExists => Err(StageError::Collision(file.path.clone())),
        CreateOutcome::Failed(m) => Err(StageError::Io(m)),
    }
}

/// The staging directory after staging `e` into it, as a map from path to
/// contents: no change, and `None`, when its file is already there.
pub open spec fn stage_into(files: Map<Seq<char>, Seq<char>>, home: Seq<char>, e: EventView) -> Option<Map<Seq<char>, Seq<char>>> {
    let p = staged_path(home, e.timestamp);
    if files.contains_key(p) {
        None
    } else {
        Some(files.insert(p, event_json(e)))
    }
}

/// Stages the records of `es` in order; `None` at the first collision.
pub open spec fn stage_all(files: Map<Seq<char>, Seq<char>>, home: Seq<char>, es: Seq<EventView>) -> Option<Map<Seq<char>, Seq<char>>>
    decreases es.len(),
{
    if es.len() == 0 {
        Some(files)
    } else {
        match stage_all(files, home, es.drop_last()) {
            Some(m) => stage_into(m, home, es.last()),
            None => None,
        }
    }
}

/// Records staged at different seconds get different paths.
pub proof fn lemma_staged_path_injective(home: Seq<char>, a: int, b: int)
    requires
        staged_path(home, a) == staged_path(home, b),
    ensures
        a == b,
{
    let pre = staging_dir(home) + "/"@;
    let sa = staged_path(home, a);
    let sb = staged_path(home, b);
    assert(sa =~= pre + int_text(a) + ".json"@);
    assert(sb =~= pre + int_text(b) + ".json"@);
    let ja = ".json"@.len();
    assert(int_text(a) =~= sa.subrange(pre.len() as int, sa.len() - ja));
    assert(int_text(b) =~= sb.subrange(pre.len() as int, sb.len() - ja));
    lemma_int_text_injective(a, b);
}

/// Staging records with pairwise distinct timestamps into a directory that
/// holds none of their files succeeds: each record's file then exists, holds
/// that record's JSON, and no two records share a file; nothing else changes.
pub proof fn lemma_distinct_timestamps_all_staged(files: Map<Seq<char>, Seq<char>>, home: Seq<char>, es: Seq<EventView>)
    requires
        forall|i: int, j: int| 0 <= i < j < es.len() ==> es[i].timestamp != es[j].timestamp,
        forall|i: int| 0 <= i < es.len() ==> !files.contains_key(#[trigger] staged_path(home, es[i].timestamp)),
    ensures
        stage_all(files, home, es) matches Some(m) && {
            &&& forall|i: int| 0 <= i < es.len() ==> #[trigger] m.contains_key(staged_path(home, es[i].timestamp))
                && m[staged_path(home, es[i].timestamp)] == event_json(es[i])
            &&& forall|i: int, j: int| 0 <= i < j < es.len() ==> staged_path(home, es[i].timestamp) != staged_path(home, es[j].timestamp)
            &&& forall|k: Seq<char>| #[trigger] m.contains_key(k) && !files.contains_key(k) ==> exists|i: int| 0 <= i < es.len() && k == staged_path(home, es[i].timestamp)
            &&& forall|k: Seq<char>| files.contains_key(k) ==> #[trigger] m.contains_key(k) && m[k] == files[k]
        },
    decreases es.len(),
{
    assert forall|i: int, j: int| 0 <= i < j < es.len() implies staged_path(home, es[i].timestamp) != staged_path(home, es[j].timestamp) by {
        if staged_path(home, es[i].timestamp) == staged_path(home, es[j].timestamp) {
            lemma_staged_path_injective(home, es[i].timestamp, es[j].timestamp);
        }
    }
    if es.len() > 0 {
        let init = es.drop_last();
        assert forall|i: int| 0 <= i < init.len() implies !files.contains_key(#[trigger] staged_path(home, init[i].timestamp)) by {
            assert(init[i] == es[i]);
        }
        lemma_distinct_timestamps_all_staged(files, home, init);
        let m0 = stage_all(files, home, init)->Some_0;
        let n = es.len() - 1;
        let p = staged_path(home, es[n].timestamp);
        assert(es.last() == es[n]);
        if m0.contains_key(p) {
            if !files.contains_key(p) {
                let i = choose|i: int| 0 <= i < init.len() && p == staged_path(home, init[i].timestamp);
                assert(init[i] == es[i]);
                assert(false);
            }
        }
        let m = m0.insert(p, event_json(es[n]));
        assert forall|i: int| 0 <= i < es.len() implies #[trigger] m.contains_key(staged_path(home, es[i].timestamp))
            && m[staged_path(home, es[i].timestamp)] == event_json(es[i]) by {
            if i < n {
                assert(init[i] == es[i]);
            }
        }
        assert forall|k: Seq<char>| #[trigger] m.contains_key(k) && !files.contains_key(k) implies exists|i: int| 0 <= i < es.len() && k == staged_path(home, es[i].timestamp) by {
            if k != p {
                let i = choose|i: int| 0 <= i < init.len() && k == staged_path(home, init[i].timestamp);
                assert(init[i] == es[i]);
            }
        }
    }
}

/// Staging a record whose timestamp equals that of a record already staged
/// fails, and the first record's file keeps its contents.
pub proof fn lemma_collision_rejected(files: Map<Seq<char>, Seq<char>>, home: Seq<char>, first: EventView, second: EventView)
    requires
        first.timestamp == second.timestamp,
        stage_into(files, home, first) is Some,
    ensures
        ({
            let m = stage_into(files, home, first)->Some_0;
            &&& stage_into(m, home, second) is None
            &&& m[staged_path(home, first.timestamp)] == event_json(first)
        }),
{
}

} // verus!
