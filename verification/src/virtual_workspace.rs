//! The files a workspace edit touches, kept in memory while the edit is
//! replayed: their contents now and as first read, which were created or
//! deleted, and the renames in order. Paths are the same path when their
//! components are.
use vstd::prelude::*;

use crate::document::eq_chars;
use crate::roots::{path_parts, path_start, PathStart};
use crate::text::{split_on, string_views};
use crate::unified_exec::normal_pieces;
use crate::text::{decimal, join, join_strings, push_decimal, str_eq};
use crate::tool_args::utf8_bytes;
use crate::workspace_edit::{
    add_file_body, apply_text_edits_utf16, chunk_views, diff_to_update_chunks, edits_outcome, files_touched,
    count_files_touched, lemma_encoded_len, push_add_file_body, unified_line_diff, DIFF_CONTEXT_LINES, update_chunks, EditFailure,
    EditOutcome, PatchLimits, TextEdit,
};

verus! {

/// A path's start and named components.
pub open spec fn path_key(p: Seq<char>) -> (PathStart, Seq<Seq<char>>) {
    (path_start(p), normal_pieces(split_on(p, '/')))
}

/// Whether two paths have the same components (as `PathBuf` compares them).
pub open spec fn same_path(a: Seq<char>, b: Seq<char>) -> bool {
    path_key(a) == path_key(b)
}

/// Whether two paths have the same components.
#[verifier::loop_isolation(false)]
pub fn same_path_exec(a: &str, b: &str) -> (r: bool)
    ensures
        r == same_path(a@, b@),
{
    let (sa, na) = path_parts(a);
    let (sb, nb) = path_parts(b);
    if sa != sb || na.len() != nb.len() {
        assert(crate::text::views(na@).len() == na@.len());
        assert(crate::text::views(nb@).len() == nb@.len());
        return false;
    }
    let mut k: usize = 0;
    while k < na.len()
        invariant
            k <= na@.len() == nb@.len(),
            forall|i: int| 0 <= i < k ==> na@[i]@ == nb@[i]@,
        decreases na@.len() - k,
    {
        if !eq_chars(na[k].as_slice(), nb[k].as_slice()) {
            assert(crate::text::views(na@)[k as int] != crate::text::views(nb@)[k as int]);
            return false;
        }
        k = k + 1;
    }
    assert(crate::text::views(na@) =~= crate::text::views(nb@));
    true
}

/// The position of the first key that is the same path as `p`, or -1.
pub open spec fn key_index(keys: Seq<Seq<char>>, p: Seq<char>) -> int
    decreases keys.len(),
{
    if keys.len() == 0 {
        -1
    } else if same_path(keys[0], p) {
        0
    } else {
        let r = key_index(keys.drop_first(), p);
        if r < 0 {
            -1
        } else {
            r + 1
        }
    }
}

proof fn lemma_key_index_at(keys: Seq<Seq<char>>, p: Seq<char>, i: int)
    requires
        0 <= i < keys.len(),
        same_path(keys[i], p),
        forall|j: int| 0 <= j < i ==> !same_path(#[trigger] keys[j], p),
    ensures
        key_index(keys, p) == i,
    decreases i,
{
    if i > 0 {
        assert forall|j: int| 0 <= j < i - 1 implies !same_path(#[trigger] keys.drop_first()[j], p) by {
            assert(keys.drop_first()[j] == keys[j + 1]);
        }
        lemma_key_index_at(keys.drop_first(), p, i - 1);
    }
}

proof fn lemma_key_index_none(keys: Seq<Seq<char>>, p: Seq<char>)
    requires
        forall|j: int| 0 <= j < keys.len() ==> !same_path(#[trigger] keys[j], p),
    ensures
        key_index(keys, p) == -1,
    decreases keys.len(),
{
    if keys.len() > 0 {
        assert forall|j: int| 0 <= j < keys.len() - 1 implies !same_path(#[trigger] keys.drop_first()[j], p) by {
            assert(keys.drop_first()[j] == keys[j + 1]);
        }
        lemma_key_index_none(keys.drop_first(), p);
    }
}

proof fn lemma_key_index_bounds(keys: Seq<Seq<char>>, p: Seq<char>)
    ensures
        -1 <= key_index(keys, p) < keys.len(),
    decreases keys.len(),
{
    if keys.len() > 0 {
        lemma_key_index_bounds(keys.drop_first(), p);
    }
}

/// File entries (path, contents), as values.
pub open spec fn pair_views(es: Seq<(String, String)>) -> Seq<(Seq<char>, Seq<char>)> {
    es.map_values(|e: (String, String)| (e.0@, e.1@))
}

/// The paths of entries.
pub open spec fn entry_keys(es: Seq<(Seq<char>, Seq<char>)>) -> Seq<Seq<char>> {
    es.map_values(|e: (Seq<char>, Seq<char>)| e.0)
}

/// The contents kept for a path, if any.
pub open spec fn lookup(es: Seq<(Seq<char>, Seq<char>)>, p: Seq<char>) -> Option<Seq<char>> {
    let i = key_index(entry_keys(es), p);
    if i >= 0 {
        Some(es[i].1)
    } else {
        None
    }
}

/// The entries with `p` holding `v`: an entry for the same path keeps its
/// place and spelling; a new path goes last.
pub open spec fn put(es: Seq<(Seq<char>, Seq<char>)>, p: Seq<char>, v: Seq<char>) -> Seq<(Seq<char>, Seq<char>)> {
    let i = key_index(entry_keys(es), p);
    if i >= 0 {
        es.update(i, (es[i].0, v))
    } else {
        es.push((p, v))
    }
}

/// The entries without the one for `p`.
pub open spec fn drop_entry(es: Seq<(Seq<char>, Seq<char>)>, p: Seq<char>) -> Seq<(Seq<char>, Seq<char>)> {
    let i = key_index(entry_keys(es), p);
    if i >= 0 {
        es.remove(i)
    } else {
        es
    }
}

/// Whether `p` is among the paths.
pub open spec fn has_key(ks: Seq<Seq<char>>, p: Seq<char>) -> bool {
    key_index(ks, p) >= 0
}

/// The paths with `p` added last, unless it is there.
pub open spec fn add_key(ks: Seq<Seq<char>>, p: Seq<char>) -> Seq<Seq<char>> {
    if has_key(ks, p) {
        ks
    } else {
        ks.push(p)
    }
}

/// The paths without `p`.
pub open spec fn drop_key(ks: Seq<Seq<char>>, p: Seq<char>) -> Seq<Seq<char>> {
    let i = key_index(ks, p);
    if i >= 0 {
        ks.remove(i)
    } else {
        ks
    }
}

/// A file as it was on disk when the edit was previewed: its contents
/// (empty when it could not be read) and whether it is a regular file.
#[derive(Debug, Clone)]
pub struct DiskFile {
    pub path: String,
    pub contents: String,
    pub is_file: bool,
}

/// The paths of the files on disk.
pub open spec fn disk_keys(disk: Seq<DiskFile>) -> Seq<Seq<char>> {
    disk.map_values(|f: DiskFile| f.path@)
}

/// What reading a file gives: its contents, or nothing when it is not listed.
pub open spec fn disk_text(disk: Seq<DiskFile>, p: Seq<char>) -> Seq<char> {
    let i = key_index(disk_keys(disk), p);
    if i >= 0 {
        disk[i].contents@
    } else {
        Seq::empty()
    }
}

/// Whether a regular file is on disk at `p`.
pub open spec fn disk_is_file(disk: Seq<DiskFile>, p: Seq<char>) -> bool {
    let i = key_index(disk_keys(disk), p);
    i >= 0 && disk[i].is_file
}

/// The state of the in-memory workspace.
pub struct WorkspaceState {
    pub current: Seq<(Seq<char>, Seq<char>)>,
    pub original: Seq<(Seq<char>, Seq<char>)>,
    pub created: Seq<Seq<char>>,
    pub deleted: Seq<Seq<char>>,
    pub renames: Seq<(Seq<char>, Seq<char>)>,
}

/// The empty workspace.
pub open spec fn empty_state() -> WorkspaceState {
    WorkspaceState {
        current: Seq::empty(),
        original: Seq::empty(),
        created: Seq::empty(),
        deleted: Seq::empty(),
        renames: Seq::empty(),
    }
}

/// The workspace once `p` is loaded: read from disk (and remembered as its
/// original contents) unless it is in memory already.
pub open spec fn loaded(ws: WorkspaceState, disk: Seq<DiskFile>, p: Seq<char>) -> WorkspaceState {
    if lookup(ws.current, p) is Some {
        ws
    } else {
        WorkspaceState {
            original: if lookup(ws.original, p) is Some {
                ws.original
            } else {
                ws.original.push((p, disk_text(disk, p)))
            },
            current: ws.current.push((p, disk_text(disk, p))),
            ..ws
        }
    }
}

/// The contents of `p` before the edit: as first read, else from disk.
pub open spec fn original_text(ws: WorkspaceState, disk: Seq<DiskFile>, p: Seq<char>) -> Seq<char> {
    match lookup(ws.original, p) {
        Some(c) => c,
        None => disk_text(disk, p),
    }
}

/// The contents of `p` now, empty when it has none.
pub open spec fn current_text(ws: WorkspaceState, p: Seq<char>) -> Seq<char> {
    match lookup(ws.current, p) {
        Some(c) => c,
        None => Seq::empty(),
    }
}

/// The workspace after creating `p` (empty unless it has contents).
pub open spec fn created_state(ws: WorkspaceState, p: Seq<char>) -> WorkspaceState {
    WorkspaceState {
        created: add_key(ws.created, p),
        deleted: drop_key(ws.deleted, p),
        current: if lookup(ws.current, p) is None {
            ws.current.push((p, Seq::empty()))
        } else {
            ws.current
        },
        ..ws
    }
}

/// The workspace after deleting `p`.
pub open spec fn deleted_state(ws: WorkspaceState, p: Seq<char>) -> WorkspaceState {
    WorkspaceState {
        deleted: add_key(ws.deleted, p),
        created: drop_key(ws.created, p),
        current: drop_entry(ws.current, p),
        ..ws
    }
}

/// The workspace after renaming `old` to `new`: the contents move.
pub open spec fn renamed_state(ws: WorkspaceState, disk: Seq<DiskFile>, old: Seq<char>, new: Seq<char>) -> WorkspaceState {
    let w = loaded(ws, disk, old);
    WorkspaceState {
        current: put(drop_entry(w.current, old), new, current_text(w, old)),
        created: drop_key(w.created, old),
        deleted: drop_key(drop_key(w.deleted, old), new),
        renames: w.renames.push((old, new)),
        original: w.original,
    }
}

/// Where replaying an edit has got to: the workspace, an error, or a text
/// edit that splits a character.
pub enum WorkspaceStep {
    Next(WorkspaceState),
    Failed(Seq<char>),
    Broken,
}

/// The workspace after applying text edits to `p`.
pub open spec fn edited_state(ws: WorkspaceState, disk: Seq<DiskFile>, p: Seq<char>, edits: Seq<TextEdit>) -> WorkspaceStep {
    let w = loaded(ws, disk, p);
    match edits_outcome(current_text(w, p), edits) {
        EditOutcome::Applied(u) => WorkspaceStep::Next(WorkspaceState { current: put(w.current, p, u), ..w }),
        EditOutcome::Failed(e) => WorkspaceStep::Failed(e),
        EditOutcome::Broken => WorkspaceStep::Broken,
    }
}

/// The in-memory workspace.
pub struct VirtualWorkspace {
    current: Vec<(String, String)>,
    original: Vec<(String, String)>,
    created: Vec<String>,
    deleted: Vec<String>,
    renames: Vec<(String, String)>,
}

/// The position of `p` among entries.
fn entry_position(es: &Vec<(String, String)>, p: &str) -> (r: Option<usize>)
    ensures
        match r {
            Some(i) => i < es@.len() && key_index(entry_keys(pair_views(es@)), p@) == i,
            None => key_index(entry_keys(pair_views(es@)), p@) == -1,
        },
{
    let ghost ks = entry_keys(pair_views(es@));
    let mut k: usize = 0;
    while k < es.len()
        invariant
            k <= es@.len(),
            ks == entry_keys(pair_views(es@)),
            forall|j: int| 0 <= j < k ==> !same_path(#[trigger] ks[j], p@),
        decreases es@.len() - k,
    {
        assert(ks[k as int] == es@[k as int].0@);
        if same_path_exec(es[k].0.as_str(), p) {
            proof {
                lemma_key_index_at(ks, p@, k as int);
            }
            return Some(k);
        }
        k = k + 1;
    }
    proof {
        lemma_key_index_none(ks, p@);
    }
    None
}

/// The position of `p` among paths.
fn key_position(ks: &Vec<String>, p: &str) -> (r: Option<usize>)
    ensures
        match r {
            Some(i) => i < ks@.len() && key_index(string_views(ks@), p@) == i,
            None => key_index(string_views(ks@), p@) == -1,
        },
{
    let ghost kv = string_views(ks@);
    let mut k: usize = 0;
    while k < ks.len()
        invariant
            k <= ks@.len(),
            kv == string_views(ks@),
            forall|j: int| 0 <= j < k ==> !same_path(#[trigger] kv[j], p@),
        decreases ks@.len() - k,
    {
        if same_path_exec(ks[k].as_str(), p) {
            proof {
                lemma_key_index_at(kv, p@, k as int);
            }
            return Some(k);
        }
        k = k + 1;
    }
    proof {
        lemma_key_index_none(kv, p@);
    }
    None
}

/// The position of `p` among the files on disk.
fn disk_position(disk: &[DiskFile], p: &str) -> (r: Option<usize>)
    ensures
        match r {
            Some(i) => i < disk@.len() && key_index(disk_keys(disk@), p@) == i,
            None => key_index(disk_keys(disk@), p@) == -1,
        },
{
    let ghost kv = disk_keys(disk@);
    let mut k: usize = 0;
    while k < disk.len()
        invariant
            k <= disk@.len(),
            kv == disk_keys(disk@),
            forall|j: int| 0 <= j < k ==> !same_path(#[trigger] kv[j], p@),
        decreases disk@.len() - k,
    {
        if same_path_exec(disk[k].path.as_str(), p) {
            proof {
                lemma_key_index_at(kv, p@, k as int);
            }
            return Some(k);
        }
        k = k + 1;
    }
    proof {
        lemma_key_index_none(kv, p@);
    }
    None
}

/// Reads a file from the snapshot of the disk.
fn read_disk(disk: &[DiskFile], p: &str) -> (r: String)
    ensures
        r@ == disk_text(disk@, p@),
{
    match disk_position(disk, p) {
        Some(i) => disk[i].contents.clone(),
        None => String::new(),
    }
}

/// Whether a regular file is on disk at `p`.
fn is_file_on_disk(disk: &[DiskFile], p: &str) -> (r: bool)
    ensures
        r == disk_is_file(disk@, p@),
{
    match disk_position(disk, p) {
        Some(i) => disk[i].is_file,
        None => false,
    }
}

/// Sets the contents of `p`.
fn put_entry(es: &mut Vec<(String, String)>, p: &str, v: String)
    ensures
        pair_views(final(es)@) == put(pair_views(old(es)@), p@, v@),
{
    let ghost before = pair_views(es@);
    match entry_position(es, p) {
        Some(i) => {
            let key = es[i].0.clone();
            es.set(i, (key, v));
            assert(pair_views(es@) =~= before.update(i as int, (before[i as int].0, v@)));
        },
        None => {
            es.push((String::from_str(p), v));
            assert(pair_views(es@) =~= before.push((p@, v@)));
        },
    }
}

/// Removes the entry of `p`, giving its contents.
fn take_entry(es: &mut Vec<(String, String)>, p: &str) -> (r: Option<String>)
    ensures
        pair_views(final(es)@) == drop_entry(pair_views(old(es)@), p@),
        match r {
            Some(c) => lookup(pair_views(old(es)@), p@) == Some(c@),
            None => lookup(pair_views(old(es)@), p@) is None,
        },
{
    let ghost before = pair_views(es@);
    match entry_position(es, p) {
        Some(i) => {
            let (_, c) = es.remove(i);
            assert(pair_views(es@) =~= before.remove(i as int));
            Some(c)
        },
        None => None,
    }
}

/// The contents of `p`, if it has an entry.
fn get_entry(es: &Vec<(String, String)>, p: &str) -> (r: Option<String>)
    ensures
        match r {
            Some(c) => lookup(pair_views(es@), p@) == Some(c@),
            None => lookup(pair_views(es@), p@) is None,
        },
{
    match entry_position(es, p) {
        Some(i) => Some(es[i].1.clone()),
        None => None,
    }
}

/// Adds `p` to the paths unless it is there.
fn insert_key(ks: &mut Vec<String>, p: &str)
    ensures
        string_views(final(ks)@) == add_key(string_views(old(ks)@), p@),
{
    let ghost before = string_views(ks@);
    if key_position(ks, p).is_none() {
        ks.push(String::from_str(p));
        assert(string_views(ks@) =~= before.push(p@));
    }
}

/// Removes `p` from the paths.
fn remove_key(ks: &mut Vec<String>, p: &str)
    ensures
        string_views(final(ks)@) == drop_key(string_views(old(ks)@), p@),
{
    let ghost before = string_views(ks@);
    match key_position(ks, p) {
        Some(i) => {
            ks.remove(i);
            assert(string_views(ks@) =~= before.remove(i as int));
        },
        None => {},
    }
}

impl VirtualWorkspace {
    /// The workspace's state.
    pub closed spec fn state(&self) -> WorkspaceState {
        WorkspaceState {
            current: pair_views(self.current@),
            original: pair_views(self.original@),
            created: string_views(self.created@),
            deleted: string_views(self.deleted@),
            renames: pair_views(self.renames@),
        }
    }

    /// An empty workspace.
    pub fn new() -> (r: Self)
        ensures
            r.state() == empty_state(),
    {
        let r = VirtualWorkspace {
            current: Vec::new(),
            original: Vec::new(),
            created: Vec::new(),
            deleted: Vec::new(),
            renames: Vec::new(),
        };
        assert(r.state().current =~= Seq::<(Seq<char>, Seq<char>)>::empty());
        assert(r.state().original =~= Seq::<(Seq<char>, Seq<char>)>::empty());
        assert(r.state().created =~= Seq::<Seq<char>>::empty());
        assert(r.state().deleted =~= Seq::<Seq<char>>::empty());
        assert(r.state().renames =~= Seq::<(Seq<char>, Seq<char>)>::empty());
        r
    }

    /// Loads `p` from disk unless it is in memory already.
    fn ensure_loaded(&mut self, disk: &[DiskFile], p: &str)
        ensures
            final(self).state() == loaded(old(self).state(), disk@, p@),
    {
        if get_entry(&self.current, p).is_some() {
            return;
        }
        let contents = read_disk(disk, p);
        if get_entry(&self.original, p).is_none() {
            let ghost before = pair_views(self.original@);
            self.original.push((String::from_str(p), contents.clone()));
            assert(pair_views(self.original@) =~= before.push((p@, contents@)));
        }
        let ghost before = pair_views(self.current@);
        self.current.push((String::from_str(p), contents));
        assert(pair_views(self.current@) =~= before.push((p@, disk_text(disk@, p@))));
    }

    /// The contents of `p` before the edit.
    pub fn original_contents(&self, disk: &[DiskFile], p: &str) -> (r: String)
        ensures
            r@ == original_text(self.state(), disk@, p@),
    {
        match get_entry(&self.original, p) {
            Some(c) => c,
            None => read_disk(disk, p),
        }
    }

    /// Creates `p`, empty unless it has contents already.
    pub fn create_file(&mut self, p: &str)
        ensures
            final(self).state() == created_state(old(self).state(), p@),
    {
        insert_key(&mut self.created, p);
        remove_key(&mut self.deleted, p);
        if get_entry(&self.current, p).is_none() {
            let ghost before = pair_views(self.current@);
            self.current.push((String::from_str(p), String::new()));
            assert(pair_views(self.current@) =~= before.push((p@, Seq::<char>::empty())));
        }
    }

    /// Deletes `p`.
    pub fn delete_file(&mut self, p: &str)
        ensures
            final(self).state() == deleted_state(old(self).state(), p@),
    {
        insert_key(&mut self.deleted, p);
        remove_key(&mut self.created, p);
        let _ = take_entry(&mut self.current, p);
    }

    /// Renames `old_path` to `new_path`; the contents move with it.
    pub fn rename_file(&mut self, disk: &[DiskFile], old_path: &str, new_path: &str)
        ensures
            final(self).state() == renamed_state(old(self).state(), disk@, old_path@, new_path@),
    {
        self.ensure_loaded(disk, old_path);
        let contents = match take_entry(&mut self.current, old_path) {
            Some(c) => c,
            None => String::new(),
        };
        put_entry(&mut self.current, new_path, contents);
        remove_key(&mut self.created, old_path);
        remove_key(&mut self.deleted, old_path);
        remove_key(&mut self.deleted, new_path);
        let ghost before = pair_views(self.renames@);
        self.renames.push((String::from_str(old_path), String::from_str(new_path)));
        assert(pair_views(self.renames@) =~= before.push((old_path@, new_path@)));
    }

    /// Applies text edits to the contents of `p`.
    pub fn apply_text_edits(&mut self, disk: &[DiskFile], p: &str, edits: &[TextEdit]) -> (r: Result<(), EditFailure>)
        ensures
            match r {
                Ok(()) => edited_state(old(self).state(), disk@, p@, edits@) == WorkspaceStep::Next(final(self).state()),
                Err(EditFailure::Message(e)) => edited_state(old(self).state(), disk@, p@, edits@) == WorkspaceStep::Failed(e@),
                Err(EditFailure::SplitCharacter) => edited_state(old(self).state(), disk@, p@, edits@) is Broken,
            },
    {
        self.ensure_loaded(disk, p);
        let contents = match get_entry(&self.current, p) {
            Some(c) => c,
            None => String::new(),
        };
        match apply_text_edits_utf16(contents.as_str(), edits) {
            Ok(updated) => {
                put_entry(&mut self.current, p, updated);
                Ok(())
            },
            Err(e) => Err(e),
        }
    }
}

/// Whether a rename moves a file from or to `p`.
pub open spec fn renamed(rs: Seq<(Seq<char>, Seq<char>)>, p: Seq<char>) -> bool
    decreases rs.len(),
{
    rs.len() > 0 && (renamed(rs.drop_last(), p) || same_path(rs.last().0, p) || same_path(rs.last().1, p))
}

/// The patch lines of update chunks: each after an `@@` line.
pub open spec fn chunk_lines(chunks: Seq<Seq<Seq<char>>>) -> Seq<Seq<char>>
    decreases chunks.len(),
{
    if chunks.len() == 0 {
        Seq::empty()
    } else {
        chunk_lines(chunks.drop_last()) + seq!["@@"@] + chunks.last()
    }
}

/// The patch lines of a rename: when the contents did not change, the new
/// file added and the old one deleted; otherwise an update of the old file
/// moved to the new path.
pub open spec fn rename_hunk(ws: WorkspaceState, disk: Seq<DiskFile>, r: (Seq<char>, Seq<char>)) -> Result<Seq<Seq<char>>, Seq<char>> {
    if original_text(ws, disk, r.0) == current_text(ws, r.1) {
        Ok(seq!["*** Add File: "@ + r.1] + add_file_body(current_text(ws, r.1)) + seq!["*** Delete File: "@ + r.0])
    } else {
        match update_chunks(unified_line_diff(DIFF_CONTEXT_LINES, original_text(ws, disk, r.0), current_text(ws, r.1))) {
            Err(e) => Err(e),
            Ok(chunks) => Ok(seq!["*** Update File: "@ + r.0, "*** Move to: "@ + r.1] + chunk_lines(chunks)),
        }
    }
}

/// The patch lines of the renames, in order.
pub open spec fn rename_lines(ws: WorkspaceState, disk: Seq<DiskFile>, rs: Seq<(Seq<char>, Seq<char>)>) -> Result<Seq<Seq<char>>, Seq<char>>
    decreases rs.len(),
{
    if rs.len() == 0 {
        Ok(Seq::empty())
    } else {
        match rename_lines(ws, disk, rs.drop_last()) {
            Err(e) => Err(e),
            Ok(prev) => match rename_hunk(ws, disk, rs.last()) {
                Err(e) => Err(e),
                Ok(h) => Ok(prev + h),
            },
        }
    }
}

/// The patch lines of the deletions not covered by a rename.
pub open spec fn delete_lines(ws: WorkspaceState, ks: Seq<Seq<char>>) -> Seq<Seq<char>>
    decreases ks.len(),
{
    if ks.len() == 0 {
        Seq::empty()
    } else {
        delete_lines(ws, ks.drop_last()) + if renamed(ws.renames, ks.last()) {
            Seq::<Seq<char>>::empty()
        } else {
            seq!["*** Delete File: "@ + ks.last()]
        }
    }
}

/// The patch lines of a file in memory not covered by a rename or a
/// deletion: added when it is new (or not a regular file on disk), updated
/// when its contents changed, nothing otherwise.
pub open spec fn current_hunk(ws: WorkspaceState, disk: Seq<DiskFile>, e: (Seq<char>, Seq<char>)) -> Result<Seq<Seq<char>>, Seq<char>> {
    if renamed(ws.renames, e.0) || has_key(ws.deleted, e.0) {
        Ok(Seq::empty())
    } else if !disk_is_file(disk, e.0) || has_key(ws.created, e.0) {
        Ok(seq!["*** Add File: "@ + e.0] + add_file_body(e.1))
    } else if original_text(ws, disk, e.0) == e.1 {
        Ok(Seq::empty())
    } else {
        match update_chunks(unified_line_diff(DIFF_CONTEXT_LINES, original_text(ws, disk, e.0), e.1)) {
            Err(err) => Err(err),
            Ok(chunks) => Ok(seq!["*** Update File: "@ + e.0] + chunk_lines(chunks)),
        }
    }
}

/// The patch lines of the files in memory, in order.
pub open spec fn current_lines(ws: WorkspaceState, disk: Seq<DiskFile>, es: Seq<(Seq<char>, Seq<char>)>) -> Result<Seq<Seq<char>>, Seq<char>>
    decreases es.len(),
{
    if es.len() == 0 {
        Ok(Seq::empty())
    } else {
        match current_lines(ws, disk, es.drop_last()) {
            Err(e) => Err(e),
            Ok(prev) => match current_hunk(ws, disk, es.last()) {
                Err(e) => Err(e),
                Ok(h) => Ok(prev + h),
            },
        }
    }
}

/// The patch around its lines.
pub open spec fn patch_text(lines: Seq<Seq<char>>) -> Seq<char> {
    "*** Begin Patch\n"@ + join(lines, "\n"@) + "\n*** End Patch"@
}

/// The error for a patch that touches too many files.
pub open spec fn touches_error(n: nat, max: nat) -> Seq<char> {
    "preview touches "@ + decimal(n) + " files, exceeding limit "@ + decimal(max)
}

/// The error for a patch that is too long.
pub open spec fn size_error(n: nat, max: nat) -> Seq<char> {
    "preview patch is "@ + decimal(n) + " bytes, exceeding limit "@ + decimal(max)
}

/// The patch for the workspace: renames first, then deletions, then added
/// and updated files; refused when it touches more files or has more bytes
/// than the limits allow.
pub open spec fn build_patch(ws: WorkspaceState, disk: Seq<DiskFile>, limits: PatchLimits) -> Result<Seq<char>, Seq<char>> {
    match rename_lines(ws, disk, ws.renames) {
        Err(e) => Err(e),
        Ok(l1) => match current_lines(ws, disk, ws.current) {
            Err(e) => Err(e),
            Ok(l3) => if files_touched(l1 + delete_lines(ws, ws.deleted) + l3) > limits.max_files_touched {
                Err(touches_error(files_touched(l1 + delete_lines(ws, ws.deleted) + l3), limits.max_files_touched as nat))
            } else if utf8_bytes(patch_text(l1 + delete_lines(ws, ws.deleted) + l3)) > limits.max_patch_bytes {
                Err(size_error(utf8_bytes(patch_text(l1 + delete_lines(ws, ws.deleted) + l3)), limits.max_patch_bytes as nat))
            } else {
                Ok(patch_text(l1 + delete_lines(ws, ws.deleted) + l3))
            },
        },
    }
}

/// Appends a line made of `head` and `tail`.
fn push_line(hunks: &mut Vec<String>, head: &str, tail: &str)
    ensures
        string_views(final(hunks)@) == string_views(old(hunks)@).push(head@ + tail@),
{
    let mut l = String::from_str(head);
    l.append(tail);
    let ghost before = string_views(hunks@);
    hunks.push(l);
    assert(string_views(hunks@) =~= before.push(head@ + tail@));
}

/// Appends the lines of update chunks.
fn push_chunks(hunks: &mut Vec<String>, chunks: &Vec<Vec<String>>)
    ensures
        string_views(final(hunks)@) == string_views(old(hunks)@) + chunk_lines(chunk_views(chunks@)),
{
    let ghost cv = chunk_views(chunks@);
    let ghost start = string_views(hunks@);
    let mut k: usize = 0;
    assert(cv.take(0) =~= Seq::<Seq<Seq<char>>>::empty());
    assert(start + chunk_lines(cv.take(0)) =~= start);
    while k < chunks.len()
        invariant
            k <= chunks@.len(),
            cv == chunk_views(chunks@),
            string_views(hunks@) == start + chunk_lines(cv.take(k as int)),
        decreases chunks@.len() - k,
    {
        assert(cv.take(k + 1).drop_last() =~= cv.take(k as int));
        let ghost before = string_views(hunks@);
        push_line(hunks, "@@", "");
        let chunk = &chunks[k];
        let mut j: usize = 0;
        let ghost lv = string_views(chunk@);
        assert(before.push("@@"@ + ""@) =~= before + seq!["@@"@]) by {
            assert("@@"@ + ""@ =~= "@@"@) by {
                reveal_strlit("");
            }
        }
        while j < chunk.len()
            invariant
                j <= chunk@.len(),
                lv == string_views(chunk@),
                string_views(hunks@) == before + seq!["@@"@] + lv.take(j as int),
            decreases chunk@.len() - j,
        {
            let ghost b2 = string_views(hunks@);
            hunks.push(chunk[j].clone());
            assert(string_views(hunks@) =~= b2.push(lv[j as int]));
            j = j + 1;
            assert(lv.take(j as int) =~= lv.take(j - 1).push(lv[j - 1]));
        }
        assert(lv.take(chunk@.len() as int) =~= lv);
        assert(cv[k as int] == lv);
        k = k + 1;
        assert(string_views(hunks@) =~= start + chunk_lines(cv.take(k as int)));
    }
    assert(cv.take(chunks@.len() as int) =~= cv);
}

/// Whether a rename moves a file from or to `p`.
fn is_renamed(rs: &Vec<(String, String)>, p: &str) -> (r: bool)
    ensures
        r == renamed(pair_views(rs@), p@),
{
    let ghost rv = pair_views(rs@);
    let mut found = false;
    let mut k: usize = 0;
    assert(rv.take(0) =~= Seq::<(Seq<char>, Seq<char>)>::empty());
    while k < rs.len()
        invariant
            k <= rs@.len(),
            rv == pair_views(rs@),
            found == renamed(rv.take(k as int), p@),
        decreases rs@.len() - k,
    {
        assert(rv.take(k + 1).drop_last() =~= rv.take(k as int));
        assert(rv.take(k + 1).last() == (rs@[k as int].0@, rs@[k as int].1@));
        if same_path_exec(rs[k].0.as_str(), p) || same_path_exec(rs[k].1.as_str(), p) {
            found = true;
        }
        k = k + 1;
    }
    assert(rv.take(rs@.len() as int) =~= rv);
    found
}

/// Builds the patch for the workspace, within the limits.
pub fn build_apply_patch(ws: &VirtualWorkspace, disk: &[DiskFile], limits: PatchLimits) -> (r: Result<String, String>)
    ensures
        match r {
            Ok(p) => build_patch(ws.state(), disk@, limits) == Ok::<Seq<char>, Seq<char>>(p@),
            Err(e) => build_patch(ws.state(), disk@, limits) == Err::<Seq<char>, Seq<char>>(e@),
        },
{
    let ghost st = ws.state();
    let mut hunks: Vec<String> = Vec::new();
    // Renames first, so that later updates to a destination apply cleanly.
    let ghost rv = st.renames;
    let mut k: usize = 0;
    assert(rv.take(0) =~= Seq::<(Seq<char>, Seq<char>)>::empty());
    assert(string_views(hunks@) =~= Seq::<Seq<char>>::empty());
    while k < ws.renames.len()
        invariant
            k <= ws.renames@.len(),
            st == ws.state(),
            rv == st.renames,
            rename_lines(st, disk@, rv.take(k as int)) == Ok::<Seq<Seq<char>>, Seq<char>>(string_views(hunks@)),
        decreases ws.renames@.len() - k,
    {
        assert(rv.take(k + 1).drop_last() =~= rv.take(k as int));
        let old_path = ws.renames[k].0.as_str();
        let new_path = ws.renames[k].1.as_str();
        assert(rv.take(k + 1).last() == (old_path@, new_path@));
        let old_contents = ws.original_contents(disk, old_path);
        let new_contents = match get_entry(&ws.current, new_path) {
            Some(c) => c,
            None => String::new(),
        };
        let ghost before = string_views(hunks@);
        if str_eq(old_contents.as_str(), new_contents.as_str()) {
            push_line(&mut hunks, "*** Add File: ", new_path);
            push_add_file_body(&mut hunks, new_contents.as_str());
            push_line(&mut hunks, "*** Delete File: ", old_path);
            assert(string_views(hunks@) =~= before + (seq!["*** Add File: "@ + new_path@] + add_file_body(new_contents@)
                + seq!["*** Delete File: "@ + old_path@]));
        } else {
            match diff_to_update_chunks(old_contents.as_str(), new_contents.as_str()) {
                Err(e) => {
                    proof {
                        lemma_rename_lines_err(st, disk@, rv, k as int);
                    }
                    return Err(e);
                },
                Ok(chunks) => {
                    push_line(&mut hunks, "*** Update File: ", old_path);
                    push_line(&mut hunks, "*** Move to: ", new_path);
                    push_chunks(&mut hunks, &chunks);
                    assert(string_views(hunks@) =~= before + (seq!["*** Update File: "@ + old_path@, "*** Move to: "@
                        + new_path@] + chunk_lines(chunk_views(chunks@))));
                },
            }
        }
        k = k + 1;
    }
    assert(rv.take(ws.renames@.len() as int) =~= rv);
    let ghost l1 = string_views(hunks@);
    // Deletions.
    let ghost dv = st.deleted;
    let mut k: usize = 0;
    assert(dv.take(0) =~= Seq::<Seq<char>>::empty());
    assert(l1 + delete_lines(st, dv.take(0)) =~= l1);
    while k < ws.deleted.len()
        invariant
            k <= ws.deleted@.len(),
            st == ws.state(),
            dv == st.deleted,
            string_views(hunks@) == l1 + delete_lines(st, dv.take(k as int)),
        decreases ws.deleted@.len() - k,
    {
        assert(dv.take(k + 1).drop_last() =~= dv.take(k as int));
        let p = ws.deleted[k].as_str();
        assert(dv.take(k + 1).last() == p@);
        let ghost before = string_views(hunks@);
        if !is_renamed(&ws.renames, p) {
            push_line(&mut hunks, "*** Delete File: ", p);
        }
        k = k + 1;
        assert(string_views(hunks@) =~= l1 + delete_lines(st, dv.take(k as int)));
    }
    assert(dv.take(ws.deleted@.len() as int) =~= dv);
    let ghost l2 = string_views(hunks@);
    // Added and updated files.
    let ghost cv = st.current;
    let mut k: usize = 0;
    assert(cv.take(0) =~= Seq::<(Seq<char>, Seq<char>)>::empty());
    assert(l2 + Seq::<Seq<char>>::empty() =~= l2);
    while k < ws.current.len()
        invariant
            k <= ws.current@.len(),
            st == ws.state(),
            cv == st.current,
            rename_lines(st, disk@, st.renames) == Ok::<Seq<Seq<char>>, Seq<char>>(l1),
            l2 == l1 + delete_lines(st, st.deleted),
            current_lines(st, disk@, cv.take(k as int)) matches Ok(l3) && string_views(hunks@) == l2 + l3,
        decreases ws.current@.len() - k,
    {
        assert(cv.take(k + 1).drop_last() =~= cv.take(k as int));
        let p = ws.current[k].0.as_str();
        let contents = ws.current[k].1.as_str();
        assert(cv.take(k + 1).last() == (p@, contents@));
        let ghost before = string_views(hunks@);
        let ghost prev = current_lines(st, disk@, cv.take(k as int))->Ok_0;
        if is_renamed(&ws.renames, p) || key_position(&ws.deleted, p).is_some() {
            assert(before + Seq::<Seq<char>>::empty() =~= before);
            assert(prev + Seq::<Seq<char>>::empty() =~= prev);
        } else if !is_file_on_disk(disk, p) || key_position(&ws.created, p).is_some() {
            push_line(&mut hunks, "*** Add File: ", p);
            push_add_file_body(&mut hunks, contents);
            assert(string_views(hunks@) =~= l2 + (prev + (seq!["*** Add File: "@ + p@] + add_file_body(contents@))));
        } else {
            let old_contents = ws.original_contents(disk, p);
            if str_eq(old_contents.as_str(), contents) {
                assert(before + Seq::<Seq<char>>::empty() =~= before);
                assert(prev + Seq::<Seq<char>>::empty() =~= prev);
            } else {
                match diff_to_update_chunks(old_contents.as_str(), contents) {
                    Err(e) => {
                        proof {
                            lemma_current_lines_err(st, disk@, cv, k as int);
                        }
                        return Err(e);
                    },
                    Ok(chunks) => {
                        push_line(&mut hunks, "*** Update File: ", p);
                        push_chunks(&mut hunks, &chunks);
                        assert(string_views(hunks@) =~= l2 + (prev + (seq!["*** Update File: "@ + p@] + chunk_lines(
                            chunk_views(chunks@),
                        ))));
                    },
                }
            }
        }
        k = k + 1;
    }
    assert(cv.take(ws.current@.len() as int) =~= cv);
    let ghost lines = string_views(hunks@);
    assert(lines =~= l1 + delete_lines(st, st.deleted) + current_lines(st, disk@, st.current)->Ok_0);
    // Limits.
    let file_touches = count_files_touched(hunks.as_slice());
    if file_touches > limits.max_files_touched {
        let mut e = String::from_str("preview touches ");
        push_decimal(&mut e, file_touches as u64);
        e.append(" files, exceeding limit ");
        push_decimal(&mut e, limits.max_files_touched as u64);
        return Err(e);
    }
    let body = join_strings(&hunks, "\n");
    let mut patch = String::from_str("*** Begin Patch\n");
    patch.append(body.as_str());
    patch.append("\n*** End Patch");
    let size = patch.as_str().as_bytes().len();
    proof {
        lemma_encoded_len(patch@);
    }
    if size > limits.max_patch_bytes {
        let mut e = String::from_str("preview patch is ");
        push_decimal(&mut e, size as u64);
        e.append(" bytes, exceeding limit ");
        push_decimal(&mut e, limits.max_patch_bytes as u64);
        return Err(e);
    }
    Ok(patch)
}

/// An error on rename `k` is the error of all the renames.
proof fn lemma_rename_lines_err(ws: WorkspaceState, disk: Seq<DiskFile>, rs: Seq<(Seq<char>, Seq<char>)>, k: int)
    requires
        0 <= k < rs.len(),
        rename_lines(ws, disk, rs.take(k)) is Ok,
        rename_hunk(ws, disk, rs[k]) is Err,
    ensures
        rename_lines(ws, disk, rs) == rename_lines(ws, disk, rs.take(k + 1)),
        rename_lines(ws, disk, rs) == Err::<Seq<Seq<char>>, Seq<char>>(rename_hunk(ws, disk, rs[k])->Err_0),
{
    assert(rs.take(k + 1).drop_last() =~= rs.take(k));
    assert(rs.take(k + 1).last() == rs[k]);
    lemma_rename_lines_err_extends(ws, disk, rs, k + 1);
}

/// Once the renames fail, more renames fail the same way.
proof fn lemma_rename_lines_err_extends(ws: WorkspaceState, disk: Seq<DiskFile>, rs: Seq<(Seq<char>, Seq<char>)>, n: int)
    requires
        0 < n <= rs.len(),
        rename_lines(ws, disk, rs.take(n)) is Err,
    ensures
        rename_lines(ws, disk, rs) == rename_lines(ws, disk, rs.take(n)),
    decreases rs.len() - n,
{
    if n < rs.len() {
        assert(rs.take(n + 1).drop_last() =~= rs.take(n));
        lemma_rename_lines_err_extends(ws, disk, rs, n + 1);
    } else {
        assert(rs.take(n) =~= rs);
    }
}

/// An error on file `k` is the error of all the files.
proof fn lemma_current_lines_err(ws: WorkspaceState, disk: Seq<DiskFile>, es: Seq<(Seq<char>, Seq<char>)>, k: int)
    requires
        0 <= k < es.len(),
        current_lines(ws, disk, es.take(k)) is Ok,
        current_hunk(ws, disk, es[k]) is Err,
    ensures
        current_lines(ws, disk, es) == Err::<Seq<Seq<char>>, Seq<char>>(current_hunk(ws, disk, es[k])->Err_0),
{
    assert(es.take(k + 1).drop_last() =~= es.take(k));
    assert(es.take(k + 1).last() == es[k]);
    lemma_current_lines_err_extends(ws, disk, es, k + 1);
}

/// Once the files fail, more files fail the same way.
proof fn lemma_current_lines_err_extends(ws: WorkspaceState, disk: Seq<DiskFile>, es: Seq<(Seq<char>, Seq<char>)>, n: int)
    requires
        0 < n <= es.len(),
        current_lines(ws, disk, es.take(n)) is Err,
    ensures
        current_lines(ws, disk, es) == current_lines(ws, disk, es.take(n)),
    decreases es.len() - n,
{
    if n < es.len() {
        assert(es.take(n + 1).drop_last() =~= es.take(n));
        lemma_current_lines_err_extends(ws, disk, es, n + 1);
    } else {
        assert(es.take(n) =~= es);
    }
}

} // verus!
