//! Replaying a language server's workspace edit in memory and rendering it
//! as an `apply_patch` patch.
use vstd::prelude::*;

use crate::lsp_format::uri_file_path;
use crate::virtual_workspace::{
    build_apply_patch, build_patch, created_state, deleted_state, edited_state, empty_state, renamed_state,
    DiskFile, VirtualWorkspace, WorkspaceState, WorkspaceStep,
};
use crate::workspace_edit::{EditFailure, PatchLimits, TextEdit};

verus! {

/// A step of a workspace edit, its paths already taken from their URIs (a
/// path is the error its URI gave, when it gave one).
#[derive(Debug)]
pub enum WorkspaceOp {
    Edit { path: Result<String, String>, edits: Vec<TextEdit> },
    Create { path: Result<String, String> },
    Rename { old_path: Result<String, String>, new_path: Result<String, String> },
    Delete { path: Result<String, String> },
}

/// A path or the error its URI gave, as a value.
pub open spec fn path_view(p: Result<String, String>) -> Result<Seq<char>, Seq<char>> {
    match p {
        Ok(x) => Ok(x@),
        Err(e) => Err(e@),
    }
}

/// The workspace after one step.
pub open spec fn op_step(ws: WorkspaceState, disk: Seq<DiskFile>, op: WorkspaceOp) -> WorkspaceStep {
    match op {
        WorkspaceOp::Edit { path, edits } => match path_view(path) {
            Err(e) => WorkspaceStep::Failed(e),
            Ok(p) => edited_state(ws, disk, p, edits@),
        },
        WorkspaceOp::Create { path } => match path_view(path) {
            Err(e) => WorkspaceStep::Failed(e),
            Ok(p) => WorkspaceStep::Next(created_state(ws, p)),
        },
        WorkspaceOp::Rename { old_path, new_path } => match path_view(old_path) {
            Err(e) => WorkspaceStep::Failed(e),
            Ok(o) => match path_view(new_path) {
                Err(e) => WorkspaceStep::Failed(e),
                Ok(n) => WorkspaceStep::Next(renamed_state(ws, disk, o, n)),
            },
        },
        WorkspaceOp::Delete { path } => match path_view(path) {
            Err(e) => WorkspaceStep::Failed(e),
            Ok(p) => WorkspaceStep::Next(deleted_state(ws, p)),
        },
    }
}

/// The workspace after the steps, in order, from an empty one; the first
/// failing step ends the replay.
pub open spec fn run_ops(disk: Seq<DiskFile>, ops: Seq<WorkspaceOp>) -> WorkspaceStep
    decreases ops.len(),
{
    if ops.len() == 0 {
        WorkspaceStep::Next(empty_state())
    } else {
        match run_ops(disk, ops.drop_last()) {
            WorkspaceStep::Next(ws) => op_step(ws, disk, ops.last()),
            other => other,
        }
    }
}

/// What previewing a workspace edit comes to: the patch, an error, or a
/// text edit that splits a character.
pub enum PatchOutcome {
    Patch(Seq<char>),
    Failed(Seq<char>),
    Broken,
}

/// The patch of the steps, within the limits.
pub open spec fn ops_patch(disk: Seq<DiskFile>, ops: Seq<WorkspaceOp>, limits: PatchLimits) -> PatchOutcome {
    match run_ops(disk, ops) {
        WorkspaceStep::Next(ws) => match build_patch(ws, disk, limits) {
            Ok(p) => PatchOutcome::Patch(p),
            Err(e) => PatchOutcome::Failed(e),
        },
        WorkspaceStep::Failed(e) => PatchOutcome::Failed(e),
        WorkspaceStep::Broken => PatchOutcome::Broken,
    }
}

/// Once the replay stops, more steps change nothing.
proof fn lemma_run_ops_stops(disk: Seq<DiskFile>, ops: Seq<WorkspaceOp>, n: int)
    requires
        0 < n <= ops.len(),
        !(run_ops(disk, ops.take(n)) is Next),
    ensures
        run_ops(disk, ops) == run_ops(disk, ops.take(n)),
    decreases ops.len() - n,
{
    if n < ops.len() {
        assert(ops.take(n + 1).drop_last() =~= ops.take(n));
        lemma_run_ops_stops(disk, ops, n + 1);
    } else {
        assert(ops.take(n) =~= ops);
    }
}

/// Replays the steps in memory and renders the patch, within the limits.
pub fn workspace_ops_to_patch(ops: &[WorkspaceOp], disk: &[DiskFile], limits: PatchLimits) -> (r: Result<String, EditFailure>)
    ensures
        match r {
            Ok(p) => ops_patch(disk@, ops@, limits) == PatchOutcome::Patch(p@),
            Err(EditFailure::Message(e)) => ops_patch(disk@, ops@, limits) == PatchOutcome::Failed(e@),
            Err(EditFailure::SplitCharacter) => ops_patch(disk@, ops@, limits) is Broken,
        },
{
    let mut ws = VirtualWorkspace::new();
    let mut k: usize = 0;
    assert(ops@.take(0) =~= Seq::<WorkspaceOp>::empty());
    while k < ops.len()
        invariant
            k <= ops@.len(),
            run_ops(disk@, ops@.take(k as int)) == WorkspaceStep::Next(ws.state()),
        decreases ops@.len() - k,
    {
        assert(ops@.take(k + 1).drop_last() =~= ops@.take(k as int));
        assert(ops@.take(k + 1).last() == ops@[k as int]);
        let failed: Option<EditFailure> = match &ops[k] {
            WorkspaceOp::Edit { path, edits } => match path {
                Err(e) => Some(EditFailure::Message(e.clone())),
                Ok(p) => match ws.apply_text_edits(disk, p.as_str(), edits.as_slice()) {
                    Ok(()) => None,
                    Err(f) => Some(f),
                },
            },
            WorkspaceOp::Create { path } => match path {
                Err(e) => Some(EditFailure::Message(e.clone())),
                Ok(p) => {
                    ws.create_file(p.as_str());
                    None
                },
            },
            WorkspaceOp::Rename { old_path, new_path } => match old_path {
                Err(e) => Some(EditFailure::Message(e.clone())),
                Ok(o) => match new_path {
                    Err(e) => Some(EditFailure::Message(e.clone())),
                    Ok(n) => {
                        ws.rename_file(disk, o.as_str(), n.as_str());
                        None
                    },
                },
            },
            WorkspaceOp::Delete { path } => match path {
                Err(e) => Some(EditFailure::Message(e.clone())),
                Ok(p) => {
                    ws.delete_file(p.as_str());
                    None
                },
            },
        };
        match failed {
            Some(f) => {
                proof {
                    lemma_run_ops_stops(disk@, ops@, k + 1);
                }
                return Err(f);
            },
            None => {},
        }
        k = k + 1;
    }
    assert(ops@.take(ops@.len() as int) =~= ops@);
    match build_apply_patch(&ws, disk, limits) {
        Ok(p) => Ok(p),
        Err(e) => Err(EditFailure::Message(e)),
    }
}

/// A document change of a workspace edit.
#[derive(Debug)]
pub enum DocumentChange {
    Edit { uri: String, edits: Vec<TextEdit> },
    Create { uri: String },
    Rename { old_uri: String, new_uri: String },
    Delete { uri: String },
}

/// A language server's workspace edit: text edits by document, then
/// document changes in order.
#[derive(Debug)]
pub struct WorkspaceEdit {
    pub changes: Option<Vec<(String, Vec<TextEdit>)>>,
    pub document_changes: Option<Vec<DocumentChange>>,
}

/// The error for a URI that does not parse, with the parser's message.
pub open spec fn invalid_uri_error(uri: Seq<char>, message: Seq<char>) -> Seq<char> {
    "invalid URI '"@ + uri + "': "@ + message
}

/// The error for a URI that names no local file.
pub open spec fn not_a_file_error(uri: Seq<char>) -> Seq<char> {
    "URI is not a file path: "@ + uri
}

/// Whether `p` is what a URI can give: some path, or one of its errors.
pub open spec fn uri_path(p: Result<String, String>, uri: Seq<char>) -> bool {
    match p {
        Ok(_) => true,
        Err(e) => e@ == not_a_file_error(uri) || exists|m: Seq<char>| e@ == #[trigger] invalid_uri_error(uri, m),
    }
}

/// What a URI gives once the `url` crate has looked at it (`found`: the
/// path, or `Some` parse error text, or `None` when the URI names no local
/// file): the path itself, or the error saying why there is none.
pub fn uri_path_from_lookup(uri: &str, found: Result<String, Option<String>>) -> (r: Result<String, String>)
    ensures
        match found {
            Ok(p) => r matches Ok(q) && q@ == p@,
            Err(Some(m)) => r matches Err(e) && e@ == invalid_uri_error(uri@, m@),
            Err(None) => r matches Err(e) && e@ == not_a_file_error(uri@),
        },
{
    match found {
        Ok(p) => Ok(p),
        Err(Some(m)) => {
            let mut e = String::from_str("invalid URI '");
            e.append(uri);
            e.append("': ");
            e.append(m.as_str());
            Err(e)
        },
        Err(None) => {
            let mut e = String::from_str("URI is not a file path: ");
            e.append(uri);
            Err(e)
        },
    }
}

/// The file path a URI names, or the error saying why it names none.
fn path_from_uri(uri: &str) -> (r: Result<String, String>)
    ensures
        uri_path(r, uri@),
{
    let found = uri_file_path(uri);
    let ghost f = found;
    let r = uri_path_from_lookup(uri, found);
    proof {
        if let Err(Some(m)) = f {
            assert(r matches Err(e) && e@ == invalid_uri_error(uri@, m@));
        }
    }
    r
}

/// Whether a step follows a document's text edits.
pub open spec fn op_follows_change(op: WorkspaceOp, uri: Seq<char>, edits: Seq<TextEdit>) -> bool {
    op matches WorkspaceOp::Edit { path, edits: e } && e@ == edits && uri_path(path, uri)
}

/// Whether a step follows a document change.
pub open spec fn op_follows_document_change(op: WorkspaceOp, dc: DocumentChange) -> bool {
    match dc {
        DocumentChange::Edit { uri, edits } => op matches WorkspaceOp::Edit { path, edits: e } && e@ == edits@
            && uri_path(path, uri@),
        DocumentChange::Create { uri } => op matches WorkspaceOp::Create { path } && uri_path(path, uri@),
        DocumentChange::Rename { old_uri, new_uri } => op matches WorkspaceOp::Rename { old_path, new_path }
            && uri_path(old_path, old_uri@) && uri_path(new_path, new_uri@),
        DocumentChange::Delete { uri } => op matches WorkspaceOp::Delete { path } && uri_path(path, uri@),
    }
}

/// The text edits by document of a workspace edit.
pub open spec fn edit_changes(edit: WorkspaceEdit) -> Seq<(String, Vec<TextEdit>)> {
    match edit.changes {
        Some(v) => v@,
        None => Seq::empty(),
    }
}

/// The document changes of a workspace edit.
pub open spec fn edit_document_changes(edit: WorkspaceEdit) -> Seq<DocumentChange> {
    match edit.document_changes {
        Some(v) => v@,
        None => Seq::empty(),
    }
}

/// Whether the steps follow a workspace edit: one per document's text
/// edits, then one per document change, in order.
pub open spec fn ops_follow_edit(ops: Seq<WorkspaceOp>, edit: WorkspaceEdit) -> bool {
    &&& ops.len() == edit_changes(edit).len() + edit_document_changes(edit).len()
    &&& forall|i: int|
        0 <= i < edit_changes(edit).len() ==> op_follows_change(
            #[trigger] ops[i],
            edit_changes(edit)[i].0@,
            edit_changes(edit)[i].1@,
        )
    &&& forall|j: int|
        0 <= j < edit_document_changes(edit).len() ==> op_follows_document_change(
            ops[edit_changes(edit).len() + j],
            #[trigger] edit_document_changes(edit)[j],
        )
}

/// The steps of a workspace edit, each URI taken to its path.
pub fn workspace_edit_ops(edit: WorkspaceEdit) -> (r: Vec<WorkspaceOp>)
    ensures
        ops_follow_edit(r@, edit),
{
    let ghost cs = edit_changes(edit);
    let ghost ds = edit_document_changes(edit);
    let WorkspaceEdit { changes, document_changes } = edit;
    let mut ops: Vec<WorkspaceOp> = Vec::new();
    match changes {
        Some(mut v) => {
            let ghost n = v@.len();
            let total: usize = v.len();
            assert(total == n);
            let mut k: usize = 0;
            while v.len() > 0
                invariant
                    cs.len() == n,
                    n <= usize::MAX,
                    k + v@.len() == n,
                    v@ == cs.skip(k as int),
                    ops@.len() == k,
                    forall|i: int| 0 <= i < k ==> op_follows_change(#[trigger] ops@[i], cs[i].0@, cs[i].1@),
                decreases v@.len(),
            {
                let (uri, edits) = v.remove(0);
                assert(cs.skip(k as int)[0] == cs[k as int]);
                assert(v@ =~= cs.skip(k + 1));
                let path = path_from_uri(uri.as_str());
                ops.push(WorkspaceOp::Edit { path, edits });
                k = k + 1;
            }
        },
        None => {},
    }
    let ghost base = cs.len();
    assert(ops@.len() == base);
    match document_changes {
        Some(mut v) => {
            let ghost n = v@.len();
            let total: usize = v.len();
            assert(total == n);
            let mut k: usize = 0;
            while v.len() > 0
                invariant
                    ds.len() == n,
                    n <= usize::MAX,
                    k + v@.len() == n,
                    v@ == ds.skip(k as int),
                    ops@.len() == base + k,
                    forall|i: int| 0 <= i < base ==> op_follows_change(#[trigger] ops@[i], cs[i].0@, cs[i].1@),
                    forall|j: int| 0 <= j < k ==> op_follows_document_change(ops@[base + j], #[trigger] ds[j]),
                decreases v@.len(),
            {
                let dc = v.remove(0);
                assert(ds.skip(k as int)[0] == ds[k as int]);
                assert(v@ =~= ds.skip(k + 1));
                let op = match dc {
                    DocumentChange::Edit { uri, edits } => WorkspaceOp::Edit { path: path_from_uri(uri.as_str()), edits },
                    DocumentChange::Create { uri } => WorkspaceOp::Create { path: path_from_uri(uri.as_str()) },
                    DocumentChange::Rename { old_uri, new_uri } => {
                        let old_path = path_from_uri(old_uri.as_str());
                        let new_path = path_from_uri(new_uri.as_str());
                        WorkspaceOp::Rename { old_path, new_path }
                    },
                    DocumentChange::Delete { uri } => WorkspaceOp::Delete { path: path_from_uri(uri.as_str()) },
                };
                ops.push(op);
                k = k + 1;
            }
        },
        None => {},
    }
    ops
}

/// The `apply_patch` preview of a workspace edit, read against the files as
/// they are on disk (`disk`), within the limits. Each URI is taken to its
/// path as the `url` crate gives it; whatever paths came back, the result is
/// the preview of the steps with those paths.
pub fn workspace_edit_to_apply_patch(edit: WorkspaceEdit, disk: &[DiskFile], limits: PatchLimits) -> (r: Result<String, EditFailure>)
    ensures
        exists|ops: Seq<WorkspaceOp>|
            #[trigger] ops_follow_edit(ops, edit) && match r {
                Ok(p) => ops_patch(disk@, ops, limits) == PatchOutcome::Patch(p@),
                Err(EditFailure::Message(e)) => ops_patch(disk@, ops, limits) == PatchOutcome::Failed(e@),
                Err(EditFailure::SplitCharacter) => ops_patch(disk@, ops, limits) is Broken,
            },
{
    let ops = workspace_edit_ops(edit);
    let r = workspace_ops_to_patch(ops.as_slice(), disk, limits);
    assert(ops_follow_edit(ops@, edit));
    r
}

} // verus!
