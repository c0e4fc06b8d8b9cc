//! Attaching PDF files by URL: how many URLs a call may carry, which
//! validated URLs are kept (duplicates are skipped with a warning), and the
//! summary the model reads.
use vstd::prelude::*;

use crate::text::{chars_of, push_decimal, decimal, str_eq, trim, trim_chars};

verus! {

/// The most URLs one call may attach.
pub const MAX_URLS_PER_CALL: usize = 10;

/// The handler of the `attach_url_files` tool.
#[derive(Debug, Default)]
pub struct AttachUrlFilesHandler;

/// Checks the number of files a call asks for.
pub fn check_file_count(count: usize) -> (r: Result<(), String>)
    ensures
        count == 0 ==> (r matches Err(e) && e@ == "attach_url_files requires at least one file"@),
        count > MAX_URLS_PER_CALL ==> (r matches Err(e) && e@ == "attach_url_files accepts at most "@ + decimal(
            MAX_URLS_PER_CALL as nat,
        ) + " URLs per call"@),
        0 < count <= MAX_URLS_PER_CALL ==> r is Ok,
{
    if count == 0 {
        return Err(String::from_str("attach_url_files requires at least one file"));
    }
    if count > MAX_URLS_PER_CALL {
        let mut e = String::from_str("attach_url_files accepts at most ");
        push_decimal(&mut e, MAX_URLS_PER_CALL as u64);
        e.append(" URLs per call");
        return Err(e);
    }
    Ok(())
}

/// A URL that passed validation: the key that identifies its download, its
/// text for display (secrets redacted) and the file name it gives.
#[derive(Debug, Clone)]
pub struct CheckedUrl {
    pub cache_key: String,
    pub redacted_url: String,
    pub default_filename: String,
}

/// A URL that could not be attached, and why.
#[derive(Debug, Clone)]
pub struct AttachmentFailure {
    pub redacted_url: String,
    pub reason: String,
}

/// An attached file.
#[derive(Debug, Clone)]
pub struct AttachmentSuccess {
    pub redacted_url: String,
    pub filename: String,
    pub cached_path: String,
}

/// A requested file: its URL checked, and the name asked for, if any.
#[derive(Debug)]
pub struct RequestedFile {
    pub checked: Result<CheckedUrl, AttachmentFailure>,
    pub filename: Option<String>,
}

/// A URL to download: which requested file it is, and its file name (the
/// requested one, trimmed, unless blank).
#[derive(Debug, Clone)]
pub struct ValidatedAttachment {
    pub index: usize,
    pub filename: Option<String>,
}

/// A failure, as values.
pub open spec fn failure_view(f: AttachmentFailure) -> (Seq<char>, Seq<char>) {
    (f.redacted_url@, f.reason@)
}

/// A kept file, as values.
pub open spec fn attachment_view(a: ValidatedAttachment) -> (nat, Option<Seq<char>>) {
    (
        a.index as nat,
        match a.filename {
            Some(f) => Some(f@),
            None => None,
        },
    )
}

/// The file name asked for: trimmed, and none when blank.
pub open spec fn requested_name(f: Option<String>) -> Option<Seq<char>> {
    match f {
        Some(n) => if trim(n@).len() > 0 {
            Some(trim(n@))
        } else {
            None
        },
        None => None,
    }
}

/// What sorting the requested files gives: the files kept, the failures,
/// the warnings, and the keys seen.
pub struct DedupState {
    pub kept: Seq<(nat, Option<Seq<char>>)>,
    pub failures: Seq<(Seq<char>, Seq<char>)>,
    pub warnings: Seq<Seq<char>>,
    pub seen: Seq<Seq<char>>,
}

/// Sorts the requested files in order: a failed check is a failure; a URL
/// whose key was seen already is skipped with a warning; any other is kept.
pub open spec fn dedup_files(files: Seq<RequestedFile>) -> DedupState
    decreases files.len(),
{
    if files.len() == 0 {
        DedupState { kept: Seq::empty(), failures: Seq::empty(), warnings: Seq::empty(), seen: Seq::empty() }
    } else {
        let st = dedup_files(files.drop_last());
        match files.last().checked {
            Err(f) => DedupState { failures: st.failures.push(failure_view(f)), ..st },
            Ok(u) => if st.seen.contains(u.cache_key@) {
                DedupState { warnings: st.warnings.push("Skipped duplicate URL: "@ + u.redacted_url@), ..st }
            } else {
                DedupState {
                    kept: st.kept.push(((files.len() - 1) as nat, requested_name(files.last().filename))),
                    seen: st.seen.push(u.cache_key@),
                    ..st
                }
            },
        }
    }
}

/// Every requested file is accounted for exactly once (kept, failed or
/// skipped as a duplicate), and the kept files have pairwise distinct keys,
/// one key per kept file.
pub proof fn law_dedup_accounts_for_every_file(files: Seq<RequestedFile>)
    ensures
        dedup_files(files).kept.len() + dedup_files(files).failures.len() + dedup_files(files).warnings.len()
            == files.len(),
        dedup_files(files).seen.len() == dedup_files(files).kept.len(),
        dedup_files(files).seen.no_duplicates(),
    decreases files.len(),
{
    if files.len() > 0 {
        law_dedup_accounts_for_every_file(files.drop_last());
        let st = dedup_files(files.drop_last());
        match files.last().checked {
            Err(_) => {},
            Ok(u) => {
                if !st.seen.contains(u.cache_key@) {
                    let seen = st.seen.push(u.cache_key@);
                    assert forall|i: int, j: int| 0 <= i < seen.len() && 0 <= j < seen.len() && i != j implies seen[i]
                        != seen[j] by {
                        if i == st.seen.len() as int {
                            assert(seen[j] == st.seen[j]);
                        } else if j == st.seen.len() as int {
                            assert(seen[i] == st.seen[i]);
                        }
                    }
                }
            },
        }
    }
}

/// Whether `key` is among `seen`.
fn seen_key(seen: &Vec<String>, key: &str) -> (r: bool)
    ensures
        r == crate::text::string_views(seen@).contains(key@),
{
    let ghost sv = crate::text::string_views(seen@);
    let mut k: usize = 0;
    while k < seen.len()
        invariant
            k <= seen@.len(),
            sv == crate::text::string_views(seen@),
            forall|i: int| 0 <= i < k ==> sv[i] != key@,
        decreases seen@.len() - k,
    {
        if str_eq(seen[k].as_str(), key) {
            assert(sv[k as int] == key@);
            return true;
        }
        k = k + 1;
    }
    false
}

/// The file name asked for, trimmed, unless blank.
fn trimmed_name(f: &Option<String>) -> (r: Option<String>)
    ensures
        match r {
            Some(n) => requested_name(*f) == Some(n@),
            None => requested_name(*f) is None,
        },
{
    match f {
        Some(n) => {
            let t = trim_chars(chars_of(n.as_str()).as_slice());
            if t.len() > 0 {
                Some(crate::text::string_of(t.as_slice()))
            } else {
                None
            }
        },
        None => None,
    }
}

/// Sorts the requested files into those to download, the failures, and
/// warnings about skipped duplicates, keeping the request's order.
pub fn validate_and_dedup(files: &[RequestedFile]) -> (r: (Vec<ValidatedAttachment>, Vec<AttachmentFailure>, Vec<String>))
    ensures
        r.0@.map_values(|a: ValidatedAttachment| attachment_view(a)) == dedup_files(files@).kept,
        r.1@.map_values(|f: AttachmentFailure| failure_view(f)) == dedup_files(files@).failures,
        crate::text::string_views(r.2@) == dedup_files(files@).warnings,
{
    let mut kept: Vec<ValidatedAttachment> = Vec::new();
    let mut failures: Vec<AttachmentFailure> = Vec::new();
    let mut warnings: Vec<String> = Vec::new();
    let mut seen: Vec<String> = Vec::new();
    let mut k: usize = 0;
    assert(files@.take(0) =~= Seq::<RequestedFile>::empty());
    assert(kept@.map_values(|a: ValidatedAttachment| attachment_view(a)) =~= Seq::<(nat, Option<Seq<char>>)>::empty());
    assert(failures@.map_values(|f: AttachmentFailure| failure_view(f)) =~= Seq::<(Seq<char>, Seq<char>)>::empty());
    assert(crate::text::string_views(warnings@) =~= Seq::<Seq<char>>::empty());
    assert(crate::text::string_views(seen@) =~= Seq::<Seq<char>>::empty());
    while k < files.len()
        invariant
            k <= files@.len(),
            kept@.map_values(|a: ValidatedAttachment| attachment_view(a)) == dedup_files(files@.take(k as int)).kept,
            failures@.map_values(|f: AttachmentFailure| failure_view(f)) == dedup_files(files@.take(k as int)).failures,
            crate::text::string_views(warnings@) == dedup_files(files@.take(k as int)).warnings,
            crate::text::string_views(seen@) == dedup_files(files@.take(k as int)).seen,
        decreases files@.len() - k,
    {
        assert(files@.take(k + 1).drop_last() =~= files@.take(k as int));
        assert(files@.take(k + 1).last() == files@[k as int]);
        let ghost kv = kept@.map_values(|a: ValidatedAttachment| attachment_view(a));
        let ghost fv = failures@.map_values(|f: AttachmentFailure| failure_view(f));
        let ghost wv = crate::text::string_views(warnings@);
        let ghost sv = crate::text::string_views(seen@);
        match &files[k].checked {
            Err(f) => {
                failures.push(AttachmentFailure { redacted_url: f.redacted_url.clone(), reason: f.reason.clone() });
                assert(failures@.map_values(|f: AttachmentFailure| failure_view(f)) =~= fv.push(failure_view(*f)));
            },
            Ok(u) => {
                if seen_key(&seen, u.cache_key.as_str()) {
                    let mut w = String::from_str("Skipped duplicate URL: ");
                    w.append(u.redacted_url.as_str());
                    warnings.push(w);
                    assert(crate::text::string_views(warnings@) =~= wv.push("Skipped duplicate URL: "@ + u.redacted_url@));
                } else {
                    let filename = trimmed_name(&files[k].filename);
                    kept.push(ValidatedAttachment { index: k, filename });
                    assert(kept@.map_values(|a: ValidatedAttachment| attachment_view(a)) =~= kv.push(
                        (k as nat, requested_name(files@[k as int].filename)),
                    ));
                    seen.push(u.cache_key.clone());
                    assert(crate::text::string_views(seen@) =~= sv.push(u.cache_key@));
                }
            },
        }
        k = k + 1;
    }
    assert(files@.take(files@.len() as int) =~= files@);
    (kept, failures, warnings)
}

/// The lines of the failures: `- url (reason)` each.
pub open spec fn failure_lines(fs: Seq<(Seq<char>, Seq<char>)>) -> Seq<char>
    decreases fs.len(),
{
    if fs.len() == 0 {
        Seq::empty()
    } else {
        failure_lines(fs.drop_last()) + "\n- "@ + fs.last().0 + " ("@ + fs.last().1 + seq![')']
    }
}

/// The failures section: nothing when there are none.
pub open spec fn failures_section(fs: Seq<(Seq<char>, Seq<char>)>) -> Seq<char> {
    if fs.len() == 0 {
        Seq::empty()
    } else {
        "\nFailures:"@ + failure_lines(fs)
    }
}

/// Appends the failures section.
pub fn append_failures(summary: &mut String, failures: &[AttachmentFailure])
    ensures
        final(summary)@ == old(summary)@ + failures_section(failures@.map_values(|f: AttachmentFailure| failure_view(f))),
{
    let ghost fv = failures@.map_values(|f: AttachmentFailure| failure_view(f));
    if failures.len() == 0 {
        assert(old(summary)@ + Seq::<char>::empty() =~= old(summary)@);
        return;
    }
    let ghost start = summary@;
    summary.append("\nFailures:");
    let mut k: usize = 0;
    assert(fv.take(0) =~= Seq::<(Seq<char>, Seq<char>)>::empty());
    assert(summary@ =~= start + "\nFailures:"@ + failure_lines(fv.take(0)));
    while k < failures.len()
        invariant
            k <= failures@.len(),
            fv == failures@.map_values(|f: AttachmentFailure| failure_view(f)),
            summary@ == start + "\nFailures:"@ + failure_lines(fv.take(k as int)),
        decreases failures@.len() - k,
    {
        assert(fv.take(k + 1).drop_last() =~= fv.take(k as int));
        let ghost before = summary@;
        summary.append("\n- ");
        summary.append(failures[k].redacted_url.as_str());
        summary.append(" (");
        summary.append(failures[k].reason.as_str());
        crate::text::push_char(summary, ')');
        k = k + 1;
        assert(summary@ =~= start + "\nFailures:"@ + failure_lines(fv.take(k as int)));
    }
    assert(fv.take(failures@.len() as int) =~= fv);
    assert(summary@ =~= old(summary)@ + ("\nFailures:"@ + failure_lines(fv)));
}

/// The summary when nothing was attached.
pub open spec fn failure_only_summary(fs: Seq<(Seq<char>, Seq<char>)>) -> Seq<char> {
    if fs.len() == 0 {
        "No valid URL files to attach."@
    } else {
        "No URL files were attached."@ + failures_section(fs)
    }
}

/// The summary when nothing was attached.
pub fn render_failure_only_summary(failures: &[AttachmentFailure]) -> (r: String)
    ensures
        r@ == failure_only_summary(failures@.map_values(|f: AttachmentFailure| failure_view(f))),
{
    if failures.len() == 0 {
        return String::from_str("No valid URL files to attach.");
    }
    let mut summary = String::from_str("No URL files were attached.");
    append_failures(&mut summary, failures);
    summary
}

/// An attached file, as values.
pub open spec fn success_view(s: AttachmentSuccess) -> (Seq<char>, Seq<char>, Seq<char>) {
    (s.redacted_url@, s.filename@, s.cached_path@)
}

/// The lines of the attached files: `- url (name) -> path` each.
pub open spec fn success_lines(ss: Seq<(Seq<char>, Seq<char>, Seq<char>)>) -> Seq<char>
    decreases ss.len(),
{
    if ss.len() == 0 {
        Seq::empty()
    } else {
        success_lines(ss.drop_last()) + "\n- "@ + ss.last().0 + " ("@ + ss.last().1 + ") -> "@ + ss.last().2
    }
}

/// The lines of the warnings: `- warning` each.
pub open spec fn warning_lines(ws: Seq<Seq<char>>) -> Seq<char>
    decreases ws.len(),
{
    if ws.len() == 0 {
        Seq::empty()
    } else {
        warning_lines(ws.drop_last()) + "\n- "@ + ws.last()
    }
}

/// The summary of an attachment: how many files were attached, then the
/// files, the warnings and the failures, each section only when it has
/// lines.
pub open spec fn summary_text(
    ss: Seq<(Seq<char>, Seq<char>, Seq<char>)>,
    fs: Seq<(Seq<char>, Seq<char>)>,
    ws: Seq<Seq<char>>,
) -> Seq<char> {
    "Attached "@ + decimal(ss.len()) + " URL file(s) to the local cache. Other tools (document_reader, crop_figure) can now read them by URL or cached path."@
        + (if ss.len() == 0 {
        Seq::empty()
    } else {
        "\nFiles:"@ + success_lines(ss)
    }) + (if ws.len() == 0 {
        Seq::empty()
    } else {
        "\nWarnings:"@ + warning_lines(ws)
    }) + failures_section(fs)
}

/// Renders the summary of an attachment.
pub fn render_summary(successes: &[AttachmentSuccess], failures: &[AttachmentFailure], warnings: &[String]) -> (r: String)
    ensures
        r@ == summary_text(
            successes@.map_values(|s: AttachmentSuccess| success_view(s)),
            failures@.map_values(|f: AttachmentFailure| failure_view(f)),
            crate::text::string_views(warnings@),
        ),
{
    let ghost sv = successes@.map_values(|s: AttachmentSuccess| success_view(s));
    let ghost wv = crate::text::string_views(warnings@);
    let mut summary = String::from_str("Attached ");
    push_decimal(&mut summary, successes.len() as u64);
    summary.append(
        " URL file(s) to the local cache. Other tools (document_reader, crop_figure) can now read them by URL or cached path.",
    );
    let ghost head = summary@;
    if successes.len() > 0 {
        summary.append("\nFiles:");
        let mut k: usize = 0;
        assert(sv.take(0) =~= Seq::<(Seq<char>, Seq<char>, Seq<char>)>::empty());
        assert(summary@ =~= head + "\nFiles:"@ + success_lines(sv.take(0)));
        while k < successes.len()
            invariant
                k <= successes@.len(),
                sv == successes@.map_values(|s: AttachmentSuccess| success_view(s)),
                summary@ == head + "\nFiles:"@ + success_lines(sv.take(k as int)),
            decreases successes@.len() - k,
        {
            assert(sv.take(k + 1).drop_last() =~= sv.take(k as int));
            summary.append("\n- ");
            summary.append(successes[k].redacted_url.as_str());
            summary.append(" (");
            summary.append(successes[k].filename.as_str());
            summary.append(") -> ");
            summary.append(successes[k].cached_path.as_str());
            k = k + 1;
            assert(summary@ =~= head + "\nFiles:"@ + success_lines(sv.take(k as int)));
        }
        assert(sv.take(successes@.len() as int) =~= sv);
    } else {
        assert(summary@ =~= head + Seq::<char>::empty());
    }
    let ghost mid = summary@;
    if warnings.len() > 0 {
        summary.append("\nWarnings:");
        let mut k: usize = 0;
        assert(wv.take(0) =~= Seq::<Seq<char>>::empty());
        assert(summary@ =~= mid + "\nWarnings:"@ + warning_lines(wv.take(0)));
        while k < warnings.len()
            invariant
                k <= warnings@.len(),
                wv == crate::text::string_views(warnings@),
                summary@ == mid + "\nWarnings:"@ + warning_lines(wv.take(k as int)),
            decreases warnings@.len() - k,
        {
            assert(wv.take(k + 1).drop_last() =~= wv.take(k as int));
            summary.append("\n- ");
            summary.append(warnings[k].as_str());
            k = k + 1;
            assert(summary@ =~= mid + "\nWarnings:"@ + warning_lines(wv.take(k as int)));
        }
        assert(wv.take(warnings@.len() as int) =~= wv);
    } else {
        assert(summary@ =~= mid + Seq::<char>::empty());
    }
    append_failures(&mut summary, failures);
    summary
}

/// The answer to a call: the summary when a file was attached, else the
/// failure-only summary as the error.
pub fn attachment_answer(successes: &[AttachmentSuccess], failures: &[AttachmentFailure], warnings: &[String]) -> (r: Result<
    String,
    String,
>)
    ensures
        successes@.len() == 0 ==> (r matches Err(e) && e@ == failure_only_summary(
            failures@.map_values(|f: AttachmentFailure| failure_view(f)),
        )),
        successes@.len() > 0 ==> (r matches Ok(s) && s@ == summary_text(
            successes@.map_values(|s: AttachmentSuccess| success_view(s)),
            failures@.map_values(|f: AttachmentFailure| failure_view(f)),
            crate::text::string_views(warnings@),
        )),
{
    if successes.len() == 0 {
        return Err(render_failure_only_summary(failures));
    }
    Ok(render_summary(successes, failures, warnings))
}

/// How downloading a URL ended: the cached file's path, or a failure.
#[derive(Debug, Clone)]
pub enum DownloadOutcome {
    Success(String),
    Failure(AttachmentFailure),
}

/// The attached files and the failures of the first `n` downloads, each
/// paired with its kept file; an attached file is named as asked, else by
/// its URL.
pub open spec fn download_results_upto(
    files: Seq<RequestedFile>,
    kept: Seq<ValidatedAttachment>,
    outcomes: Seq<DownloadOutcome>,
    n: nat,
) -> (Seq<(Seq<char>, Seq<char>, Seq<char>)>, Seq<(Seq<char>, Seq<char>)>)
    decreases n,
{
    if n == 0 {
        (Seq::empty(), Seq::empty())
    } else {
        let prev = download_results_upto(files, kept, outcomes, (n - 1) as nat);
        match outcomes[n - 1] {
            DownloadOutcome::Success(path) => (
                prev.0.push(
                    (
                        files[kept[n - 1].index as int].checked->Ok_0.redacted_url@,
                        match kept[n - 1].filename {
                            Some(name) => name@,
                            None => files[kept[n - 1].index as int].checked->Ok_0.default_filename@,
                        },
                        path@,
                    ),
                ),
                prev.1,
            ),
            DownloadOutcome::Failure(f) => (prev.0, prev.1.push(failure_view(f))),
        }
    }
}

/// The attached files and the failures after downloading: downloads and
/// kept files are paired in order, and the extra entries of the longer list
/// are ignored.
pub open spec fn download_results(
    files: Seq<RequestedFile>,
    kept: Seq<ValidatedAttachment>,
    outcomes: Seq<DownloadOutcome>,
) -> (Seq<(Seq<char>, Seq<char>, Seq<char>)>, Seq<(Seq<char>, Seq<char>)>) {
    download_results_upto(files, kept, outcomes, if kept.len() < outcomes.len() { kept.len() } else { outcomes.len() })
}

/// Whether each kept file points at a requested file whose URL passed.
pub open spec fn kept_files_valid(files: Seq<RequestedFile>, kept: Seq<ValidatedAttachment>) -> bool {
    forall|i: int|
        0 <= i < kept.len() ==> (#[trigger] kept[i]).index < files.len() && files[kept[i].index as int].checked is Ok
}

/// Pairs downloads with their kept files: the attached files, and the
/// failures appended to `failures`.
pub fn collect_downloads(
    files: &[RequestedFile],
    kept: &[ValidatedAttachment],
    outcomes: &[DownloadOutcome],
    failures: &mut Vec<AttachmentFailure>,
) -> (r: Vec<AttachmentSuccess>)
    requires
        kept_files_valid(files@, kept@),
    ensures
        r@.map_values(|s: AttachmentSuccess| success_view(s)) == download_results(files@, kept@, outcomes@).0,
        final(failures)@.map_values(|f: AttachmentFailure| failure_view(f)) == old(failures)@.map_values(
            |f: AttachmentFailure| failure_view(f),
        ) + download_results(files@, kept@, outcomes@).1,
{
    let n = if kept.len() < outcomes.len() {
        kept.len()
    } else {
        outcomes.len()
    };
    let ghost start = old(failures)@.map_values(|f: AttachmentFailure| failure_view(f));
    let mut out: Vec<AttachmentSuccess> = Vec::new();
    let mut k: usize = 0;
    assert(out@.map_values(|s: AttachmentSuccess| success_view(s)) =~= Seq::<(Seq<char>, Seq<char>, Seq<char>)>::empty());
    assert(failures@.map_values(|f: AttachmentFailure| failure_view(f)) =~= start + Seq::<(Seq<char>, Seq<char>)>::empty());
    while k < n
        invariant
            k <= n <= kept@.len(),
            n <= outcomes@.len(),
            n == (if kept@.len() < outcomes@.len() { kept@.len() } else { outcomes@.len() }),
            kept_files_valid(files@, kept@),
            out@.map_values(|s: AttachmentSuccess| success_view(s)) == download_results_upto(files@, kept@, outcomes@, k as nat).0,
            failures@.map_values(|f: AttachmentFailure| failure_view(f)) == start + download_results_upto(
                files@,
                kept@,
                outcomes@,
                k as nat,
            ).1,
        decreases n - k,
    {
        let ghost ov = out@.map_values(|s: AttachmentSuccess| success_view(s));
        let ghost fv = failures@.map_values(|f: AttachmentFailure| failure_view(f));
        let a = &kept[k];
        assert(kept@[k as int].index < files@.len());
        match &outcomes[k] {
            DownloadOutcome::Success(path) => {
                let u = match &files[a.index].checked {
                    Ok(u) => u,
                    Err(_) => {
                        assert(false);
                        return out;
                    },
                };
                let filename = match &a.filename {
                    Some(name) => name.clone(),
                    None => u.default_filename.clone(),
                };
                let item = AttachmentSuccess {
                    redacted_url: u.redacted_url.clone(),
                    filename,
                    cached_path: path.clone(),
                };
                let ghost iv = success_view(item);
                out.push(item);
                assert(out@.map_values(|s: AttachmentSuccess| success_view(s)) =~= ov.push(iv));
            },
            DownloadOutcome::Failure(f) => {
                failures.push(AttachmentFailure { redacted_url: f.redacted_url.clone(), reason: f.reason.clone() });
                assert(failures@.map_values(|f: AttachmentFailure| failure_view(f)) =~= fv.push(failure_view(*f)));
            },
        }
        k = k + 1;
    }
    out
}

} // verus!
