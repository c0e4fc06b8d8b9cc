//! The session's reading-view documents and what each reading-view tool
//! call does to them: the new cache, the reply to the model and the events
//! for the user interface.
use vstd::prelude::*;

use crate::document::{group_state, append_vec, push_char_vec, clone_opt, copy_chars, eq_chars, markdown, opt_view, parse_sections, parse_sections_of, section_views, sections_to_markdown, CachedSection, MetadataTable, SectionView};
use crate::text::{chars_of, contains, find_chars, first_occurrence, occurs_at, push_signed_decimal, signed_decimal, decimal, first_index, lemma_first_index_is, starts_with, starts_with_chars, join, push_chars, push_decimal, string_of, trim, trim_chars};

verus! {

/// A document shown in the reading view.
#[derive(Debug)]
pub struct CachedDocument {
    pub title: String,
    pub sections: Vec<CachedSection>,
    /// While the sections are being streamed in: the next section to fill.
    pub streaming_next: Option<usize>,
}

pub struct DocView {
    pub title: Seq<char>,
    pub sections: Seq<SectionView>,
    pub streaming_next: Option<usize>,
}

impl View for CachedDocument {
    type V = DocView;

    open spec fn view(&self) -> DocView {
        DocView {
            title: self.title@,
            sections: section_views(self.sections@),
            streaming_next: self.streaming_next,
        }
    }
}

/// How the user interface renders the reading view.
#[derive(Debug, Clone, Copy, PartialEq, Eq, Structural)]
pub enum ReadingViewDisplayMode {
    /// Terminal rendering: no LaTeX or HTML.
    Tui,
    /// Browser rendering with HTML, KaTeX and Mermaid.
    Browser,
}

impl Default for ReadingViewDisplayMode {
    fn default() -> (m: Self)
        ensures
            m == ReadingViewDisplayMode::Tui,
    {
        ReadingViewDisplayMode::Tui
    }
}

/// The next section to fill while streaming, with its heading.
pub open spec fn next_streaming(d: DocView) -> Option<(usize, Seq<char>)> {
    match d.streaming_next {
        Some(n) => if n < d.sections.len() {
            Some((n, d.sections[n as int].heading))
        } else {
            None
        },
        None => None,
    }
}

/// The next section to fill while streaming, with its heading.
pub fn next_streaming_section(doc: &CachedDocument) -> (r: Option<(usize, String)>)
    ensures
        match r {
            Some((i, h)) => next_streaming(doc@) == Some((i, h@)),
            None => next_streaming(doc@) is None,
        },
{
    match doc.streaming_next {
        Some(next) => {
            if next < doc.sections.len() {
                assert(doc.sections@[next as int]@ == doc@.sections[next as int]);
                Some((next, doc.sections[next].heading.clone()))
            } else {
                None
            }
        },
        None => None,
    }
}

pub open spec fn decimals_from(start: nat, count: nat) -> Seq<Seq<char>> {
    Seq::new(count, |k: int| decimal((start + k) as nat))
}

/// The reminder appended while sections still wait for content.
pub open spec fn unfilled_reminder(d: DocView) -> Seq<char> {
    match d.streaming_next {
        Some(n) => if n < d.sections.len() {
            " Note: sections "@ + join(decimals_from(n as nat, (d.sections.len() - n) as nat), ", "@)
                + " still need content. Continue filling them with update_document_section after answering."@
        } else {
            seq![]
        },
        None => seq![],
    }
}

/// If sections still wait for content, a reminder to keep filling them.
pub fn streaming_unfilled_reminder(doc: &CachedDocument) -> (s: String)
    ensures
        s@ == unfilled_reminder(doc@),
{
    match doc.streaming_next {
        Some(next) => {
            let len = doc.sections.len();
            if next < len {
                let mut s = String::from_str(" Note: sections ");
                let ghost items = decimals_from(next as nat, (len - next) as nat);
                let mut k: usize = next;
                while k < len
                    invariant
                        next <= k <= len,
                        len == doc@.sections.len(),
                        items == decimals_from(next as nat, (len - next) as nat),
                        s@ == " Note: sections "@ + join(items.take(k - next), ", "@),
                    decreases len - k,
                {
                    if k > next {
                        s.append(", ");
                    }
                    push_decimal(&mut s, k as u64);
                    proof {
                        let t = items.take(k + 1 - next);
                        assert(t.drop_last() =~= items.take(k - next));
                        assert(t.last() == decimal(k as nat));
                        if k == next {
                            assert(join(t, ", "@) == t[0]);
                        }
                    }
                    k = k + 1;
                }
                assert(items.take(len - next) =~= items);
                s.append(" still need content. Continue filling them with update_document_section after answering.");
                s
            } else {
                String::new()
            }
        },
        None => String::new(),
    }
}

pub open spec fn display_mode_state_text(mode: ReadingViewDisplayMode) -> Seq<char> {
    match mode {
        ReadingViewDisplayMode::Tui => "Current reading view display mode: Tui. Follow the Tui formatting rules in the reading view tool descriptions."@,
        ReadingViewDisplayMode::Browser => "Current reading view display mode: Browser. Follow the Browser formatting rules in the reading view tool descriptions."@,
    }
}

/// The state line that tells the model how the reading view renders.
pub fn reading_view_display_mode_state(mode: ReadingViewDisplayMode) -> (s: &'static str)
    ensures
        s@ == display_mode_state_text(mode),
{
    match mode {
        ReadingViewDisplayMode::Tui => "Current reading view display mode: Tui. Follow the Tui formatting rules in the reading view tool descriptions.",
        ReadingViewDisplayMode::Browser => "Current reading view display mode: Browser. Follow the Browser formatting rules in the reading view tool descriptions.",
    }
}

pub open spec fn rewrite_boundary_guidance() -> Seq<char> {
    "Do NOT rewrite the entire section unless the user explicitly asks for a rewrite."@
}

pub open spec fn tool_call_only_guidance() -> Seq<char> {
    "Do NOT output plain text; only tool calls are visible to the user."@
}

pub open spec fn selection_follow_up_text(mode: ReadingViewDisplayMode) -> Seq<char> {
    "Preferred tool: patch_document_section on the exact selected text.\nUse the selected text exactly as old_text.\nFor normal follow-ups, insert your answer after the selection.\nFor rewrite, simplify, or rephrase requests, replace the selection.\n\n"@
        + display_mode_state_text(mode) + "\n\n"@ + rewrite_boundary_guidance() + "\n"@
        + tool_call_only_guidance()
}

/// Guidance for a follow-up question about a selected passage.
pub fn reading_view_selection_follow_up_guidance(mode: ReadingViewDisplayMode) -> (s: String)
    ensures
        s@ == selection_follow_up_text(mode),
{
    let mut s = String::from_str(
        "Preferred tool: patch_document_section on the exact selected text.\nUse the selected text exactly as old_text.\nFor normal follow-ups, insert your answer after the selection.\nFor rewrite, simplify, or rephrase requests, replace the selection.\n\n",
    );
    s.append(reading_view_display_mode_state(mode));
    s.append("\n\n");
    s.append("Do NOT rewrite the entire section unless the user explicitly asks for a rewrite.");
    s.append("\n");
    s.append("Do NOT output plain text; only tool calls are visible to the user.");
    s
}

pub open spec fn section_follow_up_text(mode: ReadingViewDisplayMode) -> Seq<char> {
    "Preferred tool: patch_document_section near the most relevant passage.\nUse old_text verbatim from the current section content.\nIf the user explicitly wants the entire section rewritten, use update_document_section.\nIf the question is about the section as a whole and no passage is relevant, append_to_section is acceptable.\nIf the follow-up introduces a new topic, use add_document_section after this section.\n\n"@
        + display_mode_state_text(mode) + "\n\n"@ + rewrite_boundary_guidance() + "\n"@
        + tool_call_only_guidance()
}

/// What follows the state line in the follow-up guidance of both kinds.
pub open spec fn follow_up_tail() -> Seq<char> {
    "\n\n"@ + rewrite_boundary_guidance() + "\n"@ + tool_call_only_guidance()
}

/// Law: the follow-up guidance of the two display modes differs only in
/// the state line. For a selection and for a whole section alike, the
/// guidance is a head that names the preferred tool, then the mode's state
/// line, then the same tail, which ends by asking for tool calls only.
pub proof fn law_follow_up_guidance_differs_only_in_state_line(mode: ReadingViewDisplayMode)
    ensures
        selection_follow_up_text(mode) == "Preferred tool: patch_document_section on the exact selected text.\nUse the selected text exactly as old_text.\nFor normal follow-ups, insert your answer after the selection.\nFor rewrite, simplify, or rephrase requests, replace the selection.\n\n"@
            + display_mode_state_text(mode) + follow_up_tail(),
        section_follow_up_text(mode) == "Preferred tool: patch_document_section near the most relevant passage.\nUse old_text verbatim from the current section content.\nIf the user explicitly wants the entire section rewritten, use update_document_section.\nIf the question is about the section as a whole and no passage is relevant, append_to_section is acceptable.\nIf the follow-up introduces a new topic, use add_document_section after this section.\n\n"@
            + display_mode_state_text(mode) + follow_up_tail(),
        follow_up_tail().len() >= tool_call_only_guidance().len(),
        follow_up_tail().skip(follow_up_tail().len() - tool_call_only_guidance().len()) == tool_call_only_guidance(),
{
    let t = follow_up_tail();
    let head = "\n\n"@ + rewrite_boundary_guidance() + "\n"@;
    assert(t =~= head + tool_call_only_guidance());
    assert(t.skip(head.len() as int) =~= tool_call_only_guidance());
    assert(selection_follow_up_text(mode) =~= "Preferred tool: patch_document_section on the exact selected text.\nUse the selected text exactly as old_text.\nFor normal follow-ups, insert your answer after the selection.\nFor rewrite, simplify, or rephrase requests, replace the selection.\n\n"@
        + display_mode_state_text(mode) + t);
    assert(section_follow_up_text(mode) =~= "Preferred tool: patch_document_section near the most relevant passage.\nUse old_text verbatim from the current section content.\nIf the user explicitly wants the entire section rewritten, use update_document_section.\nIf the question is about the section as a whole and no passage is relevant, append_to_section is acceptable.\nIf the follow-up introduces a new topic, use add_document_section after this section.\n\n"@
        + display_mode_state_text(mode) + t);
}

/// Guidance for a follow-up question about a whole section.
pub fn reading_view_section_follow_up_guidance(mode: ReadingViewDisplayMode) -> (s: String)
    ensures
        s@ == section_follow_up_text(mode),
{
    let mut s = String::from_str(
        "Preferred tool: patch_document_section near the most relevant passage.\nUse old_text verbatim from the current section content.\nIf the user explicitly wants the entire section rewritten, use update_document_section.\nIf the question is about the section as a whole and no passage is relevant, append_to_section is acceptable.\nIf the follow-up introduces a new topic, use add_document_section after this section.\n\n",
    );
    s.append(reading_view_display_mode_state(mode));
    s.append("\n\n");
    s.append("Do NOT rewrite the entire section unless the user explicitly asks for a rewrite.");
    s.append("\n");
    s.append("Do NOT output plain text; only tool calls are visible to the user.");
    s
}


/// The reading-view documents of a session, by id, and the display mode the
/// user interface has set.
#[derive(Debug)]
pub struct DocumentCache {
    docs: Vec<(String, CachedDocument)>,
    display_mode: ReadingViewDisplayMode,
}

pub open spec fn lookup_from(e: Seq<(String, CachedDocument)>, id: Seq<char>, i: int) -> Option<DocView>
    decreases e.len() - i,
{
    if i < 0 || i >= e.len() {
        None
    } else if e[i].0@ == id {
        Some(e[i].1@)
    } else {
        lookup_from(e, id, i + 1)
    }
}

pub open spec fn index_from(e: Seq<(String, CachedDocument)>, id: Seq<char>, i: int) -> int
    decreases e.len() - i,
{
    if i < 0 || i >= e.len() {
        e.len() as int
    } else if e[i].0@ == id {
        i
    } else {
        index_from(e, id, i + 1)
    }
}

pub open spec fn docs_map(e: Seq<(String, CachedDocument)>) -> Map<Seq<char>, DocView> {
    Map::new(|k: Seq<char>| lookup_from(e, k, 0) is Some, |k: Seq<char>| lookup_from(e, k, 0)->0)
}

proof fn lemma_index_from(e: Seq<(String, CachedDocument)>, id: Seq<char>, i: int)
    requires
        0 <= i <= e.len(),
    ensures
        i <= index_from(e, id, i) <= e.len(),
        forall|k: int| i <= k < index_from(e, id, i) ==> e[k].0@ != id,
        index_from(e, id, i) < e.len() ==> e[index_from(e, id, i)].0@ == id
            && lookup_from(e, id, i) == Some(e[index_from(e, id, i)].1@),
        index_from(e, id, i) == e.len() ==> lookup_from(e, id, i) is None,
    decreases e.len() - i,
{
    if i < e.len() && e[i].0@ != id {
        lemma_index_from(e, id, i + 1);
    }
}

proof fn lemma_lookup_skip(e: Seq<(String, CachedDocument)>, id: Seq<char>, i: int, j: int)
    requires
        0 <= i <= j <= e.len(),
        forall|k: int| i <= k < j ==> e[k].0@ != id,
    ensures
        lookup_from(e, id, i) == lookup_from(e, id, j),
    decreases j - i,
{
    if i < j {
        lemma_lookup_skip(e, id, i + 1, j);
    }
}

/// Replacing entry `j` (whose key is `id`, the first such) keeps every other
/// lookup and makes `id` give the new document.
proof fn lemma_lookup_update(e: Seq<(String, CachedDocument)>, j: int, id: Seq<char>, entry: (String, CachedDocument), k: Seq<char>)
    requires
        0 <= j < e.len(),
        e[j].0@ == id,
        entry.0@ == id,
        forall|m: int| 0 <= m < j ==> e[m].0@ != id,
    ensures
        lookup_from(e.update(j, entry), k, 0) == if k == id {
            Some(entry.1@)
        } else {
            lookup_from(e, k, 0)
        },
{
    let f = e.update(j, entry);
    lemma_index_from(e, k, 0);
    lemma_index_from(f, k, 0);
    let a = index_from(e, k, 0);
    let b = index_from(f, k, 0);
    if k == id {
        assert forall|m: int| 0 <= m < j implies f[m].0@ != id by {
            assert(f[m] == e[m]);
        }
        lemma_lookup_skip(f, id, 0, j);
    } else {
        assert forall|m: int| 0 <= m < f.len() implies (f[m].0@ == k <==> e[m].0@ == k) by {
            if m == j {
            } else {
                assert(f[m] == e[m]);
            }
        }
        if a < e.len() {
            assert(a != j);
            assert(f[a] == e[a]);
            if b < a {
                assert(e[b].0@ == k);
            }
            lemma_lookup_skip(f, k, 0, a);
        } else {
            if b < f.len() {
                assert(e[b].0@ == k);
            }
        }
    }
}

proof fn lemma_lookup_push(e: Seq<(String, CachedDocument)>, id: Seq<char>, entry: (String, CachedDocument), k: Seq<char>)
    requires
        entry.0@ == id,
        lookup_from(e, id, 0) is None,
    ensures
        lookup_from(e.push(entry), k, 0) == if k == id {
            Some(entry.1@)
        } else {
            lookup_from(e, k, 0)
        },
{
    let f = e.push(entry);
    lemma_index_from(e, k, 0);
    lemma_index_from(f, k, 0);
    lemma_index_from(e, id, 0);
    let a = index_from(e, k, 0);
    let b = index_from(f, k, 0);
    assert forall|m: int| 0 <= m < e.len() implies f[m] == e[m] by {}
    if k == id {
        lemma_lookup_skip(f, id, 0, e.len() as int);
    } else {
        if a < e.len() {
            if b < a {
                assert(e[b].0@ == k);
            }
            lemma_lookup_skip(f, k, 0, a);
        } else {
            if b < e.len() {
                assert(e[b].0@ == k);
            }
        }
    }
}

proof fn lemma_docs_map_ext(f: Seq<(String, CachedDocument)>, e: Seq<(String, CachedDocument)>, id: Seq<char>, d: DocView)
    requires
        forall|k: Seq<char>| lookup_from(f, k, 0) == (if k == id {
            Some(d)
        } else {
            lookup_from(e, k, 0)
        }),
    ensures
        docs_map(f) == docs_map(e).insert(id, d),
{
    assert forall|k: Seq<char>| #[trigger] docs_map(f).contains_key(k) == docs_map(e).insert(id, d).contains_key(k) by {
        assert(lookup_from(f, k, 0) == (if k == id { Some(d) } else { lookup_from(e, k, 0) }));
    }
    assert forall|k: Seq<char>| docs_map(f).contains_key(k) implies #[trigger] docs_map(f)[k] == docs_map(e).insert(id, d)[k] by {
        assert(lookup_from(f, k, 0) == (if k == id { Some(d) } else { lookup_from(e, k, 0) }));
    }
    assert(docs_map(f) =~= docs_map(e).insert(id, d));
}

pub struct DocumentCacheView {
    pub docs: Map<Seq<char>, DocView>,
    pub display_mode: ReadingViewDisplayMode,
}

impl View for DocumentCache {
    type V = DocumentCacheView;

    closed spec fn view(&self) -> DocumentCacheView {
        DocumentCacheView { docs: docs_map(self.docs@), display_mode: self.display_mode }
    }
}

impl Default for DocumentCache {
    /// An empty cache in the terminal display mode.
    fn default() -> (c: Self)
        ensures
            c@.docs == Map::<Seq<char>, DocView>::empty(),
            c@.display_mode == ReadingViewDisplayMode::Tui,
    {
        DocumentCache::with_display_mode(ReadingViewDisplayMode::Tui)
    }
}

impl DocumentCache {
    /// An empty cache with the given display mode.
    pub fn with_display_mode(mode: ReadingViewDisplayMode) -> (c: DocumentCache)
        ensures
            c@.docs == Map::<Seq<char>, DocView>::empty(),
            c@.display_mode == mode,
    {
        let c = DocumentCache { docs: Vec::new(), display_mode: mode };
        assert(c@.docs =~= Map::<Seq<char>, DocView>::empty());
        c
    }

    /// Sets the display mode (the user interface calls this when the user
    /// switches the reading view).
    pub fn set_display_mode(&mut self, mode: ReadingViewDisplayMode)
        ensures
            final(self)@.docs == old(self)@.docs,
            final(self)@.display_mode == mode,
    {
        self.display_mode = mode;
    }

    /// The current display mode.
    pub fn display_mode(&self) -> (m: ReadingViewDisplayMode)
        ensures
            m == self@.display_mode,
    {
        self.display_mode
    }

    fn find(&self, id: &[char]) -> (r: usize)
        ensures
            r == index_from(self.docs@, id@, 0),
            r <= self.docs@.len(),
            r < self.docs@.len() ==> self@.docs.contains_key(id@) && self@.docs[id@] == self.docs@[r as int].1@,
            r == self.docs@.len() ==> !self@.docs.contains_key(id@),
    {
        proof {
            lemma_index_from(self.docs@, id@, 0);
        }
        let mut i: usize = 0;
        while i < self.docs.len()
            invariant
                i <= self.docs@.len(),
                forall|k: int| 0 <= k < i ==> self.docs@[k].0@ != id@,
                index_from(self.docs@, id@, 0) == index_from(self.docs@, id@, i as int),
            decreases self.docs@.len() - i,
        {
            let key = chars_of(self.docs[i].0.as_str());
            if eq_chars(&key, id) {
                proof {
                    assert(index_from(self.docs@, id@, i as int) == i);
                    lemma_index_from(self.docs@, id@, 0);
                }
                return i;
            }
            i = i + 1;
        }
        i
    }

    /// Whether a document with this id is cached.
    pub fn contains(&self, document_id: &str) -> (b: bool)
        ensures
            b == self@.docs.contains_key(document_id@),
    {
        let id = chars_of(document_id);
        self.find(&id) < self.docs.len()
    }

    /// The cached document with this id.
    pub fn get(&self, document_id: &str) -> (r: Option<&CachedDocument>)
        ensures
            match r {
                Some(d) => self@.docs.contains_key(document_id@) && self@.docs[document_id@] == d@,
                None => !self@.docs.contains_key(document_id@),
            },
    {
        let id = chars_of(document_id);
        let i = self.find(&id);
        if i < self.docs.len() {
            Some(&self.docs[i].1)
        } else {
            None
        }
    }

    /// Stores `doc` under `document_id`, replacing any document cached there.
    pub fn insert(&mut self, document_id: String, doc: CachedDocument)
        ensures
            final(self)@.docs == old(self)@.docs.insert(document_id@, doc@),
            final(self)@.display_mode == old(self)@.display_mode,
    {
        let id = chars_of(document_id.as_str());
        let i = self.find(&id);
        let ghost e = self.docs@;
        let ghost entry = (document_id, doc);
        if i < self.docs.len() {
            proof {
                lemma_index_from(e, id@, 0);
            }
            self.docs.set(i, (document_id, doc));
            proof {
                assert forall|k: Seq<char>| lookup_from(e.update(i as int, entry), k, 0) == (if k == id@ {
                    Some(entry.1@)
                } else {
                    lookup_from(e, k, 0)
                }) by {
                    lemma_lookup_update(e, i as int, id@, entry, k);
                }
                lemma_docs_map_ext(e.update(i as int, entry), e, id@, entry.1@);
            }
        } else {
            proof {
                lemma_index_from(e, id@, 0);
            }
            self.docs.push((document_id, doc));
            proof {
                assert forall|k: Seq<char>| lookup_from(e.push(entry), k, 0) == (if k == id@ {
                    Some(entry.1@)
                } else {
                    lookup_from(e, k, 0)
                }) by {
                    lemma_lookup_push(e, id@, entry, k);
                }
                lemma_docs_map_ext(e.push(entry), e, id@, entry.1@);
            }
        }
    }

    /// Puts back a document from a replayed presentation (on session resume),
    /// so that later calls can show it again without regenerating it.
    pub fn restore_document(&mut self, document_id: String, title: String, content: &str, metadata: &MetadataTable)
        ensures
            final(self)@.docs == old(self)@.docs.insert(
                document_id@,
                DocView { title: title@, sections: parse_sections(content@, *metadata), streaming_next: None },
            ),
            final(self)@.display_mode == old(self)@.display_mode,
    {
        let sections = parse_sections_of(&chars_of(content), metadata);
        self.insert(document_id, CachedDocument { title, sections, streaming_next: None });
    }
}


/// What `regex_lite::Regex::new(pattern)` and then `replace_all(text, "")`
/// leave of `text`; `None` where the pattern does not compile.
pub uninterp spec fn regex_removal(pattern: Seq<char>, text: Seq<char>) -> Option<Seq<char>>;

/// Compiles `pattern` with `regex_lite::Regex::new` and removes every match
/// from `text` with `Regex::replace_all`. The contract only names the result:
/// nothing here states what the regex engine matches.
#[verifier::external_body]
fn regex_remove_all(pattern: &str, text: &str) -> (r: Option<String>)
    ensures
        opt_view(r) == regex_removal(pattern@, text@),
{
    match regex_lite::Regex::new(pattern) {
        Ok(re) => Some(re.replace_all(text, "").into_owned()),
        Err(_) => None,
    }
}

pub open spec fn citation_pattern() -> Seq<char> {
    "\\s*cite(?:turn\\d+(?:view|search)\\d+)+"@
}

pub open spec fn agent_metadata_pattern() -> Seq<char> {
    "(?s)<!--\\s*CODEX_SECTION_META\\s.*?-->\\s*\\n?"@
}

/// `text` with the regex's matches removed (unchanged if it does not compile).
pub open spec fn removed(pattern: Seq<char>, text: Seq<char>) -> Seq<char> {
    match regex_removal(pattern, text) {
        Some(r) => r,
        None => text,
    }
}

/// Removes web-browsing citation markers such as `citeturn5view0` (and
/// the whitespace before them) that the model sometimes leaves in text.
pub fn strip_citation_markers(text: &str) -> (s: String)
    ensures
        s@ == removed(citation_pattern(), text@),
{
    match regex_remove_all("\\s*cite(?:turn\\d+(?:view|search)\\d+)+", text) {
        Some(s) => s,
        None => String::from_str(text),
    }
}

/// Removes `<!-- CODEX_SECTION_META ... -->` comments that the agent wrote
/// into its own content, one-line or spread over several lines; fold and
/// summary come from the tool parameters instead.
pub fn strip_agent_authored_metadata(text: &str) -> (s: String)
    ensures
        s@ == removed(agent_metadata_pattern(), text@),
{
    match regex_remove_all("(?s)<!--\\s*CODEX_SECTION_META\\s.*?-->\\s*\\n?", text) {
        Some(s) => s,
        None => String::from_str(text),
    }
}

/// Agent-supplied section text as it is stored: citation markers and
/// agent-written metadata comments removed.
pub open spec fn cleaned(text: Seq<char>) -> Seq<char> {
    removed(agent_metadata_pattern(), removed(citation_pattern(), text))
}

pub fn clean_agent_text(text: &str) -> (s: String)
    ensures
        s@ == cleaned(text@),
{
    let a = strip_citation_markers(text);
    strip_agent_authored_metadata(a.as_str())
}

/// An event for the user interface about a reading-view document.
#[derive(Debug)]
pub enum DocumentEvent {
    PresentDocument { document_id: String, title: String, content: String, is_reopen: bool },
    UpdateDocumentSection {
        document_id: String,
        section_index: usize,
        content: String,
        foldable: bool,
        summary: Option<String>,
    },
    AppendDocumentSection {
        document_id: String,
        section_index: usize,
        content: String,
        foldable: bool,
        summary: Option<String>,
    },
    AddDocumentSection {
        document_id: String,
        after_section_index: i32,
        heading: String,
        content: String,
        foldable: bool,
        summary: Option<String>,
    },
    PatchDocumentSection {
        document_id: String,
        section_index: usize,
        old_text: String,
        new_text: String,
        foldable: bool,
        summary: Option<String>,
    },
}

pub enum EventView {
    Present { id: Seq<char>, title: Seq<char>, content: Seq<char>, is_reopen: bool },
    Update { id: Seq<char>, index: usize, content: Seq<char>, foldable: bool, summary: Option<Seq<char>> },
    Append { id: Seq<char>, index: usize, content: Seq<char>, foldable: bool, summary: Option<Seq<char>> },
    Add {
        id: Seq<char>,
        after: i32,
        heading: Seq<char>,
        content: Seq<char>,
        foldable: bool,
        summary: Option<Seq<char>>,
    },
    Patch {
        id: Seq<char>,
        index: usize,
        old_text: Seq<char>,
        new_text: Seq<char>,
        foldable: bool,
        summary: Option<Seq<char>>,
    },
}

impl View for DocumentEvent {
    type V = EventView;

    open spec fn view(&self) -> EventView {
        match self {
            DocumentEvent::PresentDocument { document_id, title, content, is_reopen } => EventView::Present {
                id: document_id@,
                title: title@,
                content: content@,
                is_reopen: *is_reopen,
            },
            DocumentEvent::UpdateDocumentSection { document_id, section_index, content, foldable, summary } =>
                EventView::Update {
                id: document_id@,
                index: *section_index,
                content: content@,
                foldable: *foldable,
                summary: opt_view(*summary),
            },
            DocumentEvent::AppendDocumentSection { document_id, section_index, content, foldable, summary } =>
                EventView::Append {
                id: document_id@,
                index: *section_index,
                content: content@,
                foldable: *foldable,
                summary: opt_view(*summary),
            },
            DocumentEvent::AddDocumentSection { document_id, after_section_index, heading, content, foldable, summary } =>
                EventView::Add {
                id: document_id@,
                after: *after_section_index,
                heading: heading@,
                content: content@,
                foldable: *foldable,
                summary: opt_view(*summary),
            },
            DocumentEvent::PatchDocumentSection { document_id, section_index, old_text, new_text, foldable, summary } =>
                EventView::Patch {
                id: document_id@,
                index: *section_index,
                old_text: old_text@,
                new_text: new_text@,
                foldable: *foldable,
                summary: opt_view(*summary),
            },
        }
    }
}

/// The reply to a reading-view tool call: the text for the model and the
/// events for the user interface, in the order they are sent.
#[derive(Debug)]
pub struct DocumentReply {
    pub message: String,
    pub events: Vec<DocumentEvent>,
}

pub open spec fn event_views(v: Seq<DocumentEvent>) -> Seq<EventView> {
    v.map_values(|e: DocumentEvent| e@)
}

pub struct ReplyView {
    pub message: Seq<char>,
    pub events: Seq<EventView>,
}

impl View for DocumentReply {
    type V = ReplyView;

    open spec fn view(&self) -> ReplyView {
        ReplyView { message: self.message@, events: event_views(self.events@) }
    }
}

pub open spec fn result_view(r: Result<DocumentReply, String>) -> Result<ReplyView, Seq<char>> {
    match r {
        Ok(reply) => Ok(reply@),
        Err(e) => Err(e@),
    }
}

pub fn clone_section(s: &CachedSection) -> (c: CachedSection)
    ensures
        c@ == s@,
{
    CachedSection {
        heading: s.heading.clone(),
        content: s.content.clone(),
        foldable: s.foldable,
        summary: clone_opt(&s.summary),
    }
}

pub fn clone_document(d: &CachedDocument) -> (c: CachedDocument)
    ensures
        c@ == d@,
{
    let mut sections: Vec<CachedSection> = Vec::new();
    let mut i: usize = 0;
    while i < d.sections.len()
        invariant
            i <= d.sections@.len(),
            section_views(sections@) == section_views(d.sections@).take(i as int),
        decreases d.sections@.len() - i,
    {
        let c = clone_section(&d.sections[i]);
        let ghost old_secs = sections@;
        sections.push(c);
        assert(section_views(sections@) =~= section_views(d.sections@).take(i + 1)) by {
            assert(section_views(sections@) =~= section_views(old_secs).push(c@));
        }
        i = i + 1;
    }
    assert(section_views(d.sections@).take(d.sections@.len() as int) =~= section_views(d.sections@));
    CachedDocument { title: d.title.clone(), sections, streaming_next: d.streaming_next }
}

/// Whether a freshly presented document is only an outline: several
/// sections, none with both a heading and content.
pub open spec fn is_outline(secs: Seq<SectionView>) -> bool {
    secs.len() > 1 && forall|i: int| 0 <= i < secs.len() ==> #[trigger] secs[i].heading.len() == 0
        || trim(secs[i].content).len() == 0
}

pub fn outline_only(secs: &Vec<CachedSection>) -> (b: bool)
    ensures
        b == is_outline(section_views(secs@)),
{
    let ghost sv = section_views(secs@);
    if secs.len() <= 1 {
        return false;
    }
    let mut i: usize = 0;
    while i < secs.len()
        invariant
            sv == section_views(secs@),
            i <= secs@.len(),
            forall|k: int| 0 <= k < i ==> #[trigger] sv[k].heading.len() == 0 || trim(sv[k].content).len() == 0,
        decreases secs@.len() - i,
    {
        let s = &secs[i];
        assert(s@ == sv[i as int]);
        if !s.heading.as_str().is_empty() {
            let c = chars_of(s.content.as_str());
            let t = trim_chars(&c);
            if t.len() != 0 {
                assert(!(sv[i as int].heading.len() == 0 || trim(sv[i as int].content).len() == 0));
                return false;
            }
        }
        i = i + 1;
    }
    true
}

pub open spec fn not_viewed_error(id: Seq<char>) -> Seq<char> {
    "No document with id \""@ + id
        + "\" is currently being viewed. Call present_reading_view first to display a document."@
}

pub fn not_viewed(id: &str) -> (s: String)
    ensures
        s@ == not_viewed_error(id@),
{
    let mut s = String::from_str("No document with id \"");
    s.append(id);
    s.append("\" is currently being viewed. Call present_reading_view first to display a document.");
    s
}

pub open spec fn out_of_bounds_error(index: usize, len: nat) -> Seq<char> {
    "Section index "@ + decimal(index as nat) + " is out of bounds. Document has "@ + decimal(len)
        + " section(s) (valid indices: 0\u{2013}"@ + decimal(if len > 0 { (len - 1) as nat } else { 0 })
        + ")."@
}

pub fn out_of_bounds(index: usize, len: usize) -> (s: String)
    ensures
        s@ == out_of_bounds_error(index, len as nat),
{
    let mut s = String::from_str("Section index ");
    push_decimal(&mut s, index as u64);
    s.append(" is out of bounds. Document has ");
    push_decimal(&mut s, len as u64);
    s.append(" section(s) (valid indices: 0\u{2013}");
    let last: usize = if len > 0 {
        len - 1
    } else {
        0
    };
    push_decimal(&mut s, last as u64);
    s.append(").");
    s
}


pub open spec fn no_cached_error(id: Seq<char>) -> Seq<char> {
    "No cached document with id \""@ + id
        + "\". Provide title and content when presenting a document for the first time."@
}

pub open spec fn outline_message(index: usize, heading: Seq<char>, state: Seq<char>) -> Seq<char> {
    "Document outline displayed in reading mode. The user can now see the skeleton immediately. NOW call update_document_section with section_index="@
        + decimal(index as nat) + " ('"@ + heading
        + "') to fill the first section. After each update_document_section result, continue filling the next section until all sections are complete. Do not output plain text between these tool calls.\n\n"@
        + state
}

pub open spec fn displayed_message(state: Seq<char>) -> Seq<char> {
    "Document displayed in reading mode. The user can now navigate sections and ask follow-up questions. For ANY follow-up about this topic, use the reading view tools rather than a plain text answer.\n\n"@
        + state
}

/// The documents after `present_reading_view`, and the title and markdown
/// shown (`None` when nothing can be shown).
pub open spec fn presented(
    c: DocumentCacheView,
    id: Seq<char>,
    title: Option<Seq<char>>,
    content: Option<Seq<char>>,
    table: MetadataTable,
) -> (Map<Seq<char>, DocView>, Option<(Seq<char>, Seq<char>)>) {
    if title is Some && content is Some {
        let t = title->0;
        let body = removed(citation_pattern(), content->0);
        let secs = parse_sections(body, table);
        let doc = DocView {
            title: t,
            sections: secs,
            streaming_next: if is_outline(secs) {
                Some(0)
            } else {
                None
            },
        };
        (c.docs.insert(id, doc), Some((t, body)))
    } else if c.docs.contains_key(id) {
        (c.docs, Some((c.docs[id].title, markdown(c.docs[id].sections))))
    } else {
        (c.docs, None)
    }
}

/// What `present_reading_view` does: the new documents and the reply.
pub open spec fn present_step(
    c: DocumentCacheView,
    id: Seq<char>,
    title: Option<Seq<char>>,
    content: Option<Seq<char>>,
    table: MetadataTable,
    is_subagent: bool,
) -> (Map<Seq<char>, DocView>, Result<ReplyView, Seq<char>>) {
    let (docs, shown) = presented(c, id, title, content, table);
    match shown {
        None => (docs, Err(no_cached_error(id))),
        Some((t, body)) => {
            let events = if is_subagent {
                seq![]
            } else {
                seq![EventView::Present { id, title: t, content: body, is_reopen: false }]
            };
            let message = if is_subagent {
                "# "@ + t + "\n\n"@ + body
            } else {
                let state = display_mode_state_text(c.display_mode);
                match next_streaming(docs[id]) {
                    Some((i, h)) => outline_message(i, h, state),
                    None => displayed_message(state),
                }
            };
            (docs, Ok(ReplyView { message, events }))
        },
    }
}

impl DocumentCache {
    /// `present_reading_view`: caches a new document (or replaces one) when
    /// title and content are given, otherwise shows the cached one again.
    pub fn present_document(
        &mut self,
        document_id: String,
        title: Option<String>,
        content: Option<String>,
        metadata: &MetadataTable,
        is_subagent: bool,
    ) -> (r: Result<DocumentReply, String>)
        ensures
            final(self)@.display_mode == old(self)@.display_mode,
            (final(self)@.docs, result_view(r)) == present_step(
                old(self)@,
                document_id@,
                opt_view(title),
                opt_view(content),
                *metadata,
                is_subagent,
            ),
    {
        let ghost c0 = self@;
        let (t, body): (String, String) = match (title, content) {
            (Some(t), Some(c)) => {
                let c = strip_citation_markers(c.as_str());
                let sections = parse_sections_of(&chars_of(c.as_str()), metadata);
                let outline = outline_only(&sections);
                let doc = CachedDocument {
                    title: t.clone(),
                    sections,
                    streaming_next: if outline {
                        Some(0)
                    } else {
                        None
                    },
                };
                self.insert(document_id.clone(), doc);
                (t, c)
            },
            _ => {
                match self.get(document_id.as_str()) {
                    Some(cached) => (cached.title.clone(), sections_to_markdown(&cached.sections)),
                    None => {
                        let mut e = String::from_str("No cached document with id \"");
                        e.append(document_id.as_str());
                        e.append("\". Provide title and content when presenting a document for the first time.");
                        return Err(e);
                    },
                }
            },
        };
        let ghost docs1 = self@.docs;
        assert(docs1.contains_key(document_id@));
        let mut events: Vec<DocumentEvent> = Vec::new();
        if !is_subagent {
            events.push(
                DocumentEvent::PresentDocument {
                    document_id: document_id.clone(),
                    title: t.clone(),
                    content: body.clone(),
                    is_reopen: false,
                },
            );
        }
        let message = if is_subagent {
            let mut m = String::from_str("# ");
            m.append(t.as_str());
            m.append("\n\n");
            m.append(body.as_str());
            m
        } else {
            let state = reading_view_display_mode_state(self.display_mode);
            let next = match self.get(document_id.as_str()) {
                Some(doc) => next_streaming_section(doc),
                None => None,
            };
            match next {
                Some((next_index, next_heading)) => {
                    let mut m = String::from_str(
                        "Document outline displayed in reading mode. The user can now see the skeleton immediately. NOW call update_document_section with section_index=",
                    );
                    push_decimal(&mut m, next_index as u64);
                    m.append(" ('");
                    m.append(next_heading.as_str());
                    m.append(
                        "') to fill the first section. After each update_document_section result, continue filling the next section until all sections are complete. Do not output plain text between these tool calls.\n\n",
                    );
                    m.append(state);
                    m
                },
                None => {
                    let mut m = String::from_str(
                        "Document displayed in reading mode. The user can now navigate sections and ask follow-up questions. For ANY follow-up about this topic, use the reading view tools rather than a plain text answer.\n\n",
                    );
                    m.append(state);
                    m
                },
            }
        };
        let reply = DocumentReply { message, events };
        proof {
            if !is_subagent {
                assert(event_views(reply.events@) =~= seq![
                    EventView::Present { id: document_id@, title: t@, content: body@, is_reopen: false },
                ]);
            } else {
                assert(event_views(reply.events@) =~= seq![]);
            }
        }
        Ok(reply)
    }
}


/// A section after `update_document_section` with `content`: content that
/// starts with `## ` also renames the section (its first line is the heading).
pub open spec fn updated_section(sec: SectionView, content: Seq<char>) -> SectionView {
    if starts_with(content, "## "@) {
        let rest = content.skip(3);
        let nl = first_index(rest, '\n');
        if nl < rest.len() {
            SectionView { heading: trim(rest.take(nl)), content: rest.skip(nl + 1), foldable: sec.foldable, summary: sec.summary }
        } else {
            SectionView { heading: trim(rest), content: seq![], foldable: sec.foldable, summary: sec.summary }
        }
    } else {
        SectionView { heading: sec.heading, content, foldable: sec.foldable, summary: sec.summary }
    }
}

pub open spec fn update_streaming_message(index: usize, next: usize, heading: Seq<char>) -> Seq<char> {
    "Section "@ + decimal(index as nat) + " updated. NOW call update_document_section with section_index="@
        + decimal(next as nat) + " ('"@ + heading
        + "'). Do not output text \u{2014} make the tool call immediately."@
}

/// The document after the update, and the streaming message if it was streaming.
pub open spec fn update_doc(d: DocView, index: usize, content: Seq<char>) -> (DocView, Option<Seq<char>>) {
    let secs = d.sections.update(index as int, updated_section(d.sections[index as int], content));
    match d.streaming_next {
        Some(next) => {
            let m = if next > index { next } else { index };
            if m + 1 < secs.len() {
                (
                    DocView { title: d.title, sections: secs, streaming_next: Some((m + 1) as usize) },
                    Some(update_streaming_message(index, (m + 1) as usize, secs[m + 1].heading)),
                )
            } else {
                (
                    DocView { title: d.title, sections: secs, streaming_next: None },
                    Some("All sections filled. Wait for user interaction."@),
                )
            }
        },
        None => (DocView { title: d.title, sections: secs, streaming_next: None }, None),
    }
}

pub open spec fn reopen_events(id: Seq<char>, reopen: Option<(Seq<char>, Seq<char>)>) -> Seq<EventView> {
    match reopen {
        Some((t, body)) => seq![EventView::Present { id, title: t, content: body, is_reopen: true }],
        None => seq![],
    }
}

/// What `update_document_section` does: the new documents and the reply.
pub open spec fn update_step(c: DocumentCacheView, id: Seq<char>, index: usize, raw: Seq<char>, is_subagent: bool) -> (
    Map<Seq<char>, DocView>,
    Result<ReplyView, Seq<char>>,
) {
    let content = cleaned(raw);
    if !c.docs.contains_key(id) {
        (c.docs, Err(not_viewed_error(id)))
    } else if index >= c.docs[id].sections.len() {
        (c.docs, Err(out_of_bounds_error(index, c.docs[id].sections.len())))
    } else {
        let (d, msg) = update_doc(c.docs[id], index, content);
        let reopen = if msg is None {
            Some((d.title, markdown(d.sections)))
        } else {
            None
        };
        let sec = d.sections[index as int];
        let events = reopen_events(id, reopen) + if is_subagent {
            seq![]
        } else {
            seq![EventView::Update { id, index, content, foldable: sec.foldable, summary: sec.summary }]
        };
        let message = match msg {
            Some(m) => m,
            None => "Section updated. The user can see the change immediately."@,
        };
        (c.docs.insert(id, d), Ok(ReplyView { message, events }))
    }
}

pub fn apply_section_update(sec: &CachedSection, content: &String) -> (r: CachedSection)
    ensures
        r@ == updated_section(sec@, content@),
{
    let cv = chars_of(content.as_str());
    let marker = chars_of("## ");
    if starts_with_chars(&cv, &marker) {
        proof {
            reveal_strlit("## ");
        }
        let mut rest: Vec<char> = Vec::new();
        let mut k: usize = 3;
        assert(rest@ =~= cv@.subrange(3, 3));
        while k < cv.len()
            invariant
                3 <= k <= cv@.len(),
                rest@ == cv@.subrange(3, k as int),
            decreases cv@.len() - k,
        {
            rest.push(cv[k]);
            k = k + 1;
            assert(rest@ =~= cv@.subrange(3, k as int));
        }
        assert(rest@ =~= cv@.skip(3));
        let mut nl: usize = 0;
        while nl < rest.len() && rest[nl] != '\n'
            invariant
                nl <= rest@.len(),
                forall|j: int| 0 <= j < nl ==> rest@[j] != '\n',
            decreases rest@.len() - nl,
        {
            nl = nl + 1;
        }
        proof {
            lemma_first_index_is(rest@, '\n', nl as int);
        }
        if nl < rest.len() {
            let mut head: Vec<char> = Vec::new();
            let mut j: usize = 0;
            while j < nl
                invariant
                    nl < rest@.len(),
                    j <= nl,
                    head@ == rest@.take(j as int),
                decreases nl - j,
            {
                head.push(rest[j]);
                j = j + 1;
                assert(head@ =~= rest@.take(j as int));
            }
            let mut tail: Vec<char> = Vec::new();
            let mut j2: usize = nl + 1;
            assert(tail@ =~= rest@.subrange(nl + 1, nl + 1));
            while j2 < rest.len()
                invariant
                    nl < rest@.len(),
                    nl + 1 <= j2 <= rest@.len(),
                    tail@ == rest@.subrange(nl + 1, j2 as int),
                decreases rest@.len() - j2,
            {
                tail.push(rest[j2]);
                j2 = j2 + 1;
                assert(tail@ =~= rest@.subrange(nl + 1, j2 as int));
            }
            assert(tail@ =~= rest@.skip(nl + 1));
            CachedSection {
                heading: string_of(&trim_chars(&head)),
                content: string_of(&tail),
                foldable: sec.foldable,
                summary: clone_opt(&sec.summary),
            }
        } else {
            CachedSection {
                heading: string_of(&trim_chars(&rest)),
                content: String::new(),
                foldable: sec.foldable,
                summary: clone_opt(&sec.summary),
            }
        }
    } else {
        CachedSection {
            heading: sec.heading.clone(),
            content: content.clone(),
            foldable: sec.foldable,
            summary: clone_opt(&sec.summary),
        }
    }
}

pub fn set_section(secs: &mut Vec<CachedSection>, i: usize, s: CachedSection)
    requires
        i < old(secs)@.len(),
    ensures
        section_views(final(secs)@) == section_views(old(secs)@).update(i as int, s@),
{
    let ghost sv = s@;
    secs.set(i, s);
    assert(section_views(secs@) =~= section_views(old(secs)@).update(i as int, sv));
}

impl DocumentCache {
    /// `update_document_section`: replaces one section's content (and its
    /// heading, when the new content starts with `## `), advancing the
    /// streaming position.
    pub fn update_section(&mut self, document_id: String, section_index: usize, content: String, is_subagent: bool) -> (r: Result<DocumentReply, String>)
        ensures
            final(self)@.display_mode == old(self)@.display_mode,
            (final(self)@.docs, result_view(r)) == update_step(old(self)@, document_id@, section_index, content@, is_subagent),
    {
        let text = clean_agent_text(content.as_str());
        let mut doc = match self.get(document_id.as_str()) {
            Some(d) => clone_document(d),
            None => {
                return Err(not_viewed(document_id.as_str()));
            },
        };
        let len = doc.sections.len();
        if section_index >= len {
            return Err(out_of_bounds(section_index, len));
        }
        let ghost d0 = doc@;
        assert(d0 == old(self)@.docs[document_id@]);
        assert(doc.sections@[section_index as int]@ == d0.sections[section_index as int]);
        let new_section = apply_section_update(&doc.sections[section_index], &text);
        assert(new_section@ == updated_section(d0.sections[section_index as int], cleaned(content@)));
        let foldable = new_section.foldable;
        let summary = clone_opt(&new_section.summary);
        set_section(&mut doc.sections, section_index, new_section);
        let mut msg: Option<String> = None;
        match doc.streaming_next {
            Some(next) => {
                let m = if next > section_index {
                    next
                } else {
                    section_index
                };
                if m < len - 1 {
                    doc.streaming_next = Some(m + 1);
                    let heading = doc.sections[m + 1].heading.clone();
                    assert(doc.sections@[m + 1]@ == doc@.sections[m + 1]);
                    let mut t = String::from_str("Section ");
                    push_decimal(&mut t, section_index as u64);
                    t.append(" updated. NOW call update_document_section with section_index=");
                    push_decimal(&mut t, (m + 1) as u64);
                    t.append(" ('");
                    t.append(heading.as_str());
                    t.append("'). Do not output text \u{2014} make the tool call immediately.");
                    msg = Some(t);
                } else {
                    doc.streaming_next = None;
                    msg = Some(String::from_str("All sections filled. Wait for user interaction."));
                }
            },
            None => {},
        }
        let mut events: Vec<DocumentEvent> = Vec::new();
        if msg.is_none() {
            events.push(
                DocumentEvent::PresentDocument {
                    document_id: document_id.clone(),
                    title: doc.title.clone(),
                    content: sections_to_markdown(&doc.sections),
                    is_reopen: true,
                },
            );
        }
        let ghost reopen_ev = event_views(events@);
        if !is_subagent {
            events.push(
                DocumentEvent::UpdateDocumentSection {
                    document_id: document_id.clone(),
                    section_index,
                    content: text,
                    foldable,
                    summary,
                },
            );
        }
        let ghost dv = doc@;
        proof {
            let spec = update_doc(d0, section_index, cleaned(content@));
            assert(dv.sections == spec.0.sections);
            assert(dv.title == spec.0.title);
        }
        self.insert(document_id, doc);
        let message = match msg {
            Some(m) => m,
            None => String::from_str("Section updated. The user can see the change immediately."),
        };
        let reply = DocumentReply { message, events };
        proof {
            let spec = update_doc(old(self)@.docs[document_id@], section_index, cleaned(content@));
            assert(dv == spec.0);
            assert(event_views(reply.events@) =~= update_step(old(self)@, document_id@, section_index, content@, is_subagent).1->Ok_0.events);
        }
        Ok(reply)
    }
}


/// `old` followed by `added`, with a newline between them when `old` is not
/// empty and does not already end with one.
pub open spec fn appended_content(old: Seq<char>, added: Seq<char>) -> Seq<char> {
    (if old.len() > 0 && old.last() != '\n' {
        old.push('\n')
    } else {
        old
    }) + added
}

pub open spec fn unwrap_or(o: Option<bool>, d: bool) -> bool {
    match o {
        Some(b) => b,
        None => d,
    }
}

/// What `append_to_section` does: the new documents and the reply.
pub open spec fn append_step(
    c: DocumentCacheView,
    id: Seq<char>,
    index: usize,
    raw: Seq<char>,
    foldable: Option<bool>,
    summary: Option<Seq<char>>,
    is_subagent: bool,
) -> (Map<Seq<char>, DocView>, Result<ReplyView, Seq<char>>) {
    let content = cleaned(raw);
    if !c.docs.contains_key(id) {
        (c.docs, Err(not_viewed_error(id)))
    } else if index >= c.docs[id].sections.len() {
        (c.docs, Err(out_of_bounds_error(index, c.docs[id].sections.len())))
    } else {
        let d = c.docs[id];
        let sec = d.sections[index as int];
        let fold = unwrap_or(foldable, true);
        let new_sec = SectionView {
            heading: sec.heading,
            content: appended_content(sec.content, content),
            foldable: fold,
            summary,
        };
        let d2 = DocView { title: d.title, sections: d.sections.update(index as int, new_sec), streaming_next: d.streaming_next };
        let reminder = unfilled_reminder(d2);
        let reopen = if reminder.len() == 0 {
            Some((d.title, markdown(d.sections)))
        } else {
            None
        };
        let events = reopen_events(id, reopen) + if is_subagent {
            seq![]
        } else {
            seq![EventView::Append { id, index, content, foldable: fold, summary }]
        };
        let message = "Content appended to section. The user can see the change immediately."@ + reminder;
        (c.docs.insert(id, d2), Ok(ReplyView { message, events }))
    }
}

/// Law: after a successful append the section holds its old content, then a
/// line break where that content is non-empty and does not end with one, then
/// the cleaned appended text exactly once; its heading and the document's
/// other sections stay as they were.
pub proof fn law_append_adds_text_once(
    c: DocumentCacheView,
    id: Seq<char>,
    index: usize,
    raw: Seq<char>,
    foldable: Option<bool>,
    summary: Option<Seq<char>>,
    is_subagent: bool,
)
    ensures
        ({
            let step = append_step(c, id, index, raw, foldable, summary, is_subagent);
            let before = c.docs[id].sections[index as int].content;
            let after = step.0[id].sections[index as int].content;
            let added = cleaned(raw);
            let sep: int = if before.len() > 0 && before.last() != '\n' {
                1
            } else {
                0
            };
            step.1 is Ok ==> {
                &&& after.len() == before.len() + sep + added.len()
                &&& after.subrange(0, before.len() as int) == before
                &&& sep == 1 ==> after[before.len() as int] == '\n'
                &&& after.subrange(after.len() - added.len(), after.len() as int) == added
                &&& step.0[id].sections[index as int].heading == c.docs[id].sections[index as int].heading
                &&& step.0[id].sections.len() == c.docs[id].sections.len()
                &&& forall|j: int|
                    0 <= j < c.docs[id].sections.len() && j != index ==> #[trigger] step.0[id].sections[j]
                        == c.docs[id].sections[j]
            }
        }),
{
    let step = append_step(c, id, index, raw, foldable, summary, is_subagent);
    if step.1 is Ok {
        let before = c.docs[id].sections[index as int].content;
        let added = cleaned(raw);
        let after = appended_content(before, added);
        assert(step.0[id].sections[index as int].content == after);
        let lead = if before.len() > 0 && before.last() != '\n' {
            before.push('\n')
        } else {
            before
        };
        assert(after == lead + added);
        assert(after.subrange(0, before.len() as int) =~= before);
        assert(after.subrange(after.len() - added.len(), after.len() as int) =~= added);
    }
}

pub open spec fn add_range_error(after: i32, len: nat) -> Seq<char> {
    "after_section_index "@ + signed_decimal(after as int) + " is out of bounds. Document has "@ + decimal(len)
        + " section(s) (valid range: -1\u{2013}"@ + signed_decimal(len - 1) + ")."@
}

/// What `add_document_section` does: the new documents and the reply. (The
/// bound is computed exactly here; the range check is the same for every
/// document with fewer than 2^31 sections.)
pub open spec fn add_step(
    c: DocumentCacheView,
    id: Seq<char>,
    after: i32,
    heading: Seq<char>,
    raw: Seq<char>,
    foldable: Option<bool>,
    summary: Option<Seq<char>>,
    is_subagent: bool,
) -> (Map<Seq<char>, DocView>, Result<ReplyView, Seq<char>>) {
    let content = cleaned(raw);
    if !c.docs.contains_key(id) {
        (c.docs, Err(not_viewed_error(id)))
    } else if after < -1 || after > c.docs[id].sections.len() - 1 {
        (c.docs, Err(add_range_error(after, c.docs[id].sections.len())))
    } else {
        let d = c.docs[id];
        let fold = unwrap_or(foldable, false);
        let new_sec = SectionView { heading, content, foldable: fold, summary };
        let d2 = DocView {
            title: d.title,
            sections: d.sections.insert(after + 1, new_sec),
            streaming_next: d.streaming_next,
        };
        let events = reopen_events(id, Some((d.title, markdown(d.sections)))) + if is_subagent {
            seq![]
        } else {
            seq![EventView::Add { id, after, heading, content, foldable: fold, summary }]
        };
        (c.docs.insert(id, d2), Ok(ReplyView { message: "New section added. The user can see the change immediately."@, events }))
    }
}

/// The first position at which `p` occurs in `s` (meaningful when it occurs).

/// `s` with the first occurrence of `p` replaced by `r`, as `replacen(p, r, 1)` does.
pub open spec fn replace_first(s: Seq<char>, p: Seq<char>, r: Seq<char>) -> Seq<char> {
    if contains(s, p) {
        let i = first_occurrence(s, p);
        s.take(i) + r + s.skip(i + p.len())
    } else {
        s
    }
}

pub open spec fn old_text_missing_error(index: usize, content: Seq<char>) -> Seq<char> {
    "old_text not found in section "@ + decimal(index as nat) + ". Section content starts with: \""@
        + content.take(if content.len() < 120 { content.len() as int } else { 120 }) + "\u{2026}\""@
}

/// What `patch_document_section` does: the new documents and the reply.
pub open spec fn patch_step(
    c: DocumentCacheView,
    id: Seq<char>,
    index: usize,
    old_text: Seq<char>,
    raw_new: Seq<char>,
    foldable: Option<bool>,
    summary: Option<Seq<char>>,
    is_subagent: bool,
) -> (Map<Seq<char>, DocView>, Result<ReplyView, Seq<char>>) {
    let new_text = cleaned(raw_new);
    if !c.docs.contains_key(id) {
        (c.docs, Err(not_viewed_error(id)))
    } else if index >= c.docs[id].sections.len() {
        (c.docs, Err(out_of_bounds_error(index, c.docs[id].sections.len())))
    } else if !contains(c.docs[id].sections[index as int].content, old_text) {
        (c.docs, Err(old_text_missing_error(index, c.docs[id].sections[index as int].content)))
    } else {
        let d = c.docs[id];
        let sec = d.sections[index as int];
        let fold = unwrap_or(foldable, true);
        let reminder = unfilled_reminder(d);
        let reopen = if reminder.len() == 0 {
            Some((d.title, markdown(d.sections)))
        } else {
            None
        };
        let new_sec = SectionView {
            heading: sec.heading,
            content: replace_first(sec.content, old_text, new_text),
            foldable: fold,
            summary,
        };
        let d2 = DocView { title: d.title, sections: d.sections.update(index as int, new_sec), streaming_next: d.streaming_next };
        let events = reopen_events(id, reopen) + if is_subagent {
            seq![]
        } else {
            seq![EventView::Patch { id, index, old_text, new_text, foldable: fold, summary }]
        };
        let message = "Section patched. The user can see the change immediately."@ + reminder;
        (c.docs.insert(id, d2), Ok(ReplyView { message, events }))
    }
}

pub fn insert_section(secs: &mut Vec<CachedSection>, i: usize, s: CachedSection)
    requires
        i <= old(secs)@.len(),
    ensures
        section_views(final(secs)@) == section_views(old(secs)@).insert(i as int, s@),
{
    let ghost sv = s@;
    secs.insert(i, s);
    assert(section_views(secs@) =~= section_views(old(secs)@).insert(i as int, sv));
}

/// `s` with the first occurrence of `p` replaced by `r`.
pub fn replace_first_chars(s: &[char], p: &[char], r: &[char]) -> (out: Vec<char>)
    ensures
        out@ == replace_first(s@, p@, r@),
{
    match find_chars(s, p) {
        None => copy_chars(s),
        Some(i) => {
            proof {
                let j = first_occurrence(s@, p@);
                assert(occurs_at(s@, p@, i as int));
                assert(contains(s@, p@));
                if j != i {
                    if j < i {
                        assert(!occurs_at(s@, p@, j));
                    } else {
                        assert(!occurs_at(s@, p@, i as int));
                    }
                }
            }
            let mut out: Vec<char> = Vec::new();
            let mut k: usize = 0;
            while k < i
                invariant
                    i + p@.len() <= s@.len(),
                    k <= i,
                    out@ == s@.take(k as int),
                decreases i - k,
            {
                out.push(s[k]);
                k = k + 1;
                assert(out@ =~= s@.take(k as int));
            }
            append_vec(&mut out, r);
            assert(s@.len() == s.len());
            let mut k2: usize = i + p.len();
            let ghost base = out@;
            assert(s@.subrange(k2 as int, k2 as int) =~= seq![]);
            while k2 < s.len()
                invariant
                    i + p@.len() <= k2 <= s@.len(),
                    out@ == base + s@.subrange(i + p@.len(), k2 as int),
                decreases s@.len() - k2,
            {
                out.push(s[k2]);
                k2 = k2 + 1;
                assert(out@ =~= base + s@.subrange(i + p@.len(), k2 as int));
            }
            assert(s@.subrange(i + p@.len(), s@.len() as int) =~= s@.skip(i + p@.len()));
            out
        },
    }
}

impl DocumentCache {
    /// `append_to_section`: adds content at the end of a section (foldable
    /// unless stated otherwise).
    pub fn append_to_section(
        &mut self,
        document_id: String,
        section_index: usize,
        content: String,
        foldable: Option<bool>,
        summary: Option<String>,
        is_subagent: bool,
    ) -> (r: Result<DocumentReply, String>)
        ensures
            final(self)@.display_mode == old(self)@.display_mode,
            (final(self)@.docs, result_view(r)) == append_step(
                old(self)@,
                document_id@,
                section_index,
                content@,
                foldable,
                opt_view(summary),
                is_subagent,
            ),
    {
        let text = clean_agent_text(content.as_str());
        let mut doc = match self.get(document_id.as_str()) {
            Some(d) => clone_document(d),
            None => {
                return Err(not_viewed(document_id.as_str()));
            },
        };
        let ghost d0 = doc@;
        let len = doc.sections.len();
        if section_index >= len {
            return Err(out_of_bounds(section_index, len));
        }
        let pre_title = doc.title.clone();
        let pre_markdown = sections_to_markdown(&doc.sections);
        assert(doc.sections@[section_index as int]@ == d0.sections[section_index as int]);
        let mut body = chars_of(doc.sections[section_index].content.as_str());
        if body.len() > 0 && body[body.len() - 1] != '\n' {
            push_char_vec(&mut body, '\n');
        }
        append_vec(&mut body, &chars_of(text.as_str()));
        let fold = match foldable {
            Some(b) => b,
            None => true,
        };
        let new_section = CachedSection {
            heading: doc.sections[section_index].heading.clone(),
            content: string_of(&body),
            foldable: fold,
            summary: clone_opt(&summary),
        };
        set_section(&mut doc.sections, section_index, new_section);
        let reminder = streaming_unfilled_reminder(&doc);
        let mut events: Vec<DocumentEvent> = Vec::new();
        if reminder.as_str().is_empty() {
            events.push(
                DocumentEvent::PresentDocument {
                    document_id: document_id.clone(),
                    title: pre_title,
                    content: pre_markdown,
                    is_reopen: true,
                },
            );
        }
        if !is_subagent {
            events.push(
                DocumentEvent::AppendDocumentSection {
                    document_id: document_id.clone(),
                    section_index,
                    content: text,
                    foldable: fold,
                    summary,
                },
            );
        }
        let ghost dv = doc@;
        self.insert(document_id, doc);
        let mut message = String::from_str("Content appended to section. The user can see the change immediately.");
        message.append(reminder.as_str());
        let reply = DocumentReply { message, events };
        proof {
            let spec = append_step(old(self)@, document_id@, section_index, content@, foldable, opt_view(summary), is_subagent);
            assert(dv.sections =~= spec.0[document_id@].sections);
            assert(event_views(reply.events@) =~= spec.1->Ok_0.events);
        }
        Ok(reply)
    }

    /// `add_document_section`: inserts a new section after
    /// `after_section_index` (-1 puts it first).
    pub fn add_section(
        &mut self,
        document_id: String,
        after_section_index: i32,
        heading: String,
        content: String,
        foldable: Option<bool>,
        summary: Option<String>,
        is_subagent: bool,
    ) -> (r: Result<DocumentReply, String>)
        ensures
            final(self)@.display_mode == old(self)@.display_mode,
            (final(self)@.docs, result_view(r)) == add_step(
                old(self)@,
                document_id@,
                after_section_index,
                heading@,
                content@,
                foldable,
                opt_view(summary),
                is_subagent,
            ),
    {
        let text = clean_agent_text(content.as_str());
        let mut doc = match self.get(document_id.as_str()) {
            Some(d) => clone_document(d),
            None => {
                return Err(not_viewed(document_id.as_str()));
            },
        };
        let len = doc.sections.len();
        if after_section_index < -1 || (after_section_index as i64 + 1) as usize > len {
            let mut e = String::from_str("after_section_index ");
            push_signed_decimal(&mut e, after_section_index as i64);
            e.append(" is out of bounds. Document has ");
            push_decimal(&mut e, len as u64);
            e.append(" section(s) (valid range: -1\u{2013}");
            if len == 0 {
                e.append("-1");
                proof {
                    reveal_strlit("-1");
                    assert("-1"@ =~= signed_decimal(-1));
                }
            } else {
                push_decimal(&mut e, (len - 1) as u64);
            }
            e.append(").");
            return Err(e);
        }
        let pre_title = doc.title.clone();
        let pre_markdown = sections_to_markdown(&doc.sections);
        let fold = match foldable {
            Some(b) => b,
            None => false,
        };
        let at = (after_section_index as i64 + 1) as usize;
        insert_section(
            &mut doc.sections,
            at,
            CachedSection { heading: heading.clone(), content: text.clone(), foldable: fold, summary: clone_opt(&summary) },
        );
        let mut events: Vec<DocumentEvent> = Vec::new();
        events.push(
            DocumentEvent::PresentDocument {
                document_id: document_id.clone(),
                title: pre_title,
                content: pre_markdown,
                is_reopen: true,
            },
        );
        if !is_subagent {
            events.push(
                DocumentEvent::AddDocumentSection {
                    document_id: document_id.clone(),
                    after_section_index,
                    heading,
                    content: text,
                    foldable: fold,
                    summary,
                },
            );
        }
        let ghost dv = doc@;
        self.insert(document_id, doc);
        let reply = DocumentReply {
            message: String::from_str("New section added. The user can see the change immediately."),
            events,
        };
        proof {
            let spec = add_step(old(self)@, document_id@, after_section_index, heading@, content@, foldable, opt_view(summary), is_subagent);
            assert(dv.sections =~= spec.0[document_id@].sections);
            assert(event_views(reply.events@) =~= spec.1->Ok_0.events);
        }
        Ok(reply)
    }

    /// `patch_document_section`: replaces the first occurrence of `old_text`
    /// in a section with `new_text` (foldable unless stated otherwise).
    pub fn patch_section(
        &mut self,
        document_id: String,
        section_index: usize,
        old_text: String,
        new_text: String,
        foldable: Option<bool>,
        summary: Option<String>,
        is_subagent: bool,
    ) -> (r: Result<DocumentReply, String>)
        ensures
            final(self)@.display_mode == old(self)@.display_mode,
            (final(self)@.docs, result_view(r)) == patch_step(
                old(self)@,
                document_id@,
                section_index,
                old_text@,
                new_text@,
                foldable,
                opt_view(summary),
                is_subagent,
            ),
    {
        let text = clean_agent_text(new_text.as_str());
        let mut doc = match self.get(document_id.as_str()) {
            Some(d) => clone_document(d),
            None => {
                return Err(not_viewed(document_id.as_str()));
            },
        };
        let ghost d0 = doc@;
        let len = doc.sections.len();
        if section_index >= len {
            return Err(out_of_bounds(section_index, len));
        }
        assert(doc.sections@[section_index as int]@ == d0.sections[section_index as int]);
        let body = chars_of(doc.sections[section_index].content.as_str());
        let old_chars = chars_of(old_text.as_str());
        if find_chars(&body, &old_chars).is_none() {
            let mut e = String::from_str("old_text not found in section ");
            push_decimal(&mut e, section_index as u64);
            e.append(". Section content starts with: \"");
            let n: usize = if body.len() < 120 {
                body.len()
            } else {
                120
            };
            let mut preview: Vec<char> = Vec::new();
            let mut k: usize = 0;
            while k < n
                invariant
                    n <= body@.len(),
                    k <= n,
                    preview@ == body@.take(k as int),
                decreases n - k,
            {
                preview.push(body[k]);
                k = k + 1;
                assert(preview@ =~= body@.take(k as int));
            }
            push_chars(&mut e, &preview);
            e.append("\u{2026}\"");
            return Err(e);
        }
        let reminder = streaming_unfilled_reminder(&doc);
        let mut events: Vec<DocumentEvent> = Vec::new();
        if reminder.as_str().is_empty() {
            events.push(
                DocumentEvent::PresentDocument {
                    document_id: document_id.clone(),
                    title: doc.title.clone(),
                    content: sections_to_markdown(&doc.sections),
                    is_reopen: true,
                },
            );
        }
        let replaced = replace_first_chars(&body, &old_chars, &chars_of(text.as_str()));
        let fold = match foldable {
            Some(b) => b,
            None => true,
        };
        let new_section = CachedSection {
            heading: doc.sections[section_index].heading.clone(),
            content: string_of(&replaced),
            foldable: fold,
            summary: clone_opt(&summary),
        };
        set_section(&mut doc.sections, section_index, new_section);
        if !is_subagent {
            events.push(
                DocumentEvent::PatchDocumentSection {
                    document_id: document_id.clone(),
                    section_index,
                    old_text,
                    new_text: text,
                    foldable: fold,
                    summary,
                },
            );
        }
        let ghost dv = doc@;
        self.insert(document_id, doc);
        let mut message = String::from_str("Section patched. The user can see the change immediately.");
        message.append(reminder.as_str());
        let reply = DocumentReply { message, events };
        proof {
            let spec = patch_step(old(self)@, document_id@, section_index, old_text@, new_text@, foldable, opt_view(summary), is_subagent);
            assert(dv.sections =~= spec.0[document_id@].sections);
            assert(event_views(reply.events@) =~= spec.1->Ok_0.events);
        }
        Ok(reply)
    }
}


/// A reading-view tool call, with its arguments decoded.
#[derive(Debug)]
pub enum DocumentRequest {
    /// `present_reading_view`; `metadata` decodes the metadata comments of
    /// the content (after citation markers are removed).
    Present { document_id: String, title: Option<String>, content: Option<String>, metadata: MetadataTable },
    /// `update_document_section`.
    Update { document_id: String, section_index: usize, content: String },
    /// `append_to_section`.
    Append {
        document_id: String,
        section_index: usize,
        content: String,
        foldable: Option<bool>,
        summary: Option<String>,
    },
    /// `add_document_section`.
    Add {
        document_id: String,
        after_section_index: i32,
        heading: String,
        content: String,
        foldable: Option<bool>,
        summary: Option<String>,
    },
    /// `patch_document_section`.
    Patch {
        document_id: String,
        section_index: usize,
        old_text: String,
        new_text: String,
        foldable: Option<bool>,
        summary: Option<String>,
    },
}

/// What a reading-view tool call does: the new documents and the reply.
pub open spec fn request_step(c: DocumentCacheView, request: DocumentRequest, is_subagent: bool) -> (
    Map<Seq<char>, DocView>,
    Result<ReplyView, Seq<char>>,
) {
    match request {
        DocumentRequest::Present { document_id, title, content, metadata } => present_step(
            c,
            document_id@,
            opt_view(title),
            opt_view(content),
            metadata,
            is_subagent,
        ),
        DocumentRequest::Update { document_id, section_index, content } => update_step(
            c,
            document_id@,
            section_index,
            content@,
            is_subagent,
        ),
        DocumentRequest::Append { document_id, section_index, content, foldable, summary } => append_step(
            c,
            document_id@,
            section_index,
            content@,
            foldable,
            opt_view(summary),
            is_subagent,
        ),
        DocumentRequest::Add { document_id, after_section_index, heading, content, foldable, summary } => add_step(
            c,
            document_id@,
            after_section_index,
            heading@,
            content@,
            foldable,
            opt_view(summary),
            is_subagent,
        ),
        DocumentRequest::Patch { document_id, section_index, old_text, new_text, foldable, summary } => patch_step(
            c,
            document_id@,
            section_index,
            old_text@,
            new_text@,
            foldable,
            opt_view(summary),
            is_subagent,
        ),
    }
}

impl DocumentCache {
    /// Carries out one reading-view tool call. A call from a subagent gets
    /// no user-interface events of its own (re-open events still go out).
    pub fn handle_request(&mut self, request: DocumentRequest, is_subagent: bool) -> (r: Result<DocumentReply, String>)
        ensures
            final(self)@.display_mode == old(self)@.display_mode,
            (final(self)@.docs, result_view(r)) == request_step(old(self)@, request, is_subagent),
    {
        match request {
            DocumentRequest::Present { document_id, title, content, metadata } => self.present_document(
                document_id,
                title,
                content,
                &metadata,
                is_subagent,
            ),
            DocumentRequest::Update { document_id, section_index, content } => self.update_section(
                document_id,
                section_index,
                content,
                is_subagent,
            ),
            DocumentRequest::Append { document_id, section_index, content, foldable, summary } => self.append_to_section(
                document_id,
                section_index,
                content,
                foldable,
                summary,
                is_subagent,
            ),
            DocumentRequest::Add { document_id, after_section_index, heading, content, foldable, summary } => self.add_section(
                document_id,
                after_section_index,
                heading,
                content,
                foldable,
                summary,
                is_subagent,
            ),
            DocumentRequest::Patch { document_id, section_index, old_text, new_text, foldable, summary } => self.patch_section(
                document_id,
                section_index,
                old_text,
                new_text,
                foldable,
                summary,
                is_subagent,
            ),
        }
    }
}

/// The `[reading_view] mode` setting.
#[derive(Debug, Clone, Copy, PartialEq, Eq, Structural)]
pub enum ReadingViewConfigMode {
    Tui,
    Browser,
    Disabled,
}

pub open spec fn lowercase_ascii(s: Seq<char>) -> Seq<char> {
    s.map_values(|c: char| if 'A' <= c && c <= 'Z' { ((c as u32) + 32) as char } else { c })
}

pub open spec fn config_mode_of(mode: Option<Seq<char>>) -> ReadingViewConfigMode {
    match mode {
        Some(m) => {
            let v = lowercase_ascii(trim(m));
            if v == "browser"@ {
                ReadingViewConfigMode::Browser
            } else if v == "disabled"@ || v == "off"@ {
                ReadingViewConfigMode::Disabled
            } else {
                ReadingViewConfigMode::Tui
            }
        },
        None => ReadingViewConfigMode::Tui,
    }
}

pub fn lowercase_ascii_chars(v: &[char]) -> (w: Vec<char>)
    ensures
        w@ == lowercase_ascii(v@),
{
    let mut w: Vec<char> = Vec::new();
    let mut i: usize = 0;
    while i < v.len()
        invariant
            i <= v@.len(),
            w@ == lowercase_ascii(v@).take(i as int),
        decreases v@.len() - i,
    {
        let c = v[i];
        let d = if 'A' <= c && c <= 'Z' {
            ((c as u32) + 32) as u8 as char
        } else {
            c
        };
        proof {
            if 'A' <= c && c <= 'Z' {
                assert(((c as u32) + 32) as u8 as char == ((c as u32) + 32) as char);
            }
        }
        w.push(d);
        i = i + 1;
        assert(w@ =~= lowercase_ascii(v@).take(i as int));
    }
    assert(lowercase_ascii(v@).take(v@.len() as int) =~= lowercase_ascii(v@));
    w
}

/// The configured reading-view mode: `browser`, `disabled` or `off` (any
/// case, surrounding whitespace ignored); anything else is the terminal view.
pub fn parse_reading_view_config_mode(mode: Option<&str>) -> (m: ReadingViewConfigMode)
    ensures
        m == config_mode_of(match mode {
            Some(s) => Some(s@),
            None => None,
        }),
{
    match mode {
        None => ReadingViewConfigMode::Tui,
        Some(s) => {
            let v = lowercase_ascii_chars(&trim_chars(&chars_of(s)));
            if eq_chars(&v, &chars_of("browser")) {
                ReadingViewConfigMode::Browser
            } else if eq_chars(&v, &chars_of("disabled")) || eq_chars(&v, &chars_of("off")) {
                ReadingViewConfigMode::Disabled
            } else {
                ReadingViewConfigMode::Tui
            }
        },
    }
}

pub open spec fn config_mode_from(configured: Option<Seq<char>>, feature_enabled: bool) -> ReadingViewConfigMode {
    if configured is Some {
        config_mode_of(configured)
    } else if !feature_enabled {
        ReadingViewConfigMode::Disabled
    } else {
        ReadingViewConfigMode::Tui
    }
}

/// The reading-view mode from the configuration: the `[reading_view] mode`
/// setting when present, else the legacy `reading_view` feature flag
/// (disabled when the flag is off).
pub fn reading_view_config_mode_from_config(configured: Option<&str>, feature_enabled: bool) -> (m: ReadingViewConfigMode)
    ensures
        m == config_mode_from(
            match configured {
                Some(s) => Some(s@),
                None => None,
            },
            feature_enabled,
        ),
{
    if configured.is_some() {
        return parse_reading_view_config_mode(configured);
    }
    if !feature_enabled {
        return ReadingViewConfigMode::Disabled;
    }
    ReadingViewConfigMode::Tui
}

/// The display mode that a configuration mode gives: the browser view for
/// `browser`, the terminal view otherwise.
pub fn reading_view_display_mode_from_config(mode: ReadingViewConfigMode) -> (d: ReadingViewDisplayMode)
    ensures
        d == (if mode == ReadingViewConfigMode::Browser {
            ReadingViewDisplayMode::Browser
        } else {
            ReadingViewDisplayMode::Tui
        }),
{
    match mode {
        ReadingViewConfigMode::Browser => ReadingViewDisplayMode::Browser,
        _ => ReadingViewDisplayMode::Tui,
    }
}

/// Whether the reading-view tools are on: every mode but `disabled`.
pub fn reading_view_tools_enabled(mode: ReadingViewConfigMode) -> (b: bool)
    ensures
        b == (mode != ReadingViewConfigMode::Disabled),
{
    !matches!(mode, ReadingViewConfigMode::Disabled)
}


/// A cached document is well formed when it has a section and its streaming
/// position, if any, names one of them.
pub open spec fn doc_wf(d: DocView) -> bool {
    d.sections.len() >= 1 && match d.streaming_next {
        Some(n) => n < d.sections.len(),
        None => true,
    }
}

pub open spec fn docs_wf(m: Map<Seq<char>, DocView>) -> bool {
    forall|k: Seq<char>| #[trigger] m.contains_key(k) ==> doc_wf(m[k])
}

/// Markdown always yields at least one section.
pub proof fn lemma_parse_sections_nonempty(content: Seq<char>, table: MetadataTable)
    ensures
        parse_sections(content, table).len() >= 1,
{
}

/// Law: a reading-view call that fails leaves every cached document as it was.
pub proof fn law_failed_call_changes_nothing(c: DocumentCacheView, request: DocumentRequest, is_subagent: bool)
    requires
        request_step(c, request, is_subagent).1 is Err,
    ensures
        request_step(c, request, is_subagent).0 == c.docs,
{
}

/// Law: every reading-view call keeps the cached documents well formed (each
/// has a section, and a streaming position names one of its sections).
pub proof fn law_calls_keep_documents_well_formed(c: DocumentCacheView, request: DocumentRequest, is_subagent: bool)
    requires
        docs_wf(c.docs),
    ensures
        docs_wf(request_step(c, request, is_subagent).0),
{
    let m = request_step(c, request, is_subagent).0;
    match request {
        DocumentRequest::Present { document_id, title, content, metadata } => {
            if title is Some && content is Some {
                let body = removed(citation_pattern(), (content->0)@);
                lemma_parse_sections_nonempty(body, metadata);
            }
            assert forall|k: Seq<char>| #[trigger] m.contains_key(k) implies doc_wf(m[k]) by {
                if k != document_id@ {
                    assert(c.docs.contains_key(k));
                }
            }
        },
        _ => {
            assert forall|k: Seq<char>| #[trigger] m.contains_key(k) implies doc_wf(m[k]) by {
                assert(c.docs.contains_key(k));
            }
        },
    }
}

/// Law: updating, appending to and patching a section keep the number of
/// sections; adding one makes it one more.
pub proof fn law_section_counts(c: DocumentCacheView, request: DocumentRequest, is_subagent: bool)
    requires
        request_step(c, request, is_subagent).1 is Ok,
        !(request is Present),
    ensures
        ({
            let id = match request {
                DocumentRequest::Update { document_id, .. } => document_id@,
                DocumentRequest::Append { document_id, .. } => document_id@,
                DocumentRequest::Add { document_id, .. } => document_id@,
                DocumentRequest::Patch { document_id, .. } => document_id@,
                DocumentRequest::Present { document_id, .. } => document_id@,
            };
            let after = request_step(c, request, is_subagent).0;
            &&& c.docs.contains_key(id)
            &&& after.contains_key(id)
            &&& after[id].sections.len() == c.docs[id].sections.len() + if request is Add {
                1int
            } else {
                0int
            }
            &&& forall|k: Seq<char>| k != id && #[trigger] c.docs.contains_key(k) ==> after.contains_key(k) && after[k] == c.docs[k]
        }),
{
}

/// Law: while a document streams in, each section update moves the streaming
/// position past both the old position and the updated section, or ends the
/// streaming when the last section is reached.
pub proof fn law_streaming_advances(c: DocumentCacheView, id: Seq<char>, index: usize, content: Seq<char>, is_subagent: bool)
    requires
        update_step(c, id, index, content, is_subagent).1 is Ok,
        c.docs[id].streaming_next is Some,
        c.docs[id].sections.len() <= usize::MAX,
    ensures
        ({
            let old_next = c.docs[id].streaming_next->0;
            let new_next = update_step(c, id, index, content, is_subagent).0[id].streaming_next;
            match new_next {
                Some(n) => n > old_next && n > index && n < c.docs[id].sections.len(),
                None => old_next + 1 >= c.docs[id].sections.len() || index + 1 >= c.docs[id].sections.len(),
            }
        }),
{
    let (d, msg) = update_doc(c.docs[id], index, cleaned(content));
    assert(update_step(c, id, index, content, is_subagent).0 == c.docs.insert(id, d));
    assert(c.docs.insert(id, d)[id] == d);
    let old_next = c.docs[id].streaming_next->0;
    let secs = c.docs[id].sections.update(index as int, updated_section(c.docs[id].sections[index as int], cleaned(content)));
    assert(secs.len() == c.docs[id].sections.len());
    let m = if old_next > index { old_next } else { index };
    if m + 1 < secs.len() {
        assert(d.streaming_next == Some((m + 1) as usize));
    } else {
        assert(d.streaming_next is None);
    }
}


pub open spec fn display_mode_guidance_text() -> Seq<char> {
    "\
    READING VIEW DISPLAY MODES: The current turn may include a short state line like \
    'Current reading view display mode: Tui.' or \
    'Current reading view display mode: Browser.'.\n\
    - Tui: terminal-safe formatting only. Do NOT use LaTeX ($...$), Mermaid, or tables. \
    Use Unicode math symbols directly and keep formatting simple.\n\
    - Browser: full HTML rendering is available. Mermaid diagrams, tables, blockquotes, \
    and richer markdown are allowed. For every equation or math symbol, ALWAYS use the \
    <eq> convention instead of raw Unicode math or raw $...$ / $$...$$ delimiters. \
    Inline form: <eq latex=\"...\">spoken reading</eq>. Display form: \
    <eq latex=\"...\" display=\"block\">spoken reading</eq>. Self-closing form: \
    <eq latex=\"...\" speak=\"spoken reading\"/>. In Browser mode, the latex attribute \
    is rendered visually and the inner text or speak attribute is what gets read aloud. \
    The latex attribute must contain the raw LaTeX body only, with no $, $$, \\(, or \\[ delimiters. \
    The spoken reading should describe the equation the way a lecturer would say it aloud — \
    natural English, not literal LaTeX. Examples: \
    latex=\"x^2 + y^2 = z^2\" → \"x squared plus y squared equals z squared\", \
    latex=\"\\\\sum_{i=1}^n x_i\" → \"the sum of x i from 1 to n\", \
    latex=\"A \\\\cup B \\\\subseteq C\" → \"A union B is a subset of C\", \
    latex=\"\\\\alpha \\\\geq \\\\beta\" → \"alpha is at least beta\". \
    Do NOT read notation literally (\"angle bracket\", \"backslash langle\", \"left paren\"). \
    Describe meaning, not visual symbols."@
}

/// The tool-description guidance on the two reading-view display modes.
pub fn reading_view_display_mode_guidance() -> (s: &'static str)
    ensures
        s@ == display_mode_guidance_text(),
{
    "\
    READING VIEW DISPLAY MODES: The current turn may include a short state line like \
    'Current reading view display mode: Tui.' or \
    'Current reading view display mode: Browser.'.\n\
    - Tui: terminal-safe formatting only. Do NOT use LaTeX ($...$), Mermaid, or tables. \
    Use Unicode math symbols directly and keep formatting simple.\n\
    - Browser: full HTML rendering is available. Mermaid diagrams, tables, blockquotes, \
    and richer markdown are allowed. For every equation or math symbol, ALWAYS use the \
    <eq> convention instead of raw Unicode math or raw $...$ / $$...$$ delimiters. \
    Inline form: <eq latex=\"...\">spoken reading</eq>. Display form: \
    <eq latex=\"...\" display=\"block\">spoken reading</eq>. Self-closing form: \
    <eq latex=\"...\" speak=\"spoken reading\"/>. In Browser mode, the latex attribute \
    is rendered visually and the inner text or speak attribute is what gets read aloud. \
    The latex attribute must contain the raw LaTeX body only, with no $, $$, \\(, or \\[ delimiters. \
    The spoken reading should describe the equation the way a lecturer would say it aloud — \
    natural English, not literal LaTeX. Examples: \
    latex=\"x^2 + y^2 = z^2\" → \"x squared plus y squared equals z squared\", \
    latex=\"\\\\sum_{i=1}^n x_i\" → \"the sum of x i from 1 to n\", \
    latex=\"A \\\\cup B \\\\subseteq C\" → \"A union B is a subset of C\", \
    latex=\"\\\\alpha \\\\geq \\\\beta\" → \"alpha is at least beta\". \
    Do NOT read notation literally (\"angle bracket\", \"backslash langle\", \"left paren\"). \
    Describe meaning, not visual symbols."
}

} // verus!
