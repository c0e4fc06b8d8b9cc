//! The reading-view document model: markdown split into `## ` sections,
//! per-section fold/summary metadata, and the markdown that is rebuilt
//! from the sections.
use vstd::prelude::*;

use crate::text::{chars_of, join, lines, lines_of, push_char, starts_with, starts_with_chars, ends_with, ends_with_chars, string_of, trim, trim_chars, views};

verus! {

/// One `## ` section of a reading-view document.
#[derive(Debug)]
pub struct CachedSection {
    pub heading: String,
    pub content: String,
    pub foldable: bool,
    pub summary: Option<String>,
}

pub struct SectionView {
    pub heading: Seq<char>,
    pub content: Seq<char>,
    pub foldable: bool,
    pub summary: Option<Seq<char>>,
}

pub open spec fn opt_view(o: Option<String>) -> Option<Seq<char>> {
    match o {
        Some(s) => Some(s@),
        None => None,
    }
}

impl View for CachedSection {
    type V = SectionView;

    open spec fn view(&self) -> SectionView {
        SectionView {
            heading: self.heading@,
            content: self.content@,
            foldable: self.foldable,
            summary: opt_view(self.summary),
        }
    }
}

/// The fold/summary metadata kept in a section's metadata comment.
#[derive(Debug)]
pub struct SectionMetadata {
    pub foldable: bool,
    pub summary: Option<String>,
}

pub struct MetadataView {
    pub foldable: bool,
    pub summary: Option<Seq<char>>,
}

impl View for SectionMetadata {
    type V = MetadataView;

    open spec fn view(&self) -> MetadataView {
        MetadataView { foldable: self.foldable, summary: opt_view(self.summary) }
    }
}

pub open spec fn default_metadata() -> MetadataView {
    MetadataView { foldable: false, summary: None }
}

/// The JSON payloads of metadata comments, each with what it decodes to
/// (`None` where it is not valid metadata JSON).
#[derive(Debug)]
pub struct MetadataTable {
    pub entries: Vec<(String, Option<SectionMetadata>)>,
}

pub open spec fn opt_meta_view(o: Option<SectionMetadata>) -> Option<MetadataView> {
    match o {
        Some(m) => Some(m@),
        None => None,
    }
}

pub open spec fn table_lookup_from(e: Seq<(String, Option<SectionMetadata>)>, json: Seq<char>, i: int) -> Option<MetadataView>
    decreases e.len() - i,
{
    if i < 0 || i >= e.len() {
        None
    } else if e[i].0@ == json {
        opt_meta_view(e[i].1)
    } else {
        table_lookup_from(e, json, i + 1)
    }
}

impl MetadataTable {
    /// What the table says `json` decodes to; `None` for payloads it does not list.
    pub open spec fn lookup(&self, json: Seq<char>) -> Option<MetadataView> {
        table_lookup_from(self.entries@, json, 0)
    }

    pub fn empty() -> (t: MetadataTable)
        ensures
            forall|j: Seq<char>| t.lookup(j) is None,
    {
        MetadataTable { entries: Vec::new() }
    }

    pub fn get(&self, json: &[char]) -> (r: Option<SectionMetadata>)
        ensures
            opt_meta_view(r) == self.lookup(json@),
    {
        let mut i: usize = 0;
        while i < self.entries.len()
            invariant
                i <= self.entries@.len(),
                table_lookup_from(self.entries@, json@, 0) == table_lookup_from(
                    self.entries@,
                    json@,
                    i as int,
                ),
            decreases self.entries@.len() - i,
        {
            let key = chars_of(self.entries[i].0.as_str());
            if eq_chars(&key, json) {
                let r = match &self.entries[i].1 {
                    Some(m) => Some(SectionMetadata { foldable: m.foldable, summary: clone_opt(&m.summary) }),
                    None => None,
                };
                return r;
            }
            i = i + 1;
        }
        None
    }
}

pub fn clone_opt(o: &Option<String>) -> (r: Option<String>)
    ensures
        opt_view(r) == opt_view(*o),
{
    match o {
        Some(s) => Some(s.clone()),
        None => None,
    }
}

pub fn eq_chars(a: &[char], b: &[char]) -> (r: bool)
    ensures
        r == (a@ == b@),
{
    if a.len() != b.len() {
        return false;
    }
    let mut i: usize = 0;
    while i < a.len()
        invariant
            a@.len() == b@.len(),
            i <= a@.len(),
            forall|k: int| 0 <= k < i ==> a@[k] == b@[k],
        decreases a@.len() - i,
    {
        if a[i] != b[i] {
            return false;
        }
        i = i + 1;
    }
    assert(a@ =~= b@);
    true
}

pub open spec fn meta_prefix() -> Seq<char> {
    "<!-- CODEX_SECTION_META "@
}

pub open spec fn meta_suffix() -> Seq<char> {
    " -->"@
}

/// The JSON payload of a metadata comment line, if the trimmed line is one.
pub open spec fn metadata_payload(line: Seq<char>) -> Option<Seq<char>> {
    let t = trim(line);
    let p = meta_prefix().len();
    let sfx = meta_suffix().len();
    if starts_with(t, meta_prefix()) && ends_with(t.skip(p as int), meta_suffix()) {
        Some(t.subrange(p as int, t.len() - sfx))
    } else {
        None
    }
}

/// The JSON payload of a metadata comment line, if the trimmed line is one.
pub fn metadata_payload_of(line: &[char]) -> (r: Option<Vec<char>>)
    ensures
        match r {
            Some(v) => metadata_payload(line@) == Some(v@),
            None => metadata_payload(line@) is None,
        },
{
    let t = trim_chars(line);
    let prefix = chars_of("<!-- CODEX_SECTION_META ");
    let suffix = chars_of(" -->");
    if !starts_with_chars(&t, &prefix) {
        return None;
    }
    let p = prefix.len();
    let mut rest: Vec<char> = Vec::new();
    let mut i: usize = p;
    while i < t.len()
        invariant
            p <= i <= t@.len(),
            rest@ == t@.subrange(p as int, i as int),
        decreases t@.len() - i,
    {
        rest.push(t[i]);
        i = i + 1;
        assert(rest@ =~= t@.subrange(p as int, i as int));
    }
    assert(rest@ =~= t@.skip(p as int));
    if !ends_with_chars(&rest, &suffix) {
        return None;
    }
    let keep = rest.len() - suffix.len();
    let mut out: Vec<char> = Vec::new();
    let mut k: usize = 0;
    while k < keep
        invariant
            keep <= rest@.len(),
            k <= keep,
            out@ == rest@.take(k as int),
        decreases keep - k,
    {
        out.push(rest[k]);
        k = k + 1;
        assert(out@ =~= rest@.take(k as int));
    }
    assert(out@ =~= t@.subrange(p as int, t@.len() - suffix@.len()));
    Some(out)
}

/// The metadata that a line declares, if it is a metadata comment whose payload
/// decodes.
pub open spec fn metadata_of_line(line: Seq<char>, table: MetadataTable) -> Option<MetadataView> {
    match metadata_payload(line) {
        Some(json) => table.lookup(json),
        None => None,
    }
}

/// Leading metadata comments and blank lines of `ls[..n]`, as the section
/// loader consumes them: (metadata so far, visible lines, still in the header).
pub open spec fn split_metadata_state(ls: Seq<Seq<char>>, n: int, table: MetadataTable) -> (MetadataView, Seq<Seq<char>>, bool)
    decreases n,
{
    if n <= 0 {
        (default_metadata(), seq![], true)
    } else {
        let (meta, visible, parsing) = split_metadata_state(ls, n - 1, table);
        let line = ls[n - 1];
        if parsing && metadata_of_line(line, table) is Some {
            (metadata_of_line(line, table)->0, visible, true)
        } else if parsing && trim(line).len() == 0 {
            (meta, visible, true)
        } else {
            (meta, visible.push(line), false)
        }
    }
}

/// A section's stored text split into its metadata and its visible content.
pub open spec fn split_section_metadata(content: Seq<char>, table: MetadataTable) -> (MetadataView, Seq<char>) {
    let ls = lines(content);
    let (meta, visible, _) = split_metadata_state(ls, ls.len() as int, table);
    (meta, join(visible, "\n"@))
}

pub fn split_section_metadata_of(content: &[char], table: &MetadataTable) -> (r: (SectionMetadata, Vec<char>))
    ensures
        r.0@ == split_section_metadata(content@, *table).0,
        r.1@ == split_section_metadata(content@, *table).1,
{
    let ls = lines_of(content);
    let ghost lsv = views(ls@);
    let mut meta = SectionMetadata { foldable: false, summary: None };
    let mut visible: Vec<char> = Vec::new();
    let ghost mut vis_lines: Seq<Seq<char>> = seq![];
    let mut parsing = true;
    let mut any_visible = false;
    let mut i: usize = 0;
    while i < ls.len()
        invariant
            any_visible == (vis_lines.len() > 0),
            lsv == views(ls@),
            lsv == lines(content@),
            i <= ls@.len(),
            split_metadata_state(lsv, i as int, *table) == (meta@, vis_lines, parsing),
            visible@ == join(vis_lines, "\n"@),
        decreases ls@.len() - i,
    {
        let line = &ls[i];
        assert(line@ == lsv[i as int]);
        let mut handled = false;
        if parsing {
            match metadata_payload_of(line) {
                Some(json) => {
                    match table.get(&json) {
                        Some(m) => {
                            meta = m;
                            handled = true;
                        },
                        None => {},
                    }
                },
                None => {},
            }
        }
        if !handled {
            let blank = trim_chars(line).len() == 0;
            if parsing && blank {
            } else {
                proof {
                    let nv = vis_lines.push(line@);
                    if vis_lines.len() > 0 {
                        assert(nv.drop_last() =~= vis_lines);
                    }
                }
                if any_visible {
                    push_char_vec(&mut visible, '\n');
                }
                append_vec(&mut visible, line);
                proof {
                    let nv = vis_lines.push(line@);
                    if vis_lines.len() == 0 {
                        assert(visible@ =~= line@);
                    } else {
                        assert(nv.drop_last() =~= vis_lines);
                        assert(visible@ =~= join(vis_lines, "\n"@) + "\n"@ + line@) by {
                            reveal_strlit("\n");
                        }
                    }
                    vis_lines = nv;
                }
                any_visible = true;
                parsing = false;
            }
        }
        i = i + 1;
    }
    (meta, visible)
}

pub fn push_char_vec(v: &mut Vec<char>, c: char)
    ensures
        final(v)@ == old(v)@.push(c),
{
    v.push(c);
}

pub fn append_vec(v: &mut Vec<char>, w: &[char])
    ensures
        final(v)@ == old(v)@ + w@,
{
    let mut i: usize = 0;
    while i < w.len()
        invariant
            i <= w@.len(),
            v@ == old(v)@ + w@.take(i as int),
        decreases w@.len() - i,
    {
        v.push(w[i]);
        i = i + 1;
        assert(v@ =~= old(v)@ + w@.take(i as int));
    }
    assert(w@.take(w@.len() as int) =~= w@);
}


pub open spec fn heading_marker() -> Seq<char> {
    "## "@
}

/// Sections of `ls[..n]` completed so far, with the heading and text of the
/// section still open: how the loader walks the lines.
pub open spec fn group_state(ls: Seq<Seq<char>>, n: int) -> (Seq<(Seq<char>, Seq<char>)>, Seq<char>, Seq<char>)
    decreases n,
{
    if n <= 0 {
        (seq![], seq![], seq![])
    } else {
        let (done, heading, body) = group_state(ls, n - 1);
        let line = ls[n - 1];
        if starts_with(line, heading_marker()) {
            (done.push((heading, body)), trim(line.skip(3)), seq![])
        } else if body.len() == 0 {
            (done, heading, line)
        } else {
            (done, heading, body + "\n"@ + line)
        }
    }
}

pub open spec fn make_section(heading: Seq<char>, body: Seq<char>, table: MetadataTable) -> SectionView {
    let (meta, visible) = split_section_metadata(body, table);
    SectionView { heading, content: visible, foldable: meta.foldable, summary: meta.summary }
}

/// The sections of markdown `content`, split on lines that start with `## `;
/// an empty untitled preamble before the first heading is dropped.
pub open spec fn parse_sections(content: Seq<char>, table: MetadataTable) -> Seq<SectionView> {
    let ls = lines(content);
    let (done, heading, body) = group_state(ls, ls.len() as int);
    let all = done.push((heading, body));
    let secs = Seq::new(all.len(), |i: int| make_section(all[i].0, all[i].1, table));
    if secs.len() > 1 && secs[0].heading.len() == 0 && trim(secs[0].content).len() == 0 {
        secs.drop_first()
    } else {
        secs
    }
}

pub open spec fn section_views(v: Seq<CachedSection>) -> Seq<SectionView> {
    v.map_values(|s: CachedSection| s@)
}

pub fn make_cached_section(heading: Vec<char>, body: &[char], table: &MetadataTable) -> (s: CachedSection)
    ensures
        s@ == make_section(heading@, body@, *table),
{
    let (meta, visible) = split_section_metadata_of(body, table);
    CachedSection {
        heading: string_of(&heading),
        content: string_of(&visible),
        foldable: meta.foldable,
        summary: meta.summary,
    }
}

/// The sections of markdown `content`, split on lines that start with `## `.
pub fn parse_sections_of(content: &[char], table: &MetadataTable) -> (secs: Vec<CachedSection>)
    ensures
        section_views(secs@) == parse_sections(content@, *table),
{
    let ls = lines_of(content);
    let ghost lsv = views(ls@);
    let marker = chars_of("## ");
    let mut sections: Vec<CachedSection> = Vec::new();
    let ghost mut done: Seq<(Seq<char>, Seq<char>)> = seq![];
    let mut heading: Vec<char> = Vec::new();
    let mut body: Vec<char> = Vec::new();
    let mut i: usize = 0;
    while i < ls.len()
        invariant
            lsv == views(ls@),
            lsv == lines(content@),
            marker@ == heading_marker(),
            i <= ls@.len(),
            group_state(lsv, i as int) == (done, heading@, body@),
            section_views(sections@) == Seq::new(done.len(), |k: int| make_section(done[k].0, done[k].1, *table)),
        decreases ls@.len() - i,
    {
        let line = &ls[i];
        assert(line@ == lsv[i as int]);
        if starts_with_chars(line, &marker) {
            let sec = make_cached_section(heading, &body, table);
            let ghost old_secs = sections@;
            sections.push(sec);
            proof {
                let nd = done.push((heading@, body@));
                assert(section_views(sections@) =~= Seq::new(nd.len(), |k: int| make_section(nd[k].0, nd[k].1, *table))) by {
                    assert(section_views(sections@) =~= section_views(old_secs).push(sec@));
                }
                done = nd;
            }
            proof {
                reveal_strlit("## ");
            }
            assert(line@.len() >= 3);
            let mut rest: Vec<char> = Vec::new();
            assert(rest@ =~= line@.subrange(3, 3));
            let mut k: usize = 3;
            while k < line.len()
                invariant
                    3 <= k <= line@.len(),
                    rest@ == line@.subrange(3, k as int),
                decreases line@.len() - k,
            {
                rest.push(line[k]);
                k = k + 1;
                assert(rest@ =~= line@.subrange(3, k as int));
            }
            assert(rest@ =~= line@.skip(3));
            heading = trim_chars(&rest);
            body = Vec::new();
        } else if body.len() == 0 {
            body = copy_chars(line);
        } else {
            push_char_vec(&mut body, '\n');
            append_vec(&mut body, line);
            proof {
                reveal_strlit("\n");
            }
        }
        i = i + 1;
    }
    let last = make_cached_section(heading, &body, table);
    let ghost old_secs = sections@;
    sections.push(last);
    proof {
        let nd = done.push((heading@, body@));
        assert(section_views(sections@) =~= section_views(old_secs).push(last@));
        assert(section_views(sections@) =~= Seq::new(nd.len(), |k: int| make_section(nd[k].0, nd[k].1, *table)));
    }
    if sections.len() > 1 && sections[0].heading.as_str().is_empty() {
        let c0 = chars_of(sections[0].content.as_str());
        if trim_chars(&c0).len() == 0 {
            let ghost before = section_views(sections@);
            sections.remove(0);
            assert(section_views(sections@) =~= before.drop_first());
        }
    }
    sections
}

pub fn copy_chars(v: &[char]) -> (w: Vec<char>)
    ensures
        w@ == v@,
{
    let mut w: Vec<char> = Vec::new();
    append_vec(&mut w, v);
    assert(w@ =~= v@);
    w
}


/// The lowercase hex digit of `d` (for `0 <= d < 16`).
pub open spec fn hex_digit(d: u32) -> char {
    if d == 0 { '0' } else if d == 1 { '1' } else if d == 2 { '2' } else if d == 3 { '3' }
    else if d == 4 { '4' } else if d == 5 { '5' } else if d == 6 { '6' } else if d == 7 { '7' }
    else if d == 8 { '8' } else if d == 9 { '9' } else if d == 10 { 'a' } else if d == 11 { 'b' }
    else if d == 12 { 'c' } else if d == 13 { 'd' } else if d == 14 { 'e' } else { 'f' }
}

fn hex_digit_of(d: u32) -> (c: char)
    ensures
        c == hex_digit(d),
{
    if d == 0 { '0' } else if d == 1 { '1' } else if d == 2 { '2' } else if d == 3 { '3' }
    else if d == 4 { '4' } else if d == 5 { '5' } else if d == 6 { '6' } else if d == 7 { '7' }
    else if d == 8 { '8' } else if d == 9 { '9' } else if d == 10 { 'a' } else if d == 11 { 'b' }
    else if d == 12 { 'c' } else if d == 13 { 'd' } else if d == 14 { 'e' } else { 'f' }
}

/// How serde_json writes one character inside a JSON string: `\"` and
/// `\\`; `\b`, `\t`, `\n`, `\f`, `\r` for those controls; `\u00XX` (lowercase
/// hex) for the other characters below U+0020; any other character as it is.
pub open spec fn json_char_escape(c: char) -> Seq<char> {
    if c == '"' {
        seq!['\\', '"']
    } else if c == '\\' {
        seq!['\\', '\\']
    } else if c == '\u{8}' {
        seq!['\\', 'b']
    } else if c == '\t' {
        seq!['\\', 't']
    } else if c == '\n' {
        seq!['\\', 'n']
    } else if c == '\u{c}' {
        seq!['\\', 'f']
    } else if c == '\r' {
        seq!['\\', 'r']
    } else if (c as u32) < 0x20 {
        seq!['\\', 'u', '0', '0', hex_digit((c as u32) / 16), hex_digit((c as u32) % 16)]
    } else {
        seq![c]
    }
}

/// The characters of `s`, each escaped as in a JSON string.
pub open spec fn json_escaped(s: Seq<char>) -> Seq<char>
    decreases s.len(),
{
    if s.len() == 0 {
        seq![]
    } else {
        json_escaped(s.drop_last()) + json_char_escape(s.last())
    }
}

/// The JSON string literal of `s`, as `serde_json::to_string` writes it:
/// the escaped characters between double quotes.
pub open spec fn json_string_literal(s: Seq<char>) -> Seq<char> {
    seq!['"'] + json_escaped(s) + seq!['"']
}

fn push_json_char(out: &mut String, c: char)
    ensures
        final(out)@ == old(out)@ + json_char_escape(c),
{
    let ghost start = out@;
    if c == '"' {
        push_char(out, '\\');
        push_char(out, '"');
    } else if c == '\\' {
        push_char(out, '\\');
        push_char(out, '\\');
    } else if c == '\u{8}' {
        push_char(out, '\\');
        push_char(out, 'b');
    } else if c == '\t' {
        push_char(out, '\\');
        push_char(out, 't');
    } else if c == '\n' {
        push_char(out, '\\');
        push_char(out, 'n');
    } else if c == '\u{c}' {
        push_char(out, '\\');
        push_char(out, 'f');
    } else if c == '\r' {
        push_char(out, '\\');
        push_char(out, 'r');
    } else if (c as u32) < 0x20 {
        let b = c as u32;
        push_char(out, '\\');
        push_char(out, 'u');
        push_char(out, '0');
        push_char(out, '0');
        push_char(out, hex_digit_of(b / 16));
        push_char(out, hex_digit_of(b % 16));
    } else {
        push_char(out, c);
    }
    assert(out@ =~= start + json_char_escape(c));
}

/// The JSON string literal of `s`.
pub fn json_string_literal_of(s: &str) -> (r: String)
    ensures
        r@ == json_string_literal(s@),
{
    let v = chars_of(s);
    let mut out = String::new();
    push_char(&mut out, '"');
    let mut k: usize = 0;
    assert(v@.take(0) =~= Seq::<char>::empty());
    while k < v.len()
        invariant
            k <= v@.len(),
            out@ == seq!['"'] + json_escaped(v@.take(k as int)),
        decreases v@.len() - k,
    {
        assert(v@.take(k + 1).drop_last() =~= v@.take(k as int));
        assert(v@.take(k + 1).last() == v@[k as int]);
        push_json_char(&mut out, v[k]);
        k = k + 1;
        assert(out@ =~= seq!['"'] + json_escaped(v@.take(k as int)));
    }
    assert(v@.take(v@.len() as int) =~= v@);
    assert(v@ == s@);
    push_char(&mut out, '"');
    assert(out@ =~= json_string_literal(s@));
    out
}

pub open spec fn bool_text(b: bool) -> Seq<char> {
    if b {
        "true"@
    } else {
        "false"@
    }
}

/// The metadata comment written above a section's content: only for a
/// foldable section or one with a summary.
pub open spec fn serialized_metadata(s: SectionView) -> Option<Seq<char>> {
    if !s.foldable && s.summary is None {
        None
    } else {
        match s.summary {
            None => Some(
                meta_prefix() + "{\"foldable\":"@ + bool_text(s.foldable) + ",\"summary\":null}"@
                    + meta_suffix(),
            ),
            Some(x) => Some(
                meta_prefix() + "{\"foldable\":"@ + bool_text(s.foldable) + ",\"summary\":"@
                    + json_string_literal(x) + "}"@ + meta_suffix(),
            ),
        }
    }
}

pub fn serialize_section_metadata(section: &CachedSection) -> (r: Option<String>)
    ensures
        opt_view(r) == serialized_metadata(section@),
{
    if !section.foldable && section.summary.is_none() {
        return None;
    }
    let mut out = String::from_str("<!-- CODEX_SECTION_META ");
    out.append("{\"foldable\":");
    if section.foldable {
        out.append("true");
    } else {
        out.append("false");
    }
    match &section.summary {
        None => {
            out.append(",\"summary\":null}");
        },
        Some(x) => {
            let lit = json_string_literal_of(x.as_str());
            out.append(",\"summary\":");
            out.append(lit.as_str());
            out.append("}");
        },
    }
    out.append(" -->");
    Some(out)
}

/// The markdown of `secs[..n]`, rebuilt section by section.
pub open spec fn markdown_upto(secs: Seq<SectionView>, n: int) -> Seq<char>
    decreases n,
{
    if n <= 0 {
        seq![]
    } else {
        let out = markdown_upto(secs, n - 1);
        let s = secs[n - 1];
        let with_heading = if s.heading.len() > 0 {
            out + "## "@ + s.heading + "\n"@
        } else {
            out
        };
        let with_meta = match serialized_metadata(s) {
            Some(m) => with_heading + m + "\n"@,
            None => with_heading,
        };
        let body = with_meta + s.content;
        let ended = if body.len() > 0 && body.last() == '\n' {
            body
        } else {
            body.push('\n')
        };
        ended.push('\n')
    }
}

/// A document's markdown, rebuilt from its sections.
pub open spec fn markdown(secs: Seq<SectionView>) -> Seq<char> {
    markdown_upto(secs, secs.len() as int)
}

pub fn sections_to_markdown(sections: &Vec<CachedSection>) -> (s: String)
    ensures
        s@ == markdown(section_views(sections@)),
{
    let ghost sv = section_views(sections@);
    let mut out: Vec<char> = Vec::new();
    let mut i: usize = 0;
    while i < sections.len()
        invariant
            sv == section_views(sections@),
            i <= sections@.len(),
            out@ == markdown_upto(sv, i as int),
        decreases sections@.len() - i,
    {
        let section = &sections[i];
        assert(section@ == sv[i as int]);
        if !section.heading.as_str().is_empty() {
            append_vec(&mut out, &chars_of("## "));
            append_vec(&mut out, &chars_of(section.heading.as_str()));
            push_char_vec(&mut out, '\n');
        }
        match serialize_section_metadata(section) {
            Some(m) => {
                append_vec(&mut out, &chars_of(m.as_str()));
                push_char_vec(&mut out, '\n');
            },
            None => {},
        }
        append_vec(&mut out, &chars_of(section.content.as_str()));
        if !(out.len() > 0 && out[out.len() - 1] == '\n') {
            push_char_vec(&mut out, '\n');
        }
        push_char_vec(&mut out, '\n');
        proof {
            reveal_strlit("\n");
            assert(out@ =~= markdown_upto(sv, i + 1));
        }
        i = i + 1;
    }
    string_of(&out)
}


/// The JSON payloads of the metadata comment lines of `content`, in order.
pub open spec fn metadata_payloads(content: Seq<char>) -> Seq<Seq<char>> {
    lines(content).filter_map(|l: Seq<char>| metadata_payload(l))
}

/// The JSON payloads of the metadata comment lines of `content`: what a
/// [`MetadataTable`] for it has to decode.
pub fn metadata_payloads_of(content: &str) -> (r: Vec<String>)
    ensures
        r@.map_values(|s: String| s@) == metadata_payloads(content@),
{
    let ls = lines_of(&chars_of(content));
    let ghost lsv = views(ls@);
    let mut out: Vec<String> = Vec::new();
    let mut i: usize = 0;
    while i < ls.len()
        invariant
            lsv == views(ls@),
            lsv == lines(content@),
            i <= ls@.len(),
            out@.map_values(|s: String| s@) == lsv.take(i as int).filter_map(|l: Seq<char>| metadata_payload(l)),
        decreases ls@.len() - i,
    {
        let ghost before = out@;
        assert(ls@[i as int]@ == lsv[i as int]);
        let p = metadata_payload_of(&ls[i]);
        proof {
            assert(lsv.take(i + 1).drop_last() =~= lsv.take(i as int));
            assert(lsv.take(i + 1).last() == lsv[i as int]);
        }
        match p {
            Some(v) => {
                let sv = string_of(&v);
                out.push(sv);
                assert(out@.map_values(|s: String| s@) =~= before.map_values(|s: String| s@) + seq![sv@]);
            },
            None => {},
        }
        i = i + 1;
    }
    assert(lsv.take(ls@.len() as int) =~= lsv);
    out
}

} // verus!
