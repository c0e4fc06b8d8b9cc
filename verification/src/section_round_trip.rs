//! Reading a document's markdown back into its sections: the markdown that
//! the sections are written as parses into the same sections.
use vstd::prelude::*;

use crate::document::{
    bool_text, json_char_escape, json_escaped, json_string_literal, markdown, markdown_upto, meta_prefix, meta_suffix,
    default_metadata, group_state, make_section, parse_sections, split_metadata_state, metadata_of_line, serialized_metadata, MetadataTable, MetadataView, SectionView,
};
use crate::text::{starts_with, is_ws, trim, trim_end, trim_start, first_index, join, lemma_first_index, lemma_first_index_is, lemma_split_on_nonempty, lines, split_on};

verus! {

/// The lines, each followed by a line break.
pub open spec fn unlines(ls: Seq<Seq<char>>) -> Seq<char>
    decreases ls.len(),
{
    if ls.len() == 0 {
        seq![]
    } else {
        ls[0] + seq!['\n'] + unlines(ls.drop_first())
    }
}

/// Whether `l` holds no line break.
pub open spec fn no_break(l: Seq<char>) -> bool {
    forall|k: int| 0 <= k < l.len() ==> l[k] != '\n'
}

/// Whether `l` can stand as a line: no line break, no carriage return at its end.
pub open spec fn clean_line(l: Seq<char>) -> bool {
    no_break(l) && !(l.len() > 0 && l.last() == '\r')
}

proof fn lemma_split_after_line(a: Seq<char>, b: Seq<char>)
    requires
        no_break(a),
    ensures
        split_on(a + seq!['\n'] + b, '\n') == seq![a] + split_on(b, '\n'),
{
    let s = a + seq!['\n'] + b;
    assert forall|k: int| 0 <= k < a.len() implies s[k] != '\n' by {
        assert(s[k] == a[k]);
    }
    lemma_first_index_is(s, '\n', a.len() as int);
    assert(s.take(a.len() as int) =~= a);
    assert(s.skip(a.len() as int + 1) =~= b);
}

proof fn lemma_split_unlines(ls: Seq<Seq<char>>)
    requires
        forall|i: int| 0 <= i < ls.len() ==> no_break(#[trigger] ls[i]),
    ensures
        split_on(unlines(ls), '\n') == ls.push(seq![]),
    decreases ls.len(),
{
    if ls.len() == 0 {
        assert(split_on(seq![], '\n') == seq![Seq::<char>::empty()]);
        assert(ls.push(seq![]) =~= seq![Seq::<char>::empty()]);
    } else {
        let rest = ls.drop_first();
        assert forall|i: int| 0 <= i < rest.len() implies no_break(#[trigger] rest[i]) by {
            assert(rest[i] == ls[i + 1]);
        }
        assert(no_break(ls[0]));
        lemma_split_after_line(ls[0], unlines(rest));
        lemma_split_unlines(rest);
        assert(seq![ls[0]] + rest.push(seq![]) =~= ls.push(seq![]));
    }
}

/// The lines of text written line by line are those lines.
pub proof fn lemma_lines_unlines(ls: Seq<Seq<char>>)
    requires
        forall|i: int| 0 <= i < ls.len() ==> clean_line(#[trigger] ls[i]),
    ensures
        lines(unlines(ls)) == ls,
{
    assert forall|i: int| 0 <= i < ls.len() implies no_break(#[trigger] ls[i]) by {
        assert(clean_line(ls[i]));
    }
    lemma_split_unlines(ls);
    let raw = ls.push(seq![]);
    assert forall|i: int| 0 <= i < ls.len() implies (if i + 1 < raw.len() {
        crate::text::strip_cr(raw[i])
    } else {
        raw[i]
    }) == ls[i] by {
        assert(clean_line(ls[i]));
        assert(raw[i] == ls[i]);
    }
    assert(lines(unlines(ls)) =~= ls);
}

proof fn lemma_unlines_append(a: Seq<Seq<char>>, b: Seq<Seq<char>>)
    ensures
        unlines(a + b) == unlines(a) + unlines(b),
    decreases a.len(),
{
    if a.len() == 0 {
        assert(a + b =~= b);
        assert(unlines(a) + unlines(b) =~= unlines(b));
    } else {
        assert((a + b).drop_first() =~= a.drop_first() + b);
        assert((a + b)[0] == a[0]);
        lemma_unlines_append(a.drop_first(), b);
        assert(unlines(a + b) =~= unlines(a) + unlines(b));
    }
}

proof fn lemma_unlines_one(l: Seq<char>)
    ensures
        unlines(seq![l]) == l + seq!['\n'],
{
    assert(seq![l].drop_first() =~= Seq::<Seq<char>>::empty());
    assert(unlines(Seq::<Seq<char>>::empty()) == Seq::<char>::empty());
    assert(seq![l][0] == l);
    assert(unlines(seq![l]) =~= l + seq!['\n']);
}

/// The pieces of `c` between line breaks, written line by line, are `c` and a
/// line break.
pub proof fn lemma_unlines_split(c: Seq<char>)
    ensures
        unlines(split_on(c, '\n')) == c + seq!['\n'],
        forall|i: int| 0 <= i < split_on(c, '\n').len() ==> no_break(#[trigger] split_on(c, '\n')[i]),
    decreases c.len(),
{
    let i = first_index(c, '\n');
    lemma_first_index(c, '\n');
    if i >= c.len() {
        lemma_unlines_one(c);
        assert(split_on(c, '\n') == seq![c]);
    } else {
        let head = c.take(i);
        let tail = c.skip(i + 1);
        lemma_unlines_split(tail);
        let rest = split_on(tail, '\n');
        assert(split_on(c, '\n') == seq![head] + rest);
        lemma_unlines_append(seq![head], rest);
        lemma_unlines_one(head);
        assert(c =~= head + seq!['\n'] + tail);
        assert(unlines(split_on(c, '\n')) =~= c + seq!['\n']);
        assert forall|k: int| 0 <= k < split_on(c, '\n').len() implies no_break(#[trigger] split_on(c, '\n')[k]) by {
            if k == 0 {
                assert(split_on(c, '\n')[0] == head);
            } else {
                assert(split_on(c, '\n')[k] == rest[k - 1]);
            }
        }
    }
}

/// Joined with line breaks and followed by one, the lines are written line by line.
pub proof fn lemma_join_unlines(ls: Seq<Seq<char>>)
    requires
        ls.len() > 0,
    ensures
        join(ls, "\n"@) + seq!['\n'] == unlines(ls),
    decreases ls.len(),
{
    reveal_strlit("\n");
    if ls.len() == 1 {
        lemma_unlines_one(ls[0]);
        assert(ls =~= seq![ls[0]]);
    } else {
        let front = ls.drop_last();
        lemma_join_unlines(front);
        lemma_unlines_append(front, seq![ls.last()]);
        lemma_unlines_one(ls.last());
        assert(front + seq![ls.last()] =~= ls);
        assert(join(ls, "\n"@) + seq!['\n'] =~= unlines(ls));
    }
}

/// The pieces of `c` between line breaks, joined with line breaks, are `c`.
pub proof fn lemma_join_split(c: Seq<char>)
    ensures
        join(split_on(c, '\n'), "\n"@) == c,
{
    lemma_split_on_nonempty(c, '\n');
    lemma_unlines_split(c);
    lemma_join_unlines(split_on(c, '\n'));
    let j = join(split_on(c, '\n'), "\n"@);
    assert(j =~= (j + seq!['\n']).drop_last());
    assert(c =~= (c + seq!['\n']).drop_last());
}

/// The lines of a section's content: none for empty content.
pub open spec fn content_lines(c: Seq<char>) -> Seq<Seq<char>> {
    if c.len() == 0 {
        seq![]
    } else {
        split_on(c, '\n')
    }
}

/// The metadata comment line written for a section, if any.
pub open spec fn metadata_lines(s: SectionView) -> Seq<Seq<char>> {
    match serialized_metadata(s) {
        Some(m) => seq![m],
        None => seq![],
    }
}

/// The lines written below a section's heading: its metadata comment, its
/// content and a blank line.
pub open spec fn tail_lines(s: SectionView) -> Seq<Seq<char>> {
    metadata_lines(s) + content_lines(s.content) + seq![Seq::<char>::empty()]
}

/// The lines written for a section with a heading.
pub open spec fn section_lines(s: SectionView) -> Seq<Seq<char>> {
    seq!["## "@ + s.heading] + tail_lines(s)
}

/// The lines written for `secs[..n]`.
pub open spec fn document_lines(secs: Seq<SectionView>, n: int) -> Seq<Seq<char>>
    decreases n,
{
    if n <= 0 {
        seq![]
    } else {
        document_lines(secs, n - 1) + section_lines(secs[n - 1])
    }
}

/// Whether a section is written as `section_lines` gives it: it has a
/// heading, and its content does not end with a line break.
pub open spec fn written_by_lines(s: SectionView) -> bool {
    s.heading.len() > 0 && !(s.content.len() > 0 && s.content.last() == '\n')
}

proof fn lemma_unlines_section(s: SectionView)
    requires
        written_by_lines(s),
    ensures
        unlines(section_lines(s)) == "## "@ + s.heading + "\n"@ + (match serialized_metadata(s) {
            Some(m) => m + "\n"@,
            None => seq![],
        }) + (if s.content.len() > 0 {
            s.content + "\n"@
        } else {
            s.content
        }) + "\n"@,
{
    reveal_strlit("\n");
    let hl = "## "@ + s.heading;
    let ml = metadata_lines(s);
    let cl = content_lines(s.content);
    let blank = seq![Seq::<char>::empty()];
    lemma_unlines_append(seq![hl], tail_lines(s));
    lemma_unlines_append(ml + cl, blank);
    lemma_unlines_append(ml, cl);
    lemma_unlines_one(hl);
    lemma_unlines_one(Seq::<char>::empty());
    match serialized_metadata(s) {
        Some(m) => {
            lemma_unlines_one(m);
        },
        None => {
            assert(unlines(ml) == Seq::<char>::empty());
        },
    }
    if s.content.len() > 0 {
        lemma_unlines_split(s.content);
    } else {
        assert(unlines(cl) == Seq::<char>::empty());
    }
    assert(section_lines(s) == seq![hl] + tail_lines(s));
    assert(unlines(section_lines(s)) =~= "## "@ + s.heading + "\n"@ + (match serialized_metadata(s) {
        Some(m) => m + "\n"@,
        None => seq![],
    }) + (if s.content.len() > 0 {
        s.content + "\n"@
    } else {
        s.content
    }) + "\n"@);
}

/// The markdown of sections with headings is their lines, written line by line.
pub proof fn lemma_markdown_unlines(secs: Seq<SectionView>, n: int)
    requires
        0 <= n <= secs.len(),
        forall|i: int| 0 <= i < secs.len() ==> written_by_lines(#[trigger] secs[i]),
    ensures
        markdown_upto(secs, n) == unlines(document_lines(secs, n)),
    decreases n,
{
    reveal_strlit("\n");
    reveal_strlit("## ");
    if n > 0 {
        lemma_markdown_unlines(secs, n - 1);
        let s = secs[n - 1];
        assert(written_by_lines(s));
        lemma_unlines_section(s);
        lemma_unlines_append(document_lines(secs, n - 1), section_lines(s));
        let out = markdown_upto(secs, n - 1);
        let with_heading = out + "## "@ + s.heading + "\n"@;
        let with_meta = match serialized_metadata(s) {
            Some(m) => with_heading + m + "\n"@,
            None => with_heading,
        };
        assert(with_meta.len() > 0 && with_meta.last() == '\n');
        let body = with_meta + s.content;
        if s.content.len() > 0 {
            assert(body.last() == s.content.last());
        } else {
            assert(body =~= with_meta);
        }
        assert(markdown_upto(secs, n) =~= unlines(document_lines(secs, n)));
    }
}

proof fn lemma_no_break_concat(a: Seq<char>, b: Seq<char>)
    requires
        no_break(a),
        no_break(b),
    ensures
        no_break(a + b),
{
    assert forall|k: int| 0 <= k < (a + b).len() implies (a + b)[k] != '\n' by {
        if k < a.len() {
            assert((a + b)[k] == a[k]);
        } else {
            assert((a + b)[k] == b[k - a.len()]);
        }
    }
}

proof fn lemma_json_escaped_no_break(s: Seq<char>)
    ensures
        no_break(json_escaped(s)),
    decreases s.len(),
{
    if s.len() > 0 {
        lemma_json_escaped_no_break(s.drop_last());
        let e = json_char_escape(s.last());
        assert(no_break(e));
        lemma_no_break_concat(json_escaped(s.drop_last()), e);
    }
}

proof fn lemma_metadata_line_clean(s: SectionView)
    ensures
        serialized_metadata(s) matches Some(m) ==> clean_line(m) && m.len() > 0 && m[0] == '<',
{
    reveal_strlit("<!-- CODEX_SECTION_META ");
    reveal_strlit(" -->");
    reveal_strlit("{\"foldable\":");
    reveal_strlit(",\"summary\":null}");
    reveal_strlit(",\"summary\":");
    reveal_strlit("}");
    reveal_strlit("true");
    reveal_strlit("false");
    if let Some(m) = serialized_metadata(s) {
        let p = meta_prefix();
        let x = meta_suffix();
        let b = bool_text(s.foldable);
        assert(no_break(p));
        assert(no_break(x));
        assert(no_break(b));
        assert(no_break("{\"foldable\":"@));
        match s.summary {
            None => {
                assert(no_break(",\"summary\":null}"@));
                lemma_no_break_concat(p, "{\"foldable\":"@);
                lemma_no_break_concat(p + "{\"foldable\":"@, b);
                lemma_no_break_concat(p + "{\"foldable\":"@ + b, ",\"summary\":null}"@);
                lemma_no_break_concat(p + "{\"foldable\":"@ + b + ",\"summary\":null}"@, x);
            },
            Some(v) => {
                lemma_json_escaped_no_break(v);
                let j = json_string_literal(v);
                lemma_no_break_concat(seq!['"'], json_escaped(v));
                lemma_no_break_concat(seq!['"'] + json_escaped(v), seq!['"']);
                assert(no_break(",\"summary\":"@));
                assert(no_break("}"@));
                lemma_no_break_concat(p, "{\"foldable\":"@);
                lemma_no_break_concat(p + "{\"foldable\":"@, b);
                lemma_no_break_concat(p + "{\"foldable\":"@ + b, ",\"summary\":"@);
                lemma_no_break_concat(p + "{\"foldable\":"@ + b + ",\"summary\":"@, j);
                lemma_no_break_concat(p + "{\"foldable\":"@ + b + ",\"summary\":"@ + j, "}"@);
                lemma_no_break_concat(p + "{\"foldable\":"@ + b + ",\"summary\":"@ + j + "}"@, x);
            },
        }
        assert(m.last() == '>');
        assert(m[0] == '<');
    }
}

proof fn lemma_trim_start_len(s: Seq<char>)
    ensures
        trim_start(s).len() <= s.len(),
        trim_start(s).len() == s.len() ==> trim_start(s) == s,
    decreases s.len(),
{
    if s.len() > 0 && is_ws(s[0]) {
        lemma_trim_start_len(s.drop_first());
    }
}

proof fn lemma_trim_end_len(s: Seq<char>)
    ensures
        trim_end(s).len() <= s.len(),
        trim_end(s).len() == s.len() ==> trim_end(s) == s,
    decreases s.len(),
{
    if s.len() > 0 && is_ws(s.last()) {
        lemma_trim_end_len(s.drop_last());
    }
}

/// A trimmed text neither starts nor ends with whitespace; trimming never
/// lengthens a text.
pub proof fn lemma_trimmed_ends(s: Seq<char>)
    ensures
        trim(s).len() <= s.len(),
        trim(s) == s && s.len() > 0 ==> !is_ws(s.last()) && !is_ws(s[0]),
{
    lemma_trim_start_len(s);
    lemma_trim_end_len(trim_start(s));
    if trim(s) == s && s.len() > 0 {
        assert(trim_start(s) == s);
        assert(trim_end(s) == s);
        if is_ws(s.last()) {
            lemma_trim_end_len(s.drop_last());
        }
        if is_ws(s[0]) {
            lemma_trim_start_len(s.drop_first());
        }
    }
}

/// Whether no character of `l` is a carriage return.
pub open spec fn no_carriage_return(l: Seq<char>) -> bool {
    forall|k: int| 0 <= k < l.len() ==> l[k] != '\r'
}

proof fn lemma_split_no_cr(c: Seq<char>)
    requires
        no_carriage_return(c),
    ensures
        forall|i: int| 0 <= i < split_on(c, '\n').len() ==> no_carriage_return(#[trigger] split_on(c, '\n')[i]),
    decreases c.len(),
{
    let i = first_index(c, '\n');
    lemma_first_index(c, '\n');
    if i < c.len() {
        let head = c.take(i);
        let tail = c.skip(i + 1);
        assert forall|k: int| 0 <= k < tail.len() implies tail[k] != '\r' by {
            assert(tail[k] == c[k + i + 1]);
        }
        lemma_split_no_cr(tail);
        let rest = split_on(tail, '\n');
        assert(split_on(c, '\n') == seq![head] + rest);
        assert forall|k: int| 0 <= k < split_on(c, '\n').len() implies no_carriage_return(#[trigger] split_on(c, '\n')[k]) by {
            if k == 0 {
                assert(split_on(c, '\n')[0] == head);
                assert forall|j: int| 0 <= j < head.len() implies head[j] != '\r' by {
                    assert(head[j] == c[j]);
                }
            } else {
                assert(split_on(c, '\n')[k] == rest[k - 1]);
            }
        }
    } else {
        assert(split_on(c, '\n') == seq![c]);
    }
}

/// Whether a section reads back unchanged from the markdown it is written as:
/// its heading is non-empty, trimmed and on one line; its content has no
/// carriage return, does not end with a line break, has no line starting with
/// `## `, and is empty or starts with a line that has visible text and is no
/// metadata comment; and `table` decodes the JSON object written in its
/// metadata comment to its fold state and summary.
pub open spec fn reads_back(s: SectionView, table: MetadataTable) -> bool {
    &&& s.heading.len() > 0
    &&& trim(s.heading) == s.heading
    &&& no_break(s.heading)
    &&& no_carriage_return(s.content)
    &&& !(s.content.len() > 0 && s.content.last() == '\n')
    &&& forall|i: int|
        0 <= i < split_on(s.content, '\n').len() ==> !starts_with(
            #[trigger] split_on(s.content, '\n')[i],
            "## "@,
        )
    &&& s.content.len() > 0 ==> trim(split_on(s.content, '\n')[0]).len() > 0 && metadata_of_line(
        split_on(s.content, '\n')[0],
        table,
    ) is None
    &&& serialized_metadata(s) is Some ==> table.lookup(metadata_json(s)) == Some(
        MetadataView { foldable: s.foldable, summary: s.summary },
    )
}

/// The JSON object written in a section's metadata comment.
pub open spec fn metadata_json(s: SectionView) -> Seq<char> {
    "{\"foldable\":"@ + bool_text(s.foldable) + match s.summary {
        None => ",\"summary\":null}"@,
        Some(x) => ",\"summary\":"@ + json_string_literal(x) + "}"@,
    }
}

/// A written metadata comment is the comment markers around the section's
/// JSON object, and reads back as that object.
proof fn lemma_metadata_payload_read(s: SectionView)
    ensures
        serialized_metadata(s) matches Some(m) ==> m == meta_prefix() + metadata_json(s) + meta_suffix()
            && crate::document::metadata_payload(m) == Some(metadata_json(s)),
{
    reveal_strlit("<!-- CODEX_SECTION_META ");
    reveal_strlit(" -->");
    if let Some(m) = serialized_metadata(s) {
        let p = meta_prefix();
        let x = meta_suffix();
        let j = metadata_json(s);
        assert(m =~= p + j + x);
        assert(m[0] == '<');
        assert(m.last() == '>');
        assert(trim_start(m) == m);
        assert(trim_end(m) == m);
        assert(trim(m) == m);
        assert(m.take(p.len() as int) =~= p);
        assert(m.skip(p.len() as int) =~= j + x);
        assert((j + x).skip((j + x).len() - x.len()) =~= x);
        assert(m.subrange(p.len() as int, m.len() - x.len()) =~= j);
    }
}

proof fn lemma_section_lines_clean(s: SectionView, table: MetadataTable)
    requires
        reads_back(s, table),
    ensures
        forall|i: int| 0 <= i < section_lines(s).len() ==> clean_line(#[trigger] section_lines(s)[i]),
{
    reveal_strlit("## ");
    let hl = "## "@ + s.heading;
    assert(no_break("## "@));
    lemma_no_break_concat("## "@, s.heading);
    lemma_trimmed_ends(s.heading);
    assert(hl.last() == s.heading.last());
    assert(clean_line(hl));
    lemma_metadata_line_clean(s);
    if s.content.len() > 0 {
        lemma_unlines_split(s.content);
        lemma_split_no_cr(s.content);
    }
    let ml = metadata_lines(s);
    let cl = content_lines(s.content);
    assert forall|i: int| 0 <= i < section_lines(s).len() implies clean_line(#[trigger] section_lines(s)[i]) by {
        let t = tail_lines(s);
        if i == 0 {
            assert(section_lines(s)[0] == hl);
        } else {
            assert(section_lines(s)[i] == t[i - 1]);
            let j = i - 1;
            if j < ml.len() {
                assert(t[j] == ml[j]);
            } else if j < ml.len() + cl.len() {
                assert(t[j] == cl[j - ml.len()]);
                let l = cl[j - ml.len()];
                assert(no_carriage_return(l));
                if l.len() > 0 {
                    assert(l.last() == l[l.len() - 1]);
                }
            } else {
                assert(t[j] == Seq::<char>::empty());
            }
        }
    }
}

proof fn lemma_document_lines_clean(secs: Seq<SectionView>, table: MetadataTable, n: int)
    requires
        0 <= n <= secs.len(),
        forall|i: int| 0 <= i < secs.len() ==> reads_back(#[trigger] secs[i], table),
    ensures
        forall|i: int| 0 <= i < document_lines(secs, n).len() ==> clean_line(#[trigger] document_lines(secs, n)[i]),
    decreases n,
{
    if n > 0 {
        lemma_document_lines_clean(secs, table, n - 1);
        assert(reads_back(secs[n - 1], table));
        lemma_section_lines_clean(secs[n - 1], table);
        let a = document_lines(secs, n - 1);
        let b = section_lines(secs[n - 1]);
        assert forall|i: int| 0 <= i < document_lines(secs, n).len() implies clean_line(#[trigger] document_lines(secs, n)[i]) by {
            if i < a.len() {
                assert(document_lines(secs, n)[i] == a[i]);
            } else {
                assert(document_lines(secs, n)[i] == b[i - a.len()]);
            }
        }
    }
}

/// The lines of the markdown of such sections are the lines written for them.
pub proof fn lemma_markdown_lines(secs: Seq<SectionView>, table: MetadataTable)
    requires
        forall|i: int| 0 <= i < secs.len() ==> reads_back(#[trigger] secs[i], table),
    ensures
        lines(markdown(secs)) == document_lines(secs, secs.len() as int),
{
    assert forall|i: int| 0 <= i < secs.len() implies written_by_lines(#[trigger] secs[i]) by {
        assert(reads_back(secs[i], table));
    }
    lemma_markdown_unlines(secs, secs.len() as int);
    lemma_document_lines_clean(secs, table, secs.len() as int);
    lemma_lines_unlines(document_lines(secs, secs.len() as int));
}

proof fn lemma_document_lines_len(secs: Seq<SectionView>, i: int, j: int)
    requires
        0 <= i <= j,
    ensures
        document_lines(secs, i).len() <= document_lines(secs, j).len(),
    decreases j,
{
    if i < j {
        lemma_document_lines_len(secs, i, j - 1);
    }
}

proof fn lemma_document_line_at(secs: Seq<SectionView>, j: int, i: int, k: int)
    requires
        0 <= i < j,
        0 <= k < section_lines(secs[i]).len(),
    ensures
        document_lines(secs, j)[document_lines(secs, i).len() + k] == section_lines(secs[i])[k],
        document_lines(secs, i).len() + k < document_lines(secs, j).len(),
    decreases j,
{
    if i < j - 1 {
        lemma_document_line_at(secs, j - 1, i, k);
    }
}

proof fn lemma_join_len(x: Seq<Seq<char>>, sep: Seq<char>)
    requires
        x.len() > 0,
    ensures
        join(x, sep).len() >= x[0].len(),
    decreases x.len(),
{
    if x.len() > 1 {
        lemma_join_len(x.drop_last(), sep);
    }
}

proof fn lemma_group_tail(
    ls: Seq<Seq<char>>,
    start: int,
    tail: Seq<Seq<char>>,
    d: Seq<(Seq<char>, Seq<char>)>,
    h: Seq<char>,
    k: int,
)
    requires
        0 <= start,
        group_state(ls, start) == (d, h, Seq::<char>::empty()),
        start + tail.len() <= ls.len(),
        forall|j: int| 0 <= j < tail.len() ==> ls[start + j] == #[trigger] tail[j],
        forall|j: int| 0 <= j < tail.len() ==> !starts_with(#[trigger] tail[j], "## "@),
        tail.len() > 0,
        tail[0].len() > 0 || tail.len() == 1,
        1 <= k <= tail.len(),
    ensures
        group_state(ls, start + k) == (d, h, join(tail.take(k), "\n"@)),
    decreases k,
{
    reveal_strlit("\n");
    let line = tail[k - 1];
    assert(ls[start + k - 1] == line);
    assert(!starts_with(line, "## "@));
    if k == 1 {
        assert(tail.take(1) =~= seq![tail[0]]);
    } else {
        lemma_group_tail(ls, start, tail, d, h, k - 1);
        lemma_join_len(tail.take(k - 1), "\n"@);
        assert(tail.take(k - 1)[0] == tail[0]);
        assert(tail.take(k).drop_last() =~= tail.take(k - 1));
        assert(tail.take(k).last() == line);
    }
}

/// What the loader holds after the lines of `secs[..n]`, for `n >= 1`: an
/// empty preamble and the earlier sections done, the last one open.
pub open spec fn sections_done(secs: Seq<SectionView>, n: int) -> Seq<(Seq<char>, Seq<char>)> {
    seq![(Seq::<char>::empty(), Seq::<char>::empty())] + Seq::new(
        (n - 1) as nat,
        |j: int| (secs[j].heading, join(tail_lines(secs[j]), "\n"@)),
    )
}

proof fn lemma_tail_shape(s: SectionView, table: MetadataTable)
    requires
        reads_back(s, table),
    ensures
        tail_lines(s).len() > 0,
        tail_lines(s)[0].len() > 0 || tail_lines(s).len() == 1,
        forall|j: int| 0 <= j < tail_lines(s).len() ==> !starts_with(#[trigger] tail_lines(s)[j], "## "@),
{
    reveal_strlit("## ");
    let t = tail_lines(s);
    let ml = metadata_lines(s);
    let cl = content_lines(s.content);
    lemma_metadata_line_clean(s);
    if s.content.len() > 0 {
        lemma_split_on_nonempty(s.content, '\n');
        lemma_trimmed_ends(split_on(s.content, '\n')[0]);
    }
    if ml.len() > 0 {
        assert(t[0] == ml[0]);
    } else if cl.len() > 0 {
        assert(t[0] == cl[0]);
    } else {
        assert(t =~= seq![Seq::<char>::empty()]);
    }
    assert forall|j: int| 0 <= j < t.len() implies !starts_with(#[trigger] t[j], "## "@) by {
        if j < ml.len() {
            assert(t[j] == ml[j]);
            let m = ml[j];
            if starts_with(m, "## "@) {
                assert(m.take(3)[0] == m[0]);
            }
        } else if j < ml.len() + cl.len() {
            assert(t[j] == cl[j - ml.len()]);
        } else {
            assert(t[j] == Seq::<char>::empty());
        }
    }
}

/// After the lines of `secs[..i + 1]` the loader has the earlier sections
/// done and section `i` open.
proof fn lemma_group_sections(secs: Seq<SectionView>, table: MetadataTable, i: int)
    requires
        0 <= i < secs.len(),
        forall|j: int| 0 <= j < secs.len() ==> reads_back(#[trigger] secs[j], table),
    ensures
        group_state(document_lines(secs, secs.len() as int), document_lines(secs, i + 1).len() as int) == (
            sections_done(secs, i + 1),
            secs[i].heading,
            join(tail_lines(secs[i]), "\n"@),
        ),
    decreases i,
{
    reveal_strlit("## ");
    let n = secs.len() as int;
    let ls = document_lines(secs, n);
    let s = secs[i];
    assert(reads_back(s, table));
    let b = document_lines(secs, i).len() as int;
    if i > 0 {
        lemma_group_sections(secs, table, i - 1);
    } else {
        assert(group_state(ls, 0) == (Seq::<(Seq<char>, Seq<char>)>::empty(), Seq::<char>::empty(), Seq::<char>::empty()));
    }
    let prev = group_state(ls, b);
    lemma_document_line_at(secs, n, i, 0);
    let hl = "## "@ + s.heading;
    assert(section_lines(s)[0] == hl);
    assert(ls[b] == hl);
    assert(hl.take(3) =~= "## "@);
    assert(hl.skip(3) =~= s.heading);
    assert(group_state(ls, b + 1) == (prev.0.push((prev.1, prev.2)), s.heading, Seq::<char>::empty()));
    assert(prev.0.push((prev.1, prev.2)) =~= sections_done(secs, i + 1));
    let t = tail_lines(s);
    lemma_tail_shape(s, table);
    assert forall|j: int| 0 <= j < t.len() implies ls[b + 1 + j] == #[trigger] t[j] by {
        lemma_document_line_at(secs, n, i, j + 1);
        assert(section_lines(s)[j + 1] == t[j]);
    }
    lemma_document_line_at(secs, n, i, t.len() as int);
    lemma_group_tail(ls, b + 1, t, sections_done(secs, i + 1), s.heading, t.len() as int);
    assert(t.take(t.len() as int) =~= t);
    assert(document_lines(secs, i + 1).len() == b + 1 + t.len());
}

proof fn lemma_tail_lines_read(s: SectionView, table: MetadataTable)
    requires
        reads_back(s, table),
    ensures
        lines(join(tail_lines(s), "\n"@)) == metadata_lines(s) + content_lines(s.content),
{
    reveal_strlit("\n");
    let x = metadata_lines(s) + content_lines(s.content);
    let t = tail_lines(s);
    assert(t =~= x.push(Seq::<char>::empty()));
    if x.len() == 0 {
        assert(t =~= seq![Seq::<char>::empty()]);
        assert(join(t, "\n"@) == Seq::<char>::empty());
        assert(split_on(Seq::<char>::empty(), '\n') == seq![Seq::<char>::empty()]);
        assert(lines(Seq::<char>::empty()) =~= x);
    } else {
        assert(t.drop_last() =~= x);
        assert(join(t, "\n"@) =~= join(x, "\n"@) + seq!['\n']);
        lemma_join_unlines(x);
        lemma_section_lines_clean(s, table);
        assert forall|j: int| 0 <= j < x.len() implies clean_line(#[trigger] x[j]) by {
            assert(section_lines(s)[j + 1] == t[j]);
        }
        lemma_lines_unlines(x);
    }
}

proof fn lemma_content_state(
    ls: Seq<Seq<char>>,
    off: int,
    cl: Seq<Seq<char>>,
    meta: MetadataView,
    table: MetadataTable,
    k: int,
)
    requires
        0 <= off,
        split_metadata_state(ls, off, table) == (meta, Seq::<Seq<char>>::empty(), true),
        ls.len() == off + cl.len(),
        forall|j: int| 0 <= j < cl.len() ==> ls[off + j] == #[trigger] cl[j],
        cl.len() > 0 ==> metadata_of_line(cl[0], table) is None && trim(cl[0]).len() > 0,
        0 <= k <= cl.len(),
    ensures
        split_metadata_state(ls, off + k, table) == (meta, cl.take(k), k == 0),
    decreases k,
{
    if k == 0 {
        assert(cl.take(0) =~= Seq::<Seq<char>>::empty());
    } else {
        lemma_content_state(ls, off, cl, meta, table, k - 1);
        assert(ls[off + k - 1] == cl[k - 1]);
        assert(cl.take(k) =~= cl.take(k - 1).push(cl[k - 1]));
    }
}

/// A section's heading and the text written below it read back as the section.
proof fn lemma_make_section(s: SectionView, table: MetadataTable)
    requires
        reads_back(s, table),
    ensures
        make_section(s.heading, join(tail_lines(s), "\n"@), table) == s,
{
    reveal_strlit("\n");
    let ml = metadata_lines(s);
    let cl = content_lines(s.content);
    lemma_tail_lines_read(s, table);
    let ls = lines(join(tail_lines(s), "\n"@));
    assert(ls == ml + cl);
    let want = MetadataView { foldable: s.foldable, summary: s.summary };
    if s.content.len() > 0 {
        lemma_split_on_nonempty(s.content, '\n');
    }
    assert forall|j: int| 0 <= j < cl.len() implies ls[ml.len() + j] == #[trigger] cl[j] by {}
    match serialized_metadata(s) {
        Some(m) => {
            lemma_metadata_payload_read(s);
            assert(metadata_of_line(m, table) == Some(want));
            assert(ls[0] == m);
            assert(split_metadata_state(ls, 0, table) == (default_metadata(), Seq::<Seq<char>>::empty(), true));
            assert(split_metadata_state(ls, 1, table) == (want, Seq::<Seq<char>>::empty(), true));
            lemma_content_state(ls, 1, cl, want, table, cl.len() as int);
        },
        None => {
            assert(ml.len() == 0);
            assert(default_metadata() == want);
            lemma_content_state(ls, 0, cl, want, table, cl.len() as int);
        },
    }
    assert(cl.take(cl.len() as int) =~= cl);
    if s.content.len() > 0 {
        lemma_join_split(s.content);
    } else {
        assert(join(cl, "\n"@) =~= s.content);
    }
}

/// Reading back the markdown that a document's sections are written as gives
/// the same sections, for sections that read back unchanged (`reads_back`).
pub proof fn law_sections_round_trip(secs: Seq<SectionView>, table: MetadataTable)
    requires
        secs.len() > 0,
        forall|i: int| 0 <= i < secs.len() ==> reads_back(#[trigger] secs[i], table),
    ensures
        parse_sections(markdown(secs), table) == secs,
{
    let n = secs.len() as int;
    lemma_markdown_lines(secs, table);
    let ls = lines(markdown(secs));
    assert(ls == document_lines(secs, n));
    lemma_group_sections(secs, table, n - 1);
    let (done, heading, body) = group_state(ls, ls.len() as int);
    assert(done == sections_done(secs, n));
    let all = done.push((heading, body));
    let read = Seq::new(all.len(), |i: int| make_section(all[i].0, all[i].1, table));
    assert(split_on(Seq::<char>::empty(), '\n') == seq![Seq::<char>::empty()]);
    assert(lines(Seq::<char>::empty()) =~= Seq::<Seq<char>>::empty());
    assert(read[0] == make_section(Seq::<char>::empty(), Seq::<char>::empty(), table));
    assert(read[0].heading.len() == 0);
    assert(read[0].content =~= Seq::<char>::empty());
    assert(trim(Seq::<char>::empty()).len() == 0);
    assert forall|j: int| 0 <= j < n implies read.drop_first()[j] == secs[j] by {
        assert(reads_back(secs[j], table));
        lemma_make_section(secs[j], table);
        assert(all[j + 1] == (secs[j].heading, join(tail_lines(secs[j]), "\n"@)));
    }
    assert(read.drop_first() =~= secs);
}

} // verus!
