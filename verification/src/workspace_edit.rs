//! Turning a language server's workspace edit into an `apply_patch` preview:
//! LSP positions (lines and UTF-16 columns) to byte offsets, text edits
//! applied to file contents, and the patch text with its limits.
use vstd::prelude::*;

use crate::lsp_format::{LspPosition, LspRange};
use crate::text::{chars_of, decimal, push_chars, push_decimal};
use crate::tool_args::{char_utf8_len, utf8_bytes, utf8_len};

verus! {

broadcast use vstd::string::group_string_axioms;

/// The limits a patch preview must keep.
#[derive(Debug, Clone, Copy)]
pub struct PatchLimits {
    pub max_files_touched: usize,
    pub max_patch_bytes: usize,
}

impl Default for PatchLimits {
    /// At most 50 files and 256 KiB of patch text.
    fn default() -> (r: Self)
        ensures
            r.max_files_touched == 50,
            r.max_patch_bytes == 256 * 1024,
    {
        PatchLimits { max_files_touched: 50, max_patch_bytes: 256 * 1024 }
    }
}

/// A language server's text edit: replace `range` by `new_text`.
#[derive(Debug, Clone)]
pub struct TextEdit {
    pub range: LspRange,
    pub new_text: String,
}

/// The length of a character in UTF-16 code units.
pub open spec fn utf16_len(c: char) -> nat {
    if (c as u32) < 0x10000 {
        1
    } else {
        2
    }
}

/// The character positions where the lines of `s` start: 0, and the
/// position after each newline.
pub open spec fn line_starts(s: Seq<char>) -> Seq<nat>
    decreases s.len(),
{
    if s.len() == 0 {
        seq![0nat]
    } else if s.last() == '\n' {
        line_starts(s.drop_last()).push(s.len())
    } else {
        line_starts(s.drop_last())
    }
}

/// The number of characters from the start of a line that a column of
/// `units` UTF-16 code units covers: the fewest whose code units reach
/// `units`, or the whole line when none do.
pub open spec fn column_chars(line: Seq<char>, units: int) -> nat
    decreases line.len(),
{
    if units <= 0 || line.len() == 0 {
        0
    } else {
        1 + column_chars(line.drop_first(), units - utf16_len(line[0]))
    }
}

/// The error for a line past the end of the text.
pub open spec fn line_range_error(line: nat, starts: nat) -> Seq<char> {
    "position line "@ + decimal(line) + " out of range (max "@ + decimal((starts - 1) as nat) + seq![')']
}

/// The character position of an LSP position in `s`, if its line exists:
/// a column beyond the line's end is clamped to the end of the line, before
/// its line break.
pub open spec fn position_chars(s: Seq<char>, pos: LspPosition) -> Result<nat, Seq<char>> {
    let starts = line_starts(s);
    if pos.line >= starts.len() {
        Err(line_range_error(pos.line as nat, starts.len()))
    } else {
        let start = starts[pos.line as int];
        let end = if pos.line + 1 < starts.len() {
            (starts[pos.line + 1] - 1) as nat
        } else {
            s.len()
        };
        Ok(start + column_chars(s.subrange(start as int, end as int), pos.character as int))
    }
}

/// The byte offset of an LSP position in `s`.
pub open spec fn position_offset(s: Seq<char>, pos: LspPosition) -> Result<nat, Seq<char>> {
    match position_chars(s, pos) {
        Ok(p) => Ok(utf8_bytes(s.take(p as int))),
        Err(e) => Err(e),
    }
}

/// The UTF-8 encoding has as many bytes as `utf8_bytes` counts.
pub proof fn lemma_encoded_len(s: Seq<char>)
    ensures
        vstd::utf8::encode_utf8(s).len() == utf8_bytes(s),
    decreases s.len(),
{
    if s.len() > 0 {
        lemma_encoded_len(s.drop_first());
        let v = s[0] as u32;
        assert(vstd::utf8::is_scalar(v)) by {
            vstd::utf8::char_is_scalar(s[0]);
        }
    }
}

/// Byte counts add up over concatenation.
pub proof fn lemma_utf8_bytes_concat(a: Seq<char>, b: Seq<char>)
    ensures
        utf8_bytes(a + b) == utf8_bytes(a) + utf8_bytes(b),
    decreases a.len(),
{
    if a.len() > 0 {
        assert((a + b).drop_first() =~= a.drop_first() + b);
        lemma_utf8_bytes_concat(a.drop_first(), b);
    } else {
        assert(a + b =~= b);
    }
}

/// A prefix has no more bytes than the whole, and one more character
/// adds its own bytes.
pub proof fn lemma_utf8_bytes_take(s: Seq<char>, k: int)
    requires
        0 <= k < s.len(),
    ensures
        utf8_bytes(s.take(k + 1)) == utf8_bytes(s.take(k)) + utf8_len(s[k]),
        utf8_bytes(s.take(k + 1)) <= utf8_bytes(s),
{
    assert(s.take(k + 1) =~= s.take(k) + seq![s[k]]);
    lemma_utf8_bytes_concat(s.take(k), seq![s[k]]);
    assert(seq![s[k]].drop_first() =~= Seq::<char>::empty());
    assert(utf8_bytes(Seq::<char>::empty()) == 0);
    assert(utf8_bytes(seq![s[k]]) == utf8_len(s[k]) + utf8_bytes(seq![s[k]].drop_first()));
    assert(s =~= s.take(k + 1) + s.skip(k + 1));
    lemma_utf8_bytes_concat(s.take(k + 1), s.skip(k + 1));
}

/// The line starts are increasing, begin at 0 and stay within the text.
pub proof fn lemma_line_starts(s: Seq<char>)
    ensures
        line_starts(s).len() >= 1,
        line_starts(s)[0] == 0,
        forall|i: int| 0 <= i < line_starts(s).len() ==> #[trigger] line_starts(s)[i] <= s.len(),
        forall|i: int, j: int| 0 <= i < j < line_starts(s).len() ==> line_starts(s)[i] < line_starts(s)[j],
    decreases s.len(),
{
    if s.len() > 0 {
        lemma_line_starts(s.drop_last());
    }
}

proof fn lemma_column_chars_bound(line: Seq<char>, units: int)
    ensures
        column_chars(line, units) <= line.len(),
    decreases line.len(),
{
    if units > 0 && line.len() > 0 {
        lemma_column_chars_bound(line.drop_first(), units - utf16_len(line[0]));
    }
}

/// A position that resolves lies within the text: its byte offset is at
/// most the text's length in bytes.
pub proof fn law_position_within_text(s: Seq<char>, pos: LspPosition)
    ensures
        position_offset(s, pos) matches Ok(o) ==> o <= utf8_bytes(s),
{
    lemma_line_starts(s);
    let starts = line_starts(s);
    if pos.line < starts.len() {
        let start = starts[pos.line as int];
        let end = if pos.line + 1 < starts.len() {
            (starts[pos.line + 1] - 1) as nat
        } else {
            s.len()
        };
        if pos.line + 1 < starts.len() {
            assert(starts[pos.line as int] < starts[pos.line + 1]);
        }
        lemma_column_chars_bound(s.subrange(start as int, end as int), pos.character as int);
        let p = start + column_chars(s.subrange(start as int, end as int), pos.character as int);
        assert(s =~= s.take(p as int) + s.skip(p as int));
        lemma_utf8_bytes_concat(s.take(p as int), s.skip(p as int));
    }
}

/// The byte count of the first `p` characters.
fn prefix_bytes(v: &[char], p: usize, total: usize) -> (r: usize)
    requires
        p <= v@.len(),
        utf8_bytes(v@) == total,
    ensures
        r == utf8_bytes(v@.take(p as int)),
{
    let mut b: usize = 0;
    let mut k: usize = 0;
    assert(v@.take(0) =~= Seq::<char>::empty());
    while k < p
        invariant
            k <= p <= v@.len(),
            utf8_bytes(v@) == total,
            b == utf8_bytes(v@.take(k as int)),
        decreases p - k,
    {
        proof {
            lemma_utf8_bytes_take(v@, k as int);
        }
        b = b + char_utf8_len(v[k]);
        k = k + 1;
    }
    b
}

/// The line starts of `v`, as positions.
fn line_starts_of(v: &[char]) -> (r: Vec<usize>)
    ensures
        r@.len() == line_starts(v@).len(),
        forall|i: int| 0 <= i < r@.len() ==> r@[i] == #[trigger] line_starts(v@)[i],
{
    let mut starts: Vec<usize> = Vec::new();
    starts.push(0);
    let mut k: usize = 0;
    assert(v@.take(0) =~= Seq::<char>::empty());
    while k < v.len()
        invariant
            k <= v@.len(),
            starts@.len() == line_starts(v@.take(k as int)).len(),
            forall|i: int| 0 <= i < starts@.len() ==> starts@[i] == #[trigger] line_starts(v@.take(k as int))[i],
        decreases v@.len() - k,
    {
        assert(v@.take(k + 1).drop_last() =~= v@.take(k as int));
        if v[k] == '\n' {
            starts.push(k + 1);
        }
        k = k + 1;
    }
    assert(v@.take(v@.len() as int) =~= v@);
    starts
}

/// The number of characters a column covers on a line (`line` holds the
/// characters from `from` to `to`).
fn column_of(v: &[char], from: usize, to: usize, units: u32) -> (r: usize)
    requires
        from <= to <= v@.len(),
    ensures
        r == column_chars(v@.subrange(from as int, to as int), units as int),
        r <= to - from,
{
    let ghost line = v@.subrange(from as int, to as int);
    let mut k: usize = from;
    let mut used: u64 = 0;
    assert(line.skip(0) =~= line);
    while k < to
        invariant
            from <= k <= to <= v@.len(),
            line == v@.subrange(from as int, to as int),
            used <= 2 * (k - from),
            column_chars(line, units as int) == (k - from) + column_chars(line.skip(k - from), units - used),
        decreases to - k,
    {
        if used >= units as u64 {
            assert(column_chars(line.skip(k - from), units - used) == 0);
            return k - from;
        }
        let w: u64 = if (v[k] as u32) < 0x10000 {
            1
        } else {
            2
        };
        assert(line.skip(k - from)[0] == v@[k as int]);
        assert(line.skip(k - from).drop_first() =~= line.skip(k + 1 - from));
        used = used + w;
        k = k + 1;
    }
    assert(line.skip(to - from) =~= Seq::<char>::empty());
    to - from
}

/// The byte offset in `contents` of an LSP position: its line's start and
/// then as many characters as its UTF-16 column covers, clamped to the end
/// of the line (before its line break); an error when the line does not
/// exist.
pub fn position_to_offset_utf16(contents: &str, pos: LspPosition) -> (r: Result<usize, String>)
    ensures
        match r {
            Ok(o) => position_offset(contents@, pos) == Ok::<nat, Seq<char>>(o as nat),
            Err(e) => position_offset(contents@, pos) == Err::<nat, Seq<char>>(e@),
        },
{
    let v = chars_of(contents);
    let starts = line_starts_of(v.as_slice());
    proof {
        lemma_line_starts(v@);
    }
    let line = pos.line as usize;
    if line >= starts.len() {
        let mut e = String::from_str("position line ");
        push_decimal(&mut e, pos.line as u64);
        e.append(" out of range (max ");
        push_decimal(&mut e, (starts.len() - 1) as u64);
        let ghost head = e@;
        crate::text::push_char(&mut e, ')');
        assert(e@ =~= head + seq![')']);
        return Err(e);
    }
    let start = starts[line];
    let end = if line + 1 < starts.len() {
        starts[line + 1] - 1
    } else {
        v.len()
    };
    assert(start <= end) by {
        if line + 1 < starts.len() {
            assert(line_starts(v@)[line as int] < line_starts(v@)[line + 1]);
        }
    }
    let col = column_of(v.as_slice(), start, end, pos.character);
    let total = contents.as_bytes().len();
    proof {
        lemma_encoded_len(contents@);
    }
    Ok(prefix_bytes(v.as_slice(), start + col, total))
}

/// An edit resolved to byte offsets in the original text.
pub open spec fn change_view(c: (usize, usize, String)) -> (nat, nat, Seq<char>) {
    (c.0 as nat, c.1 as nat, c.2@)
}

/// Resolved edits, as values.
pub open spec fn change_views(cs: Seq<(usize, usize, String)>) -> Seq<(nat, nat, Seq<char>)> {
    cs.map_values(|c: (usize, usize, String)| change_view(c))
}

/// The edits resolved to byte offsets, in order; the first position that
/// does not resolve (its start before its end) gives the error.
pub open spec fn edit_offsets(contents: Seq<char>, edits: Seq<TextEdit>) -> Result<Seq<(nat, nat, Seq<char>)>, Seq<char>>
    decreases edits.len(),
{
    if edits.len() == 0 {
        Ok(Seq::empty())
    } else {
        match edit_offsets(contents, edits.drop_last()) {
            Err(e) => Err(e),
            Ok(prev) => match position_offset(contents, edits.last().range.start) {
                Err(e) => Err(e),
                Ok(s) => match position_offset(contents, edits.last().range.end) {
                    Err(e) => Err(e),
                    Ok(e) => Ok(prev.push((s, e, edits.last().new_text@))),
                },
            },
        }
    }
}

/// How many leading edits start at `key` or later.
pub open spec fn leading_not_before(sorted: Seq<(nat, nat, Seq<char>)>, key: nat) -> nat
    decreases sorted.len(),
{
    if sorted.len() == 0 || sorted[0].0 < key {
        0
    } else {
        1 + leading_not_before(sorted.drop_first(), key)
    }
}

/// The edits ordered by start, latest first; edits that start at the same
/// offset keep their order (a stable sort).
pub open spec fn sort_by_start_desc(cs: Seq<(nat, nat, Seq<char>)>) -> Seq<(nat, nat, Seq<char>)>
    decreases cs.len(),
{
    if cs.len() == 0 {
        cs
    } else {
        let sorted = sort_by_start_desc(cs.drop_last());
        sorted.insert(leading_not_before(sorted, cs.last().0) as int, cs.last())
    }
}

/// The position of the character that starts at byte `b`, if one does (or
/// the end of the text, when `b` is its length).
pub open spec fn char_at_byte(s: Seq<char>, b: int) -> Option<nat>
    decreases s.len(),
{
    if b == 0 {
        Some(0)
    } else if s.len() == 0 || b < utf8_len(s[0]) {
        None
    } else {
        match char_at_byte(s.drop_first(), b - utf8_len(s[0])) {
            Some(i) => Some(i + 1),
            None => None,
        }
    }
}

/// What applying edits to a text comes to: the new text, an error, or a
/// replacement whose offsets split a character (where a `String` panics).
pub enum EditOutcome {
    Applied(Seq<char>),
    Failed(Seq<char>),
    Broken,
}

/// Applies resolved edits one after another to `out`: each replaces the
/// bytes from its start to its end; an edit whose start is after its end,
/// or whose end is past the text, fails the whole application.
pub open spec fn run_changes(out: Seq<char>, cs: Seq<(nat, nat, Seq<char>)>) -> EditOutcome
    decreases cs.len(),
{
    if cs.len() == 0 {
        EditOutcome::Applied(out)
    } else if cs[0].0 > cs[0].1 || cs[0].1 > utf8_bytes(out) {
        EditOutcome::Failed("invalid edit range"@)
    } else {
        match (char_at_byte(out, cs[0].0 as int), char_at_byte(out, cs[0].1 as int)) {
            (Some(i), Some(j)) => run_changes(out.take(i as int) + cs[0].2 + out.skip(j as int), cs.drop_first()),
            _ => EditOutcome::Broken,
        }
    }
}

/// What applying text edits to `contents` comes to: no edits leave it as
/// it is; otherwise the edits are resolved against the original text and
/// applied from the latest start to the earliest.
pub open spec fn edits_outcome(contents: Seq<char>, edits: Seq<TextEdit>) -> EditOutcome {
    if edits.len() == 0 {
        EditOutcome::Applied(contents)
    } else {
        match edit_offsets(contents, edits) {
            Err(e) => EditOutcome::Failed(e),
            Ok(cs) => run_changes(contents, sort_by_start_desc(cs)),
        }
    }
}

/// The edits before the insertion point start at `key` or later; the one at
/// it (if any) starts earlier.
proof fn lemma_leading_not_before(sorted: Seq<(nat, nat, Seq<char>)>, key: nat)
    requires
        forall|i: int, j: int| 0 <= i < j < sorted.len() ==> sorted[i].0 >= sorted[j].0,
    ensures
        leading_not_before(sorted, key) <= sorted.len(),
        forall|i: int| 0 <= i < leading_not_before(sorted, key) ==> #[trigger] sorted[i].0 >= key,
        leading_not_before(sorted, key) < sorted.len() ==> sorted[leading_not_before(sorted, key) as int].0 < key,
    decreases sorted.len(),
{
    if sorted.len() > 0 && sorted[0].0 >= key {
        let rest = sorted.drop_first();
        assert forall|i: int, j: int| 0 <= i < j < rest.len() implies rest[i].0 >= rest[j].0 by {
            assert(rest[i] == sorted[i + 1] && rest[j] == sorted[j + 1]);
        }
        lemma_leading_not_before(rest, key);
        assert forall|i: int| 0 <= i < leading_not_before(sorted, key) implies #[trigger] sorted[i].0 >= key by {
            if i > 0 {
                assert(sorted[i] == rest[i - 1]);
            }
        }
    }
}

/// Edits are applied latest start first, and none is lost: the ordered
/// edits start at offsets that never increase and are the same edits.
pub proof fn law_edits_ordered_latest_first(cs: Seq<(nat, nat, Seq<char>)>)
    ensures
        sort_by_start_desc(cs).len() == cs.len(),
        forall|i: int, j: int|
            0 <= i < j < cs.len() ==> (#[trigger] sort_by_start_desc(cs)[i]).0 >= (#[trigger] sort_by_start_desc(cs)[j]).0,
        sort_by_start_desc(cs).to_multiset() == cs.to_multiset(),
    decreases cs.len(),
{
    if cs.len() > 0 {
        let prev = cs.drop_last();
        law_edits_ordered_latest_first(prev);
        let sorted = sort_by_start_desc(prev);
        let c = cs.last();
        let k = leading_not_before(sorted, c.0);
        lemma_leading_not_before(sorted, c.0);
        let out = sorted.insert(k as int, c);
        assert(out == sort_by_start_desc(cs));
        assert forall|i: int, j: int| 0 <= i < j < out.len() implies (#[trigger] out[i]).0 >= (#[trigger] out[j]).0 by {
            if j < k {
                assert(out[i] == sorted[i] && out[j] == sorted[j]);
            } else if j == k {
                assert(out[i] == sorted[i]);
            } else if i < k {
                assert(out[i] == sorted[i] && out[j] == sorted[j - 1]);
                assert(sorted[i].0 >= c.0);
                assert(sorted[k as int].0 >= sorted[j - 1].0 || k == j - 1);
            } else if i == k {
                assert(out[j] == sorted[j - 1]);
                assert(sorted[k as int].0 < c.0);
                assert(sorted[k as int].0 >= sorted[j - 1].0 || k == j - 1);
            } else {
                assert(out[i] == sorted[i - 1] && out[j] == sorted[j - 1]);
            }
        }
        vstd::seq_lib::to_multiset_insert(sorted, k as int, c);
        vstd::seq_lib::to_multiset_build(prev, c);
        assert(cs =~= prev.push(c));
    }
}

/// The byte offsets of an edit's range.
fn range_to_offsets(contents: &str, range: LspRange) -> (r: Result<(usize, usize), String>)
    ensures
        match r {
            Ok((s, e)) => position_offset(contents@, range.start) == Ok::<nat, Seq<char>>(s as nat)
                && position_offset(contents@, range.end) == Ok::<nat, Seq<char>>(e as nat),
            Err(m) => match position_offset(contents@, range.start) {
                Err(x) => m@ == x,
                Ok(_) => position_offset(contents@, range.end) == Err::<nat, Seq<char>>(m@),
            },
        },
{
    let start = match position_to_offset_utf16(contents, range.start) {
        Ok(o) => o,
        Err(e) => return Err(e),
    };
    let end = match position_to_offset_utf16(contents, range.end) {
        Ok(o) => o,
        Err(e) => return Err(e),
    };
    Ok((start, end))
}

/// Inserts `c` after the leading edits that start at its start or later.
fn insert_by_start(sorted: &mut Vec<(usize, usize, String)>, c: (usize, usize, String))
    ensures
        change_views(final(sorted)@) == change_views(old(sorted)@).insert(
            leading_not_before(change_views(old(sorted)@), c.0 as nat) as int,
            change_view(c),
        ),
{
    let ghost before = change_views(sorted@);
    let mut k: usize = 0;
    assert(before.skip(0) =~= before);
    while k < sorted.len() && sorted[k].0 >= c.0
        invariant
            k <= sorted@.len(),
            before == change_views(sorted@),
            leading_not_before(before, c.0 as nat) == k + leading_not_before(before.skip(k as int), c.0 as nat),
        decreases sorted@.len() - k,
    {
        assert(before.skip(k as int)[0] == change_view(sorted@[k as int]));
        assert(before.skip(k as int).drop_first() =~= before.skip(k + 1));
        k = k + 1;
    }
    proof {
        if k < sorted@.len() {
            assert(before.skip(k as int)[0] == change_view(sorted@[k as int]));
        }
    }
    sorted.insert(k, c);
    assert(change_views(sorted@) =~= before.insert(k as int, change_view(c)));
}

/// The position of the character starting at byte `b` of `v`.
fn char_index_at(v: &[char], b: usize) -> (r: Option<usize>)
    ensures
        r matches Some(i) ==> char_at_byte(v@, b as int) == Some(i as nat),
        r is None ==> char_at_byte(v@, b as int) is None,
{
    let mut k: usize = 0;
    let mut used: usize = 0;
    assert(v@.skip(0) =~= v@);
    while k < v.len()
        invariant
            k <= v@.len(),
            used <= b,
            char_at_byte(v@, b as int) == match char_at_byte(v@.skip(k as int), b - used) {
                Some(i) => Some((i + k) as nat),
                None => None::<nat>,
            },
        decreases v@.len() - k,
    {
        if used == b {
            return Some(k);
        }
        let w = char_utf8_len(v[k]);
        assert(v@.skip(k as int)[0] == v@[k as int]);
        assert(v@.skip(k as int).drop_first() =~= v@.skip(k + 1));
        if b - used < w {
            return None;
        }
        used = used + w;
        k = k + 1;
    }
    assert(v@.skip(k as int).len() == 0);
    if used == b {
        Some(k)
    } else {
        None
    }
}

/// Why edits could not be applied: an error to report, or a replacement
/// whose byte offsets split a character, where `String::replace_range`
/// panics.
#[derive(Debug)]
pub enum EditFailure {
    Message(String),
    SplitCharacter,
}

/// Applies a language server's text edits to `contents`: all positions are
/// resolved against the original text, then the edits are applied from the
/// latest start to the earliest, so that earlier offsets stay valid.
pub fn apply_text_edits_utf16(contents: &str, edits: &[TextEdit]) -> (r: Result<String, EditFailure>)
    ensures
        match r {
            Ok(o) => edits_outcome(contents@, edits@) == EditOutcome::Applied(o@),
            Err(EditFailure::Message(e)) => edits_outcome(contents@, edits@) == EditOutcome::Failed(e@),
            Err(EditFailure::SplitCharacter) => edits_outcome(contents@, edits@) is Broken,
        },
{
    if edits.len() == 0 {
        return Ok(String::from_str(contents));
    }
    let mut changes: Vec<(usize, usize, String)> = Vec::new();
    let mut k: usize = 0;
    assert(edits@.take(0) =~= Seq::<TextEdit>::empty());
    assert(change_views(changes@) =~= Seq::<(nat, nat, Seq<char>)>::empty());
    while k < edits.len()
        invariant
            k <= edits@.len(),
            edit_offsets(contents@, edits@.take(k as int)) == Ok::<Seq<(nat, nat, Seq<char>)>, Seq<char>>(
                change_views(changes@),
            ),
        decreases edits@.len() - k,
    {
        assert(edits@.take(k + 1).drop_last() =~= edits@.take(k as int));
        assert(edits@.take(k + 1).last() == edits@[k as int]);
        let ghost prev = change_views(changes@);
        match range_to_offsets(contents, edits[k].range) {
            Ok((s, e)) => {
                changes.push((s, e, edits[k].new_text.clone()));
                assert(change_views(changes@) =~= prev.push((s as nat, e as nat, edits@[k as int].new_text@)));
            },
            Err(m) => {
                proof {
                    lemma_edit_offsets_err(contents@, edits@, k as int);
                }
                return Err(EditFailure::Message(m));
            },
        }
        k = k + 1;
    }
    assert(edits@.take(edits@.len() as int) =~= edits@);
    let mut sorted: Vec<(usize, usize, String)> = Vec::new();
    let mut i: usize = 0;
    let ghost cs = change_views(changes@);
    assert(cs.take(0) =~= Seq::<(nat, nat, Seq<char>)>::empty());
    assert(change_views(sorted@) =~= Seq::<(nat, nat, Seq<char>)>::empty());
    while i < changes.len()
        invariant
            i <= changes@.len(),
            cs == change_views(changes@),
            change_views(sorted@) == sort_by_start_desc(cs.take(i as int)),
        decreases changes@.len() - i,
    {
        assert(cs.take(i + 1).drop_last() =~= cs.take(i as int));
        assert(cs.take(i + 1).last() == change_view(changes@[i as int]));
        let c = (changes[i].0, changes[i].1, changes[i].2.clone());
        insert_by_start(&mut sorted, c);
        i = i + 1;
    }
    assert(cs.take(changes@.len() as int) =~= cs);
    let mut out = String::from_str(contents);
    let mut j: usize = 0;
    let ghost all = change_views(sorted@);
    assert(all.skip(0) =~= all);
    assert(edit_offsets(contents@, edits@) == Ok::<Seq<(nat, nat, Seq<char>)>, Seq<char>>(cs));
    assert(all == sort_by_start_desc(cs));
    while j < sorted.len()
        invariant
            j <= sorted@.len(),
            all == change_views(sorted@),
            run_changes(contents@, all) == run_changes(out@, all.skip(j as int)),
            edits_outcome(contents@, edits@) == run_changes(contents@, all),
        decreases sorted@.len() - j,
    {
        let (s, e) = (sorted[j].0, sorted[j].1);
        let ghost rest = all.skip(j as int);
        assert(rest[0] == change_view(sorted@[j as int]));
        assert(rest.drop_first() =~= all.skip(j + 1));
        let total = out.as_str().as_bytes().len();
        proof {
            lemma_encoded_len(out@);
        }
        if s > e || e > total {
            return Err(EditFailure::Message(String::from_str("invalid edit range")));
        }
        let v = chars_of(out.as_str());
        let a = char_index_at(v.as_slice(), s);
        let b = char_index_at(v.as_slice(), e);
        proof {
            lemma_char_at_byte_bound(v@, s as int);
            lemma_char_at_byte_bound(v@, e as int);
        }
        match (a, b) {
            (Some(ai), Some(bi)) => {
                let mut next = String::new();
                push_prefix(&mut next, v.as_slice(), ai);
                next.append(sorted[j].2.as_str());
                push_suffix(&mut next, v.as_slice(), bi);
                assert(next@ =~= out@.take(ai as int) + rest[0].2 + out@.skip(bi as int));
                out = next;
            },
            _ => {
                return Err(EditFailure::SplitCharacter);
            },
        }
        j = j + 1;
    }
    assert(all.skip(sorted@.len() as int).len() == 0);
    Ok(out)
}

/// A character position found by its byte offset lies within the text.
proof fn lemma_char_at_byte_bound(s: Seq<char>, b: int)
    ensures
        char_at_byte(s, b) matches Some(i) ==> i <= s.len(),
    decreases s.len(),
{
    if b != 0 && s.len() > 0 && b >= utf8_len(s[0]) {
        lemma_char_at_byte_bound(s.drop_first(), b - utf8_len(s[0]));
    }
}

/// An error resolving edit `k` is the error of the whole resolution.
proof fn lemma_edit_offsets_err(contents: Seq<char>, edits: Seq<TextEdit>, k: int)
    requires
        0 <= k < edits.len(),
        edit_offsets(contents, edits.take(k)) is Ok,
        edit_offsets(contents, edits.take(k + 1)) is Err,
    ensures
        edit_offsets(contents, edits) == edit_offsets(contents, edits.take(k + 1)),
    decreases edits.len() - k,
{
    if k + 1 < edits.len() {
        lemma_edit_offsets_err_extends(contents, edits, k + 1);
    } else {
        assert(edits.take(k + 1) =~= edits);
    }
}

/// Once resolution fails, resolving more edits fails the same way.
proof fn lemma_edit_offsets_err_extends(contents: Seq<char>, edits: Seq<TextEdit>, n: int)
    requires
        0 < n <= edits.len(),
        edit_offsets(contents, edits.take(n)) is Err,
    ensures
        edit_offsets(contents, edits) == edit_offsets(contents, edits.take(n)),
    decreases edits.len() - n,
{
    if n < edits.len() {
        assert(edits.take(n + 1).drop_last() =~= edits.take(n));
        lemma_edit_offsets_err_extends(contents, edits, n + 1);
    } else {
        assert(edits.take(n) =~= edits);
    }
}

/// Appends the first `n` characters of `v`.
fn push_prefix(s: &mut String, v: &[char], n: usize)
    requires
        n <= v@.len(),
    ensures
        final(s)@ == old(s)@ + v@.take(n as int),
{
    let mut i: usize = 0;
    while i < n
        invariant
            i <= n <= v@.len(),
            s@ == old(s)@ + v@.take(i as int),
        decreases n - i,
    {
        crate::text::push_char(s, v[i]);
        i = i + 1;
        assert(s@ =~= old(s)@ + v@.take(i as int));
    }
}

/// Appends the characters of `v` from position `n` on.
fn push_suffix(s: &mut String, v: &[char], n: usize)
    requires
        n <= v@.len(),
    ensures
        final(s)@ == old(s)@ + v@.skip(n as int),
{
    let mut i: usize = n;
    while i < v.len()
        invariant
            n <= i <= v@.len(),
            s@ == old(s)@ + v@.subrange(n as int, i as int),
        decreases v@.len() - i,
    {
        crate::text::push_char(s, v[i]);
        i = i + 1;
        assert(s@ =~= old(s)@ + v@.subrange(n as int, i as int));
    }
    assert(v@.subrange(n as int, v@.len() as int) =~= v@.skip(n as int));
}

/// The lines of context around each change in the diffs of workspace edits.
pub const DIFF_CONTEXT_LINES: usize = 2;

/// The name for the unified diff that `similar` renders for two texts,
/// compared line by line, with `context` lines of context and no header.
pub uninterp spec fn unified_line_diff(context: usize, old: Seq<char>, new: Seq<char>) -> Seq<char>;

/// `similar::TextDiff::from_lines(old, new)` rendered by `unified_diff()`
/// with `context_radius(context)` and no header. The diff runs without a
/// deadline, so the text is a function of the three inputs, named
/// `unified_line_diff`.
#[verifier::external_body]
fn unified_diff_text(context: usize, old: &str, new: &str) -> (r: String)
    ensures
        r@ == unified_line_diff(context, old@, new@),
{
    similar::TextDiff::from_lines(old, new).unified_diff().context_radius(context).to_string()
}

/// Where reading a unified diff has got to: the chunks so far, the lines of
/// the chunk being read, and whether a hunk header has been seen.
pub struct ChunkParse {
    pub chunks: Seq<Seq<Seq<char>>>,
    pub current: Seq<Seq<char>>,
    pub in_hunk: bool,
}

/// The first character of a line, a space for an empty one.
pub open spec fn first_char(line: Seq<char>) -> char {
    if line.len() == 0 {
        ' '
    } else {
        line[0]
    }
}

/// Reads one line of a unified diff: file headers are skipped; a hunk
/// header closes the chunk being read (when it has lines) and opens the
/// next; inside a hunk, context, added and removed lines are kept and any
/// other line (such as the no-newline marker) is dropped.
pub open spec fn parse_step(st: ChunkParse, line: Seq<char>) -> ChunkParse {
    if crate::text::starts_with(line, "--- "@) || crate::text::starts_with(line, "+++ "@) {
        st
    } else if crate::text::starts_with(line, "@@"@) {
        ChunkParse {
            chunks: if st.in_hunk && st.current.len() > 0 {
                st.chunks.push(st.current)
            } else {
                st.chunks
            },
            current: if st.in_hunk {
                Seq::empty()
            } else {
                st.current
            },
            in_hunk: true,
        }
    } else if !st.in_hunk {
        st
    } else if first_char(line) == ' ' || first_char(line) == '+' || first_char(line) == '-' {
        ChunkParse { current: st.current.push(line), ..st }
    } else {
        st
    }
}

/// The state after reading all of `ls`.
pub open spec fn parse_lines(ls: Seq<Seq<char>>) -> ChunkParse
    decreases ls.len(),
{
    if ls.len() == 0 {
        ChunkParse { chunks: Seq::empty(), current: Seq::empty(), in_hunk: false }
    } else {
        parse_step(parse_lines(ls.drop_last()), ls.last())
    }
}

/// The error when a diff yields no chunk.
pub open spec fn no_chunks_error() -> Seq<char> {
    "failed to generate diff chunks for preview"@
}

/// The update chunks of a unified diff: the lines of each hunk, without
/// its header; an error when there are none.
pub open spec fn update_chunks(diff: Seq<char>) -> Result<Seq<Seq<Seq<char>>>, Seq<char>> {
    let st = parse_lines(crate::text::lines(diff));
    let chunks = if st.in_hunk && st.current.len() > 0 {
        st.chunks.push(st.current)
    } else {
        st.chunks
    };
    if chunks.len() == 0 {
        Err(no_chunks_error())
    } else {
        Ok(chunks)
    }
}

/// Chunks of lines, as values.
pub open spec fn chunk_views(cs: Seq<Vec<String>>) -> Seq<Seq<Seq<char>>> {
    cs.map_values(|c: Vec<String>| crate::text::string_views(c@))
}

/// Whether the characters of `line` start with `prefix`.
fn line_starts_with(line: &[char], prefix: &str) -> (b: bool)
    ensures
        b == crate::text::starts_with(line@, prefix@),
{
    let p = chars_of(prefix);
    crate::text::starts_with_chars(line, p.as_slice())
}

/// Reads the update chunks out of a unified diff.
pub fn update_chunks_from_diff(diff: &str) -> (r: Result<Vec<Vec<String>>, String>)
    ensures
        match r {
            Ok(cs) => update_chunks(diff@) == Ok::<Seq<Seq<Seq<char>>>, Seq<char>>(chunk_views(cs@)),
            Err(e) => update_chunks(diff@) == Err::<Seq<Seq<Seq<char>>>, Seq<char>>(e@),
        },
{
    let v = chars_of(diff);
    let ls = crate::text::lines_of(v.as_slice());
    let ghost lv = crate::text::views(ls@);
    let mut chunks: Vec<Vec<String>> = Vec::new();
    let mut current: Vec<String> = Vec::new();
    let mut in_hunk = false;
    let mut k: usize = 0;
    assert(lv.take(0) =~= Seq::<Seq<char>>::empty());
    assert(chunk_views(chunks@) =~= Seq::<Seq<Seq<char>>>::empty());
    assert(crate::text::string_views(current@) =~= Seq::<Seq<char>>::empty());
    while k < ls.len()
        invariant
            k <= ls@.len(),
            lv == crate::text::views(ls@),
            parse_lines(lv.take(k as int)) == (ChunkParse {
                chunks: chunk_views(chunks@),
                current: crate::text::string_views(current@),
                in_hunk,
            }),
        decreases ls@.len() - k,
    {
        assert(lv.take(k + 1).drop_last() =~= lv.take(k as int));
        assert(lv.take(k + 1).last() == ls@[k as int]@);
        let line = ls[k].as_slice();
        if line_starts_with(line, "--- ") || line_starts_with(line, "+++ ") {
        } else if line_starts_with(line, "@@") {
            if in_hunk {
                let ghost prev = chunk_views(chunks@);
                let ghost cur = crate::text::string_views(current@);
                if current.len() > 0 {
                    let done = current;
                    chunks.push(done);
                    assert(chunk_views(chunks@) =~= prev.push(cur));
                }
                current = Vec::new();
                assert(crate::text::string_views(current@) =~= Seq::<Seq<char>>::empty());
            }
            in_hunk = true;
        } else if in_hunk {
            let first = if line.len() == 0 {
                ' '
            } else {
                line[0]
            };
            if first == ' ' || first == '+' || first == '-' {
                let ghost cur = crate::text::string_views(current@);
                current.push(crate::text::string_of(line));
                assert(crate::text::string_views(current@) =~= cur.push(lv[k as int]));
            }
        }
        k = k + 1;
    }
    assert(lv.take(ls@.len() as int) =~= lv);
    if in_hunk && current.len() > 0 {
        let ghost prev = chunk_views(chunks@);
        let ghost cur = crate::text::string_views(current@);
        chunks.push(current);
        assert(chunk_views(chunks@) =~= prev.push(cur));
    }
    if chunks.len() == 0 {
        return Err(String::from_str("failed to generate diff chunks for preview"));
    }
    Ok(chunks)
}

/// The update chunks between two texts, read from their unified diff.
pub fn diff_to_update_chunks(old_contents: &str, new_contents: &str) -> (r: Result<Vec<Vec<String>>, String>)
    ensures
        match r {
            Ok(cs) => update_chunks(unified_line_diff(DIFF_CONTEXT_LINES, old_contents@, new_contents@)) == Ok::<
                Seq<Seq<Seq<char>>>,
                Seq<char>,
            >(chunk_views(cs@)),
            Err(e) => update_chunks(unified_line_diff(DIFF_CONTEXT_LINES, old_contents@, new_contents@)) == Err::<
                Seq<Seq<Seq<char>>>,
                Seq<char>,
            >(e@),
        },
{
    let diff = unified_diff_text(DIFF_CONTEXT_LINES, old_contents, new_contents);
    update_chunks_from_diff(diff.as_str())
}

/// The pieces of `s` between newlines, as `str::split_terminator('\n')`
/// gives them: no final empty piece after a trailing newline.
pub open spec fn terminated_pieces(s: Seq<char>) -> Seq<Seq<char>> {
    let raw = crate::text::split_on(s, '\n');
    if raw.len() > 0 && raw.last().len() == 0 {
        raw.drop_last()
    } else {
        raw
    }
}

/// The lines of an added file in a patch: each line of its contents after
/// a `+`.
pub open spec fn add_file_body(contents: Seq<char>) -> Seq<Seq<char>> {
    terminated_pieces(contents).map_values(|l: Seq<char>| seq!['+'] + l)
}

proof fn lemma_split_ends_empty(c: Seq<char>)
    ensures
        crate::text::split_on(c, '\n').len() >= 1,
        c.len() > 0 && c.last() == '\n' ==> crate::text::split_on(c, '\n').last().len() == 0,
    decreases c.len(),
{
    crate::text::lemma_split_on_nonempty(c, '\n');
    let i = crate::text::first_index(c, '\n');
    crate::text::lemma_first_index(c, '\n');
    if i < c.len() {
        let tail = c.skip(i + 1);
        lemma_split_ends_empty(tail);
        let rest = crate::text::split_on(tail, '\n');
        assert(crate::text::split_on(c, '\n') == seq![c.take(i)] + rest);
        assert((seq![c.take(i)] + rest).last() == rest.last());
        if c.len() > 0 && c.last() == '\n' {
            if tail.len() == 0 {
                assert(rest == seq![tail]);
            } else {
                assert(tail.last() == c.last());
            }
        }
    } else if c.len() > 0 && c.last() == '\n' {
        assert(c[c.len() - 1] == '\n');
    }
}

/// Law: the body of an added file gives its contents back: every body line
/// starts with `+`, and with the `+` taken off, the lines joined by line
/// breaks are the contents, up to the line break that ends them (so no line
/// of the contents is lost, the last one neither).
pub proof fn law_add_file_body_gives_contents_back(contents: Seq<char>)
    ensures
        forall|i: int|
            0 <= i < add_file_body(contents).len() ==> (#[trigger] add_file_body(contents)[i]).len() > 0
                && add_file_body(contents)[i][0] == '+',
        crate::text::join(add_file_body(contents).map_values(|l: Seq<char>| l.drop_first()), "\n"@) + (if contents.len() > 0
            && contents.last() == '\n' {
            "\n"@
        } else {
            Seq::<char>::empty()
        }) == contents,
{
    reveal_strlit("\n");
    let raw = crate::text::split_on(contents, '\n');
    let pieces = terminated_pieces(contents);
    let body = add_file_body(contents);
    assert forall|i: int| 0 <= i < body.len() implies (#[trigger] body[i]).len() > 0 && body[i][0] == '+' by {
        assert(body[i] == seq!['+'] + pieces[i]);
    }
    let stripped = body.map_values(|l: Seq<char>| l.drop_first());
    assert(stripped =~= pieces) by {
        assert forall|i: int| 0 <= i < pieces.len() implies stripped[i] == pieces[i] by {
            assert(body[i] == seq!['+'] + pieces[i]);
            assert((seq!['+'] + pieces[i]).drop_first() =~= pieces[i]);
        }
    }
    crate::section_round_trip::lemma_join_split(contents);
    lemma_split_ends_empty(contents);
    if raw.last().len() == 0 {
        if raw.len() == 1 {
            assert(pieces =~= Seq::<Seq<char>>::empty());
            assert(crate::text::join(raw, "\n"@) == raw[0]);
        } else {
            assert(pieces == raw.drop_last());
            assert(crate::text::join(raw, "\n"@) == crate::text::join(pieces, "\n"@) + "\n"@ + raw.last());
            assert(contents =~= crate::text::join(pieces, "\n"@) + "\n"@);
        }
    } else {
        assert(pieces == raw);
    }
}

/// Appends the lines of an added file's body.
pub(crate) fn push_add_file_body(hunks: &mut Vec<String>, contents: &str)
    ensures
        crate::text::string_views(final(hunks)@) == crate::text::string_views(old(hunks)@) + add_file_body(contents@),
{
    let v = chars_of(contents);
    let raw = crate::text::split_chars(v.as_slice(), '\n');
    let ghost rv = crate::text::views(raw@);
    let n = if raw.len() > 0 && raw[raw.len() - 1].len() == 0 {
        raw.len() - 1
    } else {
        raw.len()
    };
    let ghost pieces = terminated_pieces(contents@);
    assert(pieces =~= rv.take(n as int));
    let ghost start = crate::text::string_views(hunks@);
    let mut k: usize = 0;
    while k < n
        invariant
            k <= n <= raw@.len(),
            rv == crate::text::views(raw@),
            pieces == rv.take(n as int),
            crate::text::string_views(hunks@) == start + pieces.take(k as int).map_values(
                |l: Seq<char>| seq!['+'] + l,
            ),
        decreases n - k,
    {
        let mut line = String::from_str("+");
        proof {
            reveal_strlit("+");
            assert("+"@ =~= seq!['+']);
        }
        push_chars(&mut line, raw[k].as_slice());
        let ghost prev = crate::text::string_views(hunks@);
        hunks.push(line);
        assert(crate::text::string_views(hunks@) =~= prev.push(seq!['+'] + rv[k as int]));
        k = k + 1;
        assert(pieces.take(k as int).map_values(|l: Seq<char>| seq!['+'] + l) =~= pieces.take(k - 1).map_values(
            |l: Seq<char>| seq!['+'] + l,
        ).push(seq!['+'] + rv[k - 1]));
    }
    assert(pieces.take(n as int) =~= pieces);
}

/// Whether a patch line names a file it touches.
pub open spec fn touches_file(line: Seq<char>) -> bool {
    crate::text::starts_with(line, "*** Add File: "@) || crate::text::starts_with(line, "*** Update File: "@)
        || crate::text::starts_with(line, "*** Delete File: "@)
}

/// The number of patch lines that name a file they touch.
pub open spec fn files_touched(lines: Seq<Seq<char>>) -> nat
    decreases lines.len(),
{
    if lines.len() == 0 {
        0
    } else {
        files_touched(lines.drop_last()) + if touches_file(lines.last()) {
            1nat
        } else {
            0nat
        }
    }
}

/// Counts the patch lines that add, update or delete a file.
pub fn count_files_touched(hunks: &[String]) -> (n: usize)
    ensures
        n == files_touched(crate::text::string_views(hunks@)),
{
    let ghost hv = crate::text::string_views(hunks@);
    let mut n: usize = 0;
    let mut k: usize = 0;
    assert(hv.take(0) =~= Seq::<Seq<char>>::empty());
    while k < hunks.len()
        invariant
            k <= hunks@.len(),
            hv == crate::text::string_views(hunks@),
            n == files_touched(hv.take(k as int)),
            n <= k,
        decreases hunks@.len() - k,
    {
        assert(hv.take(k + 1).drop_last() =~= hv.take(k as int));
        assert(hv.take(k + 1).last() == hunks@[k as int]@);
        let v = chars_of(hunks[k].as_str());
        if line_starts_with(v.as_slice(), "*** Add File: ") || line_starts_with(v.as_slice(), "*** Update File: ")
            || line_starts_with(v.as_slice(), "*** Delete File: ") {
            n = n + 1;
        }
        k = k + 1;
    }
    assert(hv.take(hunks@.len() as int) =~= hv);
    n
}

} // verus!
