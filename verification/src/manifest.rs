//! The image-directory manifest: a mapping from catalog-relative directory
//! to the representative image file within it, parsed from a flat text file
//! with one path per line.

use vstd::prelude::*;
use vstd::string::*;

use crate::paths::relative_path;
use crate::paths::relative_to_known_prefix;
use crate::text::str_eq;

verus! {

/// A line with a trailing carriage return removed.
pub open spec fn strip_cr(line: Seq<char>) -> Seq<char> {
    if line.len() > 0 && line.last() == '\r' {
        line.drop_last()
    } else {
        line
    }
}

/// The lines of `text` from position `cur` on, the current line having
/// started at `start`.  Lines are separated by newlines, a trailing
/// carriage return is removed, and a final line without a newline counts
/// when it is not empty.
pub open spec fn lines_from(text: Seq<char>, start: int, cur: int) -> Seq<Seq<char>>
    recommends
        0 <= start <= cur <= text.len(),
    decreases text.len() - cur,
{
    if cur < 0 || cur >= text.len() {
        if start < text.len() {
            seq![strip_cr(text.subrange(start, text.len() as int))]
        } else {
            Seq::empty()
        }
    } else if text[cur] == '\n' {
        seq![strip_cr(text.subrange(start, cur))] + lines_from(text, cur + 1, cur + 1)
    } else {
        lines_from(text, start, cur + 1)
    }
}

/// All lines of a manifest file's text.
pub open spec fn split_lines(text: Seq<char>) -> Seq<Seq<char>> {
    lines_from(text, 0, 0)
}

/// The directory/filename entry one manifest line contributes: a known
/// absolute prefix is stripped when one matches, and the rest splits at
/// its last slash; a line without a slash contributes nothing.
pub open spec fn manifest_line_entry(line: Seq<char>) -> Option<(Seq<char>, Seq<char>)> {
    let stripped = match relative_to_known_prefix(line) {
        Some(rest) => rest,
        None => line,
    };
    match stripped.index_of_last('/') {
        Some(i) => Some(
            (stripped.subrange(0, i), stripped.subrange(i + 1, stripped.len() as int)),
        ),
        None => None,
    }
}

/// One line folded into the mapping: the first filename seen for a
/// directory is kept, and later ones are ignored.
pub open spec fn line_step(m: Map<Seq<char>, Seq<char>>, line: Seq<char>) -> Map<
    Seq<char>,
    Seq<char>,
> {
    match manifest_line_entry(line) {
        Some(entry) => if m.dom().contains(entry.0) {
            m
        } else {
            m.insert(entry.0, entry.1)
        },
        None => m,
    }
}

/// The lines folded into `m`, first line first.
pub open spec fn map_from_lines(
    lines: Seq<Seq<char>>,
    m: Map<Seq<char>, Seq<char>>,
) -> Map<Seq<char>, Seq<char>>
    decreases lines.len(),
{
    if lines.len() == 0 {
        m
    } else {
        map_from_lines(lines.drop_first(), line_step(m, lines.first()))
    }
}

/// The mapping a manifest file's text parses to.
pub open spec fn file_list_map(text: Seq<char>) -> Map<Seq<char>, Seq<char>> {
    map_from_lines(split_lines(text), Map::empty())
}

/// The image-directory manifest, replaced wholesale on each successful
/// refresh.
#[derive(Debug, PartialEq, Eq)]
pub struct Manifest {
    entries: Vec<(String, String)>,
}

/// The mapping a sequence of entry pairs stands for.
spec fn entries_map(s: Seq<(String, String)>) -> Map<Seq<char>, Seq<char>>
    decreases s.len(),
{
    if s.len() == 0 {
        Map::empty()
    } else {
        entries_map(s.drop_last()).insert(s.last().0@, s.last().1@)
    }
}

/// Entry keys are pairwise distinct.
spec fn distinct_keys(s: Seq<(String, String)>) -> bool {
    forall|i: int, j: int| 0 <= i < j < s.len() ==> s[i].0@ != s[j].0@
}

impl View for Manifest {
    type V = Map<Seq<char>, Seq<char>>;

    closed spec fn view(&self) -> Map<Seq<char>, Seq<char>> {
        entries_map(self.entries@)
    }
}

impl Manifest {
    #[verifier::type_invariant]
    closed spec fn wf(self) -> bool {
        distinct_keys(self.entries@)
    }

    /// An empty manifest.
    pub fn new() -> (m: Manifest)
        ensures
            m@ == Map::<Seq<char>, Seq<char>>::empty(),
    {
        Manifest { entries: Vec::new() }
    }

    /// The image file name recorded for a directory.
    pub fn lookup(&self, dir: &str) -> (r: Option<&String>)
        ensures
            match r {
                Some(file) => self@.dom().contains(dir@) && file@ == self@[dir@],
                None => !self@.dom().contains(dir@),
            },
    {
        proof {
            use_type_invariant(self);
        }
        match find_entry(&self.entries, dir) {
            Some(i) => {
                proof {
                    lemma_entries_map_value(self.entries@, i as int);
                }
                Some(&self.entries[i].1)
            },
            None => {
                proof {
                    lemma_entries_map_contains(self.entries@, dir@);
                }
                None
            },
        }
    }

    /// How many directories the manifest maps.
    pub fn len(&self) -> (n: usize)
        ensures
            n == self@.dom().len(),
    {
        proof {
            use_type_invariant(self);
            lemma_entries_map_len(self.entries@);
        }
        self.entries.len()
    }
}

fn find_entry(entries: &Vec<(String, String)>, dir: &str) -> (r: Option<usize>)
    ensures
        match r {
            Some(i) => i < entries@.len() && entries@[i as int].0@ == dir@,
            None => forall|i: int| 0 <= i < entries@.len() ==> entries@[i].0@ != dir@,
        },
{
    let mut i: usize = 0;
    while i < entries.len()
        invariant
            i <= entries@.len(),
            forall|j: int| 0 <= j < i ==> entries@[j].0@ != dir@,
        decreases entries@.len() - i,
    {
        if str_eq(entries[i].0.as_str(), dir) {
            return Some(i);
        }
        i += 1;
    }
    None
}

/// Whether a key occurs among the entry pairs.
proof fn lemma_entries_map_contains(s: Seq<(String, String)>, k: Seq<char>)
    ensures
        entries_map(s).dom().contains(k) <==> exists|i: int| 0 <= i < s.len() && s[i].0@ == k,
    decreases s.len(),
{
    if s.len() > 0 {
        let rest = s.drop_last();
        lemma_entries_map_contains(rest, k);
        if entries_map(s).dom().contains(k) {
            if k == s.last().0@ {
                assert(s[s.len() - 1].0@ == k);
            } else {
                let i = choose|i: int| 0 <= i < rest.len() && rest[i].0@ == k;
                assert(s[i].0@ == k);
            }
        }
        if exists|i: int| 0 <= i < s.len() && s[i].0@ == k {
            let i = choose|i: int| 0 <= i < s.len() && s[i].0@ == k;
            if i < s.len() - 1 {
                assert(rest[i].0@ == k);
            }
        }
    }
}

/// With distinct keys, each entry pair is found in the mapping.
proof fn lemma_entries_map_value(s: Seq<(String, String)>, i: int)
    requires
        distinct_keys(s),
        0 <= i < s.len(),
    ensures
        entries_map(s).dom().contains(s[i].0@),
        entries_map(s)[s[i].0@] == s[i].1@,
    decreases s.len(),
{
    let rest = s.drop_last();
    if i < s.len() - 1 {
        assert(distinct_keys(rest)) by {
            assert(forall|a: int, b: int|
                0 <= a < b < rest.len() ==> rest[a].0@ == s[a].0@ && rest[b].0@ == s[b].0@);
        }
        lemma_entries_map_value(rest, i);
        assert(s.last().0@ != s[i].0@);
    }
}

/// With distinct keys, the mapping has exactly one member per entry pair.
proof fn lemma_entries_map_len(s: Seq<(String, String)>)
    requires
        distinct_keys(s),
    ensures
        entries_map(s).dom().finite(),
        entries_map(s).dom().len() == s.len(),
    decreases s.len(),
{
    if s.len() > 0 {
        let rest = s.drop_last();
        assert(distinct_keys(rest)) by {
            assert(forall|a: int, b: int|
                0 <= a < b < rest.len() ==> rest[a].0@ == s[a].0@ && rest[b].0@ == s[b].0@);
        }
        lemma_entries_map_len(rest);
        lemma_entries_map_contains(rest, s.last().0@);
        assert(!entries_map(rest).dom().contains(s.last().0@)) by {
            if exists|i: int| 0 <= i < rest.len() && rest[i].0@ == s.last().0@ {
                let i = choose|i: int| 0 <= i < rest.len() && rest[i].0@ == s.last().0@;
                assert(s[i].0@ == s[s.len() - 1].0@);
            }
        }
    }
}

fn insert_line(entries: &mut Vec<(String, String)>, line: &str)
    requires
        distinct_keys(old(entries)@),
    ensures
        distinct_keys(final(entries)@),
        entries_map(final(entries)@) == line_step(entries_map(old(entries)@), line@),
{
    let stripped: &str = match relative_path(line) {
        Some(rest) => rest,
        None => line,
    };
    proof {
        stripped@.index_of_last_ensures('/');
    }
    let len = stripped.unicode_len();
    let pos = match crate::text::rfind_char(stripped, '/') {
        Some(p) => p,
        None => {
            return;
        },
    };
    let dir = stripped.substring_char(0, pos);
    let file = stripped.substring_char(pos + 1, len);
    match find_entry(entries, dir) {
        Some(_) => {
            proof {
                lemma_entries_map_contains(entries@, dir@);
            }
        },
        None => {
            proof {
                lemma_entries_map_contains(entries@, dir@);
            }
            let ghost old_entries = entries@;
            entries.push((dir.to_owned(), file.to_owned()));
            proof {
                assert(entries@.drop_last() =~= old_entries);
                assert(entries_map(entries@) == entries_map(old_entries).insert(dir@, file@));
            }
        },
    }
}

/// Parses a manifest file's text: one path per line, the part after the
/// last slash being the filename and the part before it (less a known
/// absolute prefix) the directory; the first filename seen per directory
/// wins.
pub fn parse_file_list(text: &str) -> (m: Manifest)
    ensures
        m@ == file_list_map(text@),
{
    let len = text.unicode_len();
    let mut entries: Vec<(String, String)> = Vec::new();
    let mut start: usize = 0;
    let mut cur: usize = 0;
    while cur < len
        invariant
            start <= cur <= len,
            len == text@.len(),
            distinct_keys(entries@),
            file_list_map(text@) == map_from_lines(
                lines_from(text@, start as int, cur as int),
                entries_map(entries@),
            ),
        decreases len - cur,
    {
        let c = text.get_char(cur);
        if c == '\n' {
            let line = if cur > start && text.get_char(cur - 1) == '\r' {
                text.substring_char(start, cur - 1)
            } else {
                text.substring_char(start, cur)
            };
            proof {
                if cur > start && text@[cur - 1] == '\r' {
                    assert(text@.subrange(start as int, cur as int).last() == text@[cur - 1]);
                    assert(text@.subrange(start as int, cur - 1) =~= text@.subrange(
                        start as int,
                        cur as int,
                    ).drop_last());
                }
                assert(line@ == strip_cr(text@.subrange(start as int, cur as int)));
                lemma_map_from_lines_cons(
                    line@,
                    lines_from(text@, cur + 1, cur + 1),
                    entries_map(entries@),
                );
            }
            insert_line(&mut entries, line);
            start = cur + 1;
        }
        cur = cur + 1;
    }
    if start < len {
        let line = if text.get_char(len - 1) == '\r' {
            text.substring_char(start, len - 1)
        } else {
            text.substring_char(start, len)
        };
        proof {
            if text@[len - 1] == '\r' {
                assert(text@.subrange(start as int, len as int).last() == text@[len - 1]);
                assert(text@.subrange(start as int, len - 1) =~= text@.subrange(
                    start as int,
                    len as int,
                ).drop_last());
            }
            assert(line@ == strip_cr(text@.subrange(start as int, len as int)));
            assert(lines_from(text@, start as int, len as int) =~= seq![line@]);
            lemma_map_from_lines_cons(line@, Seq::empty(), entries_map(entries@));
            assert(seq![line@] + Seq::<Seq<char>>::empty() =~= seq![line@]);
        }
        insert_line(&mut entries, line);
    }
    Manifest { entries }
}

proof fn lemma_map_from_lines_cons(
    line: Seq<char>,
    rest: Seq<Seq<char>>,
    m: Map<Seq<char>, Seq<char>>,
)
    ensures
        map_from_lines(seq![line] + rest, m) == map_from_lines(rest, line_step(m, line)),
{
    let all = seq![line] + rest;
    assert(all.len() == 1 + rest.len());
    assert(all.first() == line);
    assert(all.drop_first() =~= rest);
}

/// Parsing is a pure function of the file's text: two parses of the same
/// text yield an identical mapping.
pub proof fn lemma_parse_deterministic(
    text: Seq<char>,
    m1: Map<Seq<char>, Seq<char>>,
    m2: Map<Seq<char>, Seq<char>>,
)
    requires
        m1 == file_list_map(text),
        m2 == file_list_map(text),
    ensures
        m1 == m2,
{
}

/// A directory already mapped keeps its filename through any further lines.
proof fn lemma_fold_keeps(lines: Seq<Seq<char>>, m: Map<Seq<char>, Seq<char>>, d: Seq<char>)
    requires
        m.dom().contains(d),
    ensures
        map_from_lines(lines, m).dom().contains(d),
        map_from_lines(lines, m)[d] == m[d],
    decreases lines.len(),
{
    if lines.len() > 0 {
        lemma_fold_keeps(lines.drop_first(), line_step(m, lines.first()), d);
    }
}

proof fn lemma_fold_first_wins(
    lines: Seq<Seq<char>>,
    m: Map<Seq<char>, Seq<char>>,
    i: int,
    d: Seq<char>,
    f: Seq<char>,
)
    requires
        0 <= i < lines.len(),
        manifest_line_entry(lines[i]) == Some((d, f)),
        forall|j: int|
            0 <= j < i ==> (match #[trigger] manifest_line_entry(lines[j]) {
                Some(entry) => entry.0 != d,
                None => true,
            }),
        !m.dom().contains(d),
    ensures
        map_from_lines(lines, m).dom().contains(d),
        map_from_lines(lines, m)[d] == f,
    decreases lines.len(),
{
    let m2 = line_step(m, lines.first());
    if i == 0 {
        lemma_fold_keeps(lines.drop_first(), m2, d);
    } else {
        assert(lines.first() == lines[0]);
        assert(!m2.dom().contains(d));
        assert(lines.drop_first()[i - 1] == lines[i]);
        assert(forall|j: int|
            0 <= j < i - 1 ==> (match #[trigger] manifest_line_entry(lines.drop_first()[j]) {
                Some(entry) => entry.0 != d,
                None => true,
            })) by {
            assert(forall|j: int| 0 <= j < i - 1 ==> lines.drop_first()[j] == lines[j + 1]);
        }
        lemma_fold_first_wins(lines.drop_first(), m2, i - 1, d, f);
    }
}

/// Of several manifest lines naming one directory, the first line's
/// filename is the one the mapping keeps; later ones are ignored.
pub proof fn lemma_first_filename_wins(text: Seq<char>, i: int, d: Seq<char>, f: Seq<char>)
    requires
        0 <= i < split_lines(text).len(),
        manifest_line_entry(split_lines(text)[i]) == Some((d, f)),
        forall|j: int|
            0 <= j < i ==> (match #[trigger] manifest_line_entry(split_lines(text)[j]) {
                Some(entry) => entry.0 != d,
                None => true,
            }),
    ensures
        file_list_map(text).dom().contains(d),
        file_list_map(text)[d] == f,
{
    lemma_fold_first_wins(split_lines(text), Map::empty(), i, d, f);
}

} // verus!
