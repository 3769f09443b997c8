//! Parsing of a host inventory: one host per line, group headers in square
//! brackets, anything after the host name ignored.

use crate::filter::{filter_accepts, filter_usable, HostFilter};
use vstd::prelude::*;
use vstd::string::StrSliceExecFns;

verus! {

/// The characters that end a host name: those with the Unicode property
/// `White_Space`.
pub open spec fn is_whitespace(c: char) -> bool {
    let n = c as u32;
    ||| 0x09 <= n <= 0x0D
    ||| n == 0x20
    ||| n == 0x85
    ||| n == 0xA0
    ||| n == 0x1680
    ||| 0x2000 <= n <= 0x200A
    ||| n == 0x2028
    ||| n == 0x2029
    ||| n == 0x202F
    ||| n == 0x205F
    ||| n == 0x3000
}

/// Tells whether `c` ends a host name.
pub fn char_is_whitespace(c: char) -> (result: bool)
    ensures
        result == is_whitespace(c),
{
    let n: u32 = c as u32;
    (0x09 <= n && n <= 0x0D) || n == 0x20 || n == 0x85 || n == 0xA0 || n == 0x1680 || (0x2000 <= n
        && n <= 0x200A) || n == 0x2028 || n == 0x2029 || n == 0x202F || n == 0x205F || n == 0x3000
}

/// Number of characters of `line` before its first whitespace character.
pub open spec fn token_len(line: Seq<char>) -> nat
    decreases line.len(),
{
    if line.len() == 0 || is_whitespace(line.first()) {
        0
    } else {
        1 + token_len(line.drop_first())
    }
}

/// The host name of a line: everything before the first whitespace
/// character. A line that starts with whitespace names the empty host.
pub open spec fn first_token(line: Seq<char>) -> Seq<char> {
    line.take(token_len(line) as int)
}

/// `token_len` is the one position `k` such that no character before `k` is
/// whitespace and `k` is the end of the line or holds whitespace.
pub proof fn lemma_token_len_unique(line: Seq<char>, k: int)
    requires
        0 <= k <= line.len(),
        forall|j: int| 0 <= j < k ==> !is_whitespace(#[trigger] line[j]),
        k == line.len() || is_whitespace(line[k]),
    ensures
        token_len(line) == k,
    decreases line.len(),
{
    if k > 0 {
        let rest = line.drop_first();
        assert forall|j: int| 0 <= j < k - 1 implies !is_whitespace(#[trigger] rest[j]) by {
            assert(rest[j] == line[j + 1]);
        }
        lemma_token_len_unique(rest, k - 1);
    }
}

/// Cuts a line down to its host name.
pub fn host_name(line: &str) -> (result: String)
    ensures
        result@ == first_token(line@),
{
    let n = line.unicode_len();
    let mut k: usize = 0;
    while k < n && !char_is_whitespace(line.get_char(k))
        invariant
            n == line@.len(),
            k <= n,
            forall|j: int| 0 <= j < k ==> !is_whitespace(#[trigger] line@[j]),
        decreases n - k,
    {
        k = k + 1;
    }
    proof {
        lemma_token_len_unique(line@, k as int);
    }
    line.substring_char(0, k).to_owned()
}

/// The lines of a text: the pieces between its newline characters. A text
/// with `n` newlines has `n + 1` lines, some of them possibly empty.
pub open spec fn split_lines(text: Seq<char>) -> Seq<Seq<char>>
    decreases text.len(),
{
    if text.len() == 0 {
        seq![Seq::empty()]
    } else {
        let before = split_lines(text.drop_last());
        if text.last() == '\n' {
            before.push(Seq::empty())
        } else {
            before.drop_last().push(before.last().push(text.last()))
        }
    }
}

/// Whether a line has the shape of an entry: it is not empty and neither
/// opens with `[` nor closes with `]`, as the header of a group does.
pub open spec fn is_entry(line: Seq<char>) -> bool {
    &&& line.len() > 0
    &&& line.first() != '['
    &&& line.last() != ']'
}

/// Whether a line names a host: the filter lets it through and it has the
/// shape of an entry.
pub open spec fn is_host_line(pattern: Seq<char>, line: Seq<char>) -> bool {
    filter_accepts(pattern, line) && is_entry(line)
}

/// The host names of the host lines among `lines`, in order.
pub open spec fn hosts_of(pattern: Seq<char>, lines: Seq<Seq<char>>) -> Seq<Seq<char>>
    decreases lines.len(),
{
    if lines.len() == 0 {
        Seq::empty()
    } else {
        let before = hosts_of(pattern, lines.drop_last());
        if is_host_line(pattern, lines.last()) {
            before.push(first_token(lines.last()))
        } else {
            before
        }
    }
}

/// The hosts an inventory text names under a filter pattern.
pub open spec fn inventory_hosts(pattern: Seq<char>, text: Seq<char>) -> Seq<Seq<char>> {
    hosts_of(pattern, split_lines(text))
}

/// Lines put back together, with a newline between each two.
pub open spec fn join_lines(lines: Seq<Seq<char>>) -> Seq<char>
    decreases lines.len(),
{
    if lines.len() == 0 {
        Seq::empty()
    } else if lines.len() == 1 {
        lines[0]
    } else {
        join_lines(lines.drop_last()).push('\n') + lines.last()
    }
}

/// Splitting loses nothing and leaves no newline behind: a text has at
/// least one line, none of its lines holds a newline, and the lines joined
/// by newlines are the text again.
pub proof fn lemma_split_lines_exact(text: Seq<char>)
    ensures
        split_lines(text).len() >= 1,
        forall|i: int, j: int|
            0 <= i < split_lines(text).len() && 0 <= j < split_lines(text)[i].len()
                ==> #[trigger] split_lines(text)[i][j] != '\n',
        join_lines(split_lines(text)) == text,
    decreases text.len(),
{
    if text.len() == 0 {
        assert(join_lines(split_lines(text)) =~= text);
    } else {
        let shorter = text.drop_last();
        let before = split_lines(shorter);
        lemma_split_lines_exact(shorter);
        let lines = split_lines(text);
        if text.last() == '\n' {
            assert(lines.drop_last() =~= before);
            assert(join_lines(lines) =~= join_lines(before).push('\n') + Seq::<char>::empty());
            assert(join_lines(lines) =~= shorter.push('\n'));
            assert(shorter.push('\n') =~= text);
        } else {
            let grown = before.last().push(text.last());
            assert(lines =~= before.drop_last().push(grown));
            assert(lines.drop_last() =~= before.drop_last());
            if before.len() == 1 {
                assert(join_lines(before) == before[0]);
                assert(join_lines(lines) =~= shorter.push(text.last()));
            } else {
                assert(join_lines(before) == join_lines(before.drop_last()).push('\n')
                    + before.last());
                assert(join_lines(lines) =~= join_lines(before.drop_last()).push('\n') + grown);
                assert(join_lines(lines) =~= join_lines(before).push(text.last()));
            }
            assert(shorter.push(text.last()) =~= text);
            assert forall|i: int, j: int|
                0 <= i < lines.len() && 0 <= j < lines[i].len() implies #[trigger] lines[i][j]
                != '\n' by {
                if i < lines.len() - 1 {
                    assert(lines[i] == before[i]);
                } else if j < before.last().len() {
                    assert(lines[i][j] == before[before.len() - 1][j]);
                }
            }
        }
    }
}

/// Every host that comes out of an inventory is the host name of one of its
/// lines, and that line is a host line: the filter matches it, it is not
/// empty, it does not open with `[` and it does not close with `]`.
pub proof fn lemma_host_has_source(pattern: Seq<char>, lines: Seq<Seq<char>>, i: int) -> (j: int)
    requires
        0 <= i < hosts_of(pattern, lines).len(),
    ensures
        0 <= j < lines.len(),
        is_host_line(pattern, lines[j]),
        hosts_of(pattern, lines)[i] == first_token(lines[j]),
    decreases lines.len(),
{
    let before = hosts_of(pattern, lines.drop_last());
    if i < before.len() {
        lemma_host_has_source(pattern, lines.drop_last(), i)
    } else {
        lines.len() - 1
    }
}

/// Every host line of an inventory gives a host, and the hosts stand in the
/// order of their lines: the hosts are the host lines, each cut down to its
/// host name.
pub proof fn lemma_hosts_are_host_lines(pattern: Seq<char>, lines: Seq<Seq<char>>)
    ensures
        hosts_of(pattern, lines) == lines.filter(
            |line: Seq<char>| is_host_line(pattern, line),
        ).map_values(|line: Seq<char>| first_token(line)),
    decreases lines.len(),
{
    reveal(Seq::filter);
    let keep = |line: Seq<char>| is_host_line(pattern, line);
    let name = |line: Seq<char>| first_token(line);
    if lines.len() > 0 {
        lemma_hosts_are_host_lines(pattern, lines.drop_last());
        let kept = lines.drop_last().filter(keep);
        if keep(lines.last()) {
            assert(kept.push(lines.last()).map_values(name) =~= kept.map_values(name).push(
                name(lines.last()),
            ));
        }
    }
    assert(hosts_of(pattern, lines) =~= lines.filter(keep).map_values(name));
}

/// A host name holds no whitespace and is a prefix of its line.
pub proof fn lemma_first_token_shape(line: Seq<char>)
    ensures
        first_token(line).is_prefix_of(line),
        forall|j: int|
            0 <= j < first_token(line).len() ==> !is_whitespace(#[trigger] first_token(line)[j]),
        first_token(line).len() == line.len() || is_whitespace(
            line[first_token(line).len() as int],
        ),
    decreases line.len(),
{
    if line.len() == 0 || is_whitespace(line.first()) {
    } else {
        let rest = line.drop_first();
        lemma_first_token_shape(rest);
        lemma_token_len_bound(line);
        lemma_token_len_bound(rest);
        assert forall|j: int| 0 <= j < first_token(line).len() implies !is_whitespace(
            #[trigger] first_token(line)[j],
        ) by {
            if j > 0 {
                assert(first_token(line)[j] == first_token(rest)[j - 1]);
            }
        }
        if first_token(line).len() != line.len() {
            assert(line[first_token(line).len() as int] == rest[first_token(rest).len() as int]);
        }
    }
}

/// A host name is no longer than its line.
pub proof fn lemma_token_len_bound(line: Seq<char>)
    ensures
        token_len(line) <= line.len(),
    decreases line.len(),
{
    if line.len() == 0 || is_whitespace(line.first()) {
    } else {
        lemma_token_len_bound(line.drop_first());
    }
}

/// The character sequences held by a list of strings.
pub open spec fn texts(lines: Seq<String>) -> Seq<Seq<char>> {
    lines.map_values(|s: String| s@)
}

/// Decides whether a line is kept, given what the filter said of it.
pub fn keeps_line(matched: bool, line: &str) -> (result: bool)
    ensures
        result == (matched && is_entry(line@)),
{
    let n = line.unicode_len();
    matched && n > 0 && line.get_char(0) != '[' && line.get_char(n - 1) != ']'
}

/// Tells whether `line` names a host under the compiled filter.
pub fn names_host(filter: &HostFilter, line: &str) -> (result: bool)
    ensures
        result == is_host_line(filter@, line@),
{
    let matched = filter.is_match(line);
    keeps_line(matched, line)
}

/// Reads the hosts out of an inventory text with a compiled filter.
pub fn hosts_with_filter(filter: &HostFilter, text: &str) -> (hosts: Vec<String>)
    ensures
        texts(hosts@) == inventory_hosts(filter@, text@),
{
    let ghost pattern = filter@;
    let n = text.unicode_len();
    let mut hosts: Vec<String> = Vec::new();
    let mut start: usize = 0;
    let mut i: usize = 0;
    let ghost mut done: Seq<Seq<char>> = Seq::empty();
    assert(text@.take(0) =~= Seq::empty());
    assert(text@.subrange(0, 0) =~= Seq::empty());
    assert(split_lines(text@.take(0)) =~= done.push(text@.subrange(0, 0)));
    assert(texts(hosts@) =~= hosts_of(pattern, done));
    for c in it: text.chars()
        invariant
            pattern == filter@,
            n == text@.len(),
            it.seq() == text@,
            i == it.index(),
            start <= i <= n,
            split_lines(text@.take(i as int)) == done.push(text@.subrange(start as int, i as int)),
            texts(hosts@) == hosts_of(pattern, done),
    {
        let ghost cur = text@.subrange(start as int, i as int);
        proof {
            let upto = text@.take(i + 1);
            assert(upto.drop_last() =~= text@.take(i as int));
            assert(upto.last() == c);
            assert(done.push(cur).drop_last() =~= done);
            assert(cur.push(c) =~= text@.subrange(start as int, i + 1));
        }
        if c == '\n' {
            let line = text.substring_char(start, i);
            if names_host(filter, line) {
                let name = host_name(line);
                proof {
                    assert(texts(hosts@.push(name)) =~= texts(hosts@).push(name@));
                }
                hosts.push(name);
            }
            proof {
                done = done.push(cur);
                assert(text@.subrange(i + 1, i + 1) =~= Seq::empty());
            }
            start = i + 1;
        }
        i = i + 1;
    }
    let line = text.substring_char(start, n);
    proof {
        assert(text@.take(n as int) =~= text@);
        assert(done.push(line@).drop_last() =~= done);
    }
    if names_host(filter, line) {
        let name = host_name(line);
        proof {
            assert(texts(hosts@.push(name)) =~= texts(hosts@).push(name@));
        }
        hosts.push(name);
    }
    hosts
}

/// Why an inventory text could not be read.
#[derive(Clone, Copy, Debug, PartialEq, Eq, Structural)]
pub enum InventoryError {
    /// The filter text is not a regular expression that can be compiled.
    InvalidFilter,
}

/// Reads the hosts out of an inventory text, keeping the lines in which the
/// filter finds a match.
pub fn parse_inventory(text: &str, filter_content: &str) -> (result: Result<
    Vec<String>,
    InventoryError,
>)
    ensures
        filter_usable(filter_content@) ==> result is Ok && texts(result->Ok_0@)
            == inventory_hosts(filter_content@, text@),
        !filter_usable(filter_content@) ==> result == Err::<Vec<String>, InventoryError>(
            InventoryError::InvalidFilter,
        ),
{
    match HostFilter::new(filter_content) {
        Ok(filter) => Ok(hosts_with_filter(&filter, text)),
        Err(error) => Err(error),
    }
}

} // verus!
