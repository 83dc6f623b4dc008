//! The `fish` command: which processes use a port, read from two listings
//! of the open sockets (one process id per line, one address pair per line).

use vstd::prelude::*;
use vstd::string::*;
use crate::table::{append_number, append_padded, spec_pad};
use crate::text::{chars_of, decimal_digits, parse_unsigned, spec_parse_unsigned};
use crate::COLUMN_WIDTH;

verus! {

/// What `fish` was asked to do.
#[derive(Debug)]
pub struct Options {
    /// Port to scan.
    pub ports: String,
}

/// Width of the two address columns of the report.
pub const ADDRESS_WIDTH: usize = 50;

/// The filter that selects the sockets on the ports asked for: a colon, then
/// the ports.
pub fn socket_filter(options: &Options) -> (filter: String)
    ensures
        filter@ == seq![':'] + options.ports@,
{
    proof {
        reveal_strlit(":");
    }
    let mut filter = String::from_str(":");
    filter.append(options.ports.as_str());
    assert(filter@ =~= seq![':'] + options.ports@);
    filter
}

/// The lines of `s`: what stands between its line feeds. A text without a
/// line feed is one line; a text that ends in one has an empty last line.
pub open spec fn spec_lines(s: Seq<char>) -> Seq<Seq<char>>
    decreases s.len(),
{
    if s.len() == 0 {
        seq![Seq::<char>::empty()]
    } else {
        let before = spec_lines(s.drop_last());
        if s.last() == '\n' {
            before.push(Seq::<char>::empty())
        } else {
            before.drop_last().push(before.last().push(s.last()))
        }
    }
}

/// Index of the first `->` in `s`, or the length of `s` if there is none.
pub open spec fn first_arrow(s: Seq<char>) -> int
    decreases s.len(),
{
    if s.len() < 2 {
        s.len() as int
    } else if s[0] == '-' && s[1] == '>' {
        0
    } else {
        1 + first_arrow(s.drop_first())
    }
}

/// True when `->` stands at index `i` of `s`.
pub open spec fn arrow_at(s: Seq<char>, i: int) -> bool {
    0 <= i && i + 1 < s.len() && s[i] == '-' && s[i + 1] == '>'
}

/// An index is the first arrow exactly when none stands before it.
pub proof fn lemma_first_arrow(s: Seq<char>, i: int)
    requires
        0 <= i <= s.len(),
        forall|j: int| 0 <= j < i ==> !arrow_at(s, j),
        i < s.len() ==> arrow_at(s, i),
    ensures
        first_arrow(s) == i,
    decreases s.len(),
{
    if s.len() >= 2 && i > 0 {
        let t = s.drop_first();
        assert(!arrow_at(s, 0));
        assert forall|j: int| 0 <= j < i - 1 implies !arrow_at(t, j) by {
            assert(!arrow_at(s, j + 1));
        }
        if i < s.len() {
            assert(arrow_at(s, i));
            assert(arrow_at(t, i - 1));
        }
        lemma_first_arrow(t, i - 1);
    } else if s.len() == 1 {
        assert(!arrow_at(s, 0));
    }
}

/// The source and the destination that a line `source->destination` names.
/// The source is what stands before the first `->`; the destination is what
/// follows it, up to the next `->` if there is one. A line without `->` is
/// all source, and its destination is empty.
pub open spec fn spec_split_pair(line: Seq<char>) -> (Seq<char>, Seq<char>) {
    let i = first_arrow(line);
    if i >= line.len() {
        (line, Seq::<char>::empty())
    } else {
        let rest = line.skip(i + 2);
        (line.take(i), rest.take(first_arrow(rest)))
    }
}

/// The process id that a line writes: the unsigned number it holds, or zero
/// if it holds none that fits 32 bits.
pub open spec fn spec_parse_pid(line: Seq<char>) -> u32 {
    match spec_parse_unsigned(line, u32::MAX as nat) {
        Some(pid) => pid,
        None => 0,
    }
}

/// One line of the listings: a process and the address pair of a socket
/// that it holds.
#[derive(Debug, Clone, Copy, PartialEq, Eq)]
pub struct PortUse<'a> {
    pub pid: u32,
    pub source: &'a str,
    pub destination: &'a str,
}

/// What a `PortUse` holds.
pub struct PortUseView {
    pub pid: u32,
    pub source: Seq<char>,
    pub destination: Seq<char>,
}

impl<'a> View for PortUse<'a> {
    type V = PortUseView;

    open spec fn view(&self) -> PortUseView {
        PortUseView { pid: self.pid, source: self.source@, destination: self.destination@ }
    }
}

/// What `pid_line` and `pair_line`, taken together, say.
pub open spec fn spec_port_use(pid_line: Seq<char>, pair_line: Seq<char>) -> PortUseView {
    PortUseView {
        pid: spec_parse_pid(pid_line),
        source: spec_split_pair(pair_line).0,
        destination: spec_split_pair(pair_line).1,
    }
}

/// The lines of `text`.
pub fn split_lines<'a>(text: &'a str) -> (lines: Vec<&'a str>)
    ensures
        lines@.len() == spec_lines(text@).len(),
        forall|k: int| 0 <= k < lines@.len() ==> (#[trigger] lines@[k])@ == spec_lines(text@)[k],
{
    let chars = chars_of(text);
    let mut lines: Vec<&'a str> = Vec::new();
    let mut start: usize = 0;
    let mut i: usize = 0;
    assert(text@.take(0) =~= Seq::<char>::empty());
    assert(text@.subrange(0, 0) =~= Seq::<char>::empty());
    while i < chars.len()
        invariant
            chars@ == text@,
            0 <= start <= i <= chars.len(),
            spec_lines(text@.take(i as int)).len() == lines@.len() + 1,
            forall|k: int|
                0 <= k < lines@.len() ==> (#[trigger] lines@[k])@ == spec_lines(
                    text@.take(i as int),
                )[k],
            spec_lines(text@.take(i as int)).last() == text@.subrange(start as int, i as int),
        decreases chars.len() - i,
    {
        let ghost before = spec_lines(text@.take(i as int));
        proof {
            let q = text@.take(i + 1);
            assert(q.drop_last() =~= text@.take(i as int));
            assert(q.last() == text@[i as int]);
        }
        if chars[i] == '\n' {
            lines.push(text.substring_char(start, i));
            start = i + 1;
            assert(text@.subrange(start as int, i + 1) =~= Seq::<char>::empty());
        } else {
            assert(text@.subrange(start as int, i + 1) =~= text@.subrange(
                start as int,
                i as int,
            ).push(text@[i as int]));
        }
        i += 1;
    }
    assert(text@.take(i as int) =~= text@);
    lines.push(text.substring_char(start, i));
    lines
}

/// The process id that `line` writes, zero if it writes none.
pub fn parse_pid(line: &str) -> (pid: u32)
    ensures
        pid == spec_parse_pid(line@),
{
    let chars = chars_of(line);
    match parse_unsigned(chars.as_slice(), u32::MAX) {
        Some(pid) => pid,
        None => 0,
    }
}

/// Position of the first `->` in `s`; the length of `s` if there is none.
fn find_arrow(s: &[char]) -> (i: usize)
    ensures
        i == first_arrow(s@),
        i <= s.len(),
        i < s.len() ==> i + 1 < s.len(),
{
    let mut i: usize = 0;
    while i < s.len()
        invariant
            0 <= i <= s.len(),
            forall|j: int| 0 <= j < i ==> !arrow_at(s@, j),
        decreases s.len() - i,
    {
        if s[i] == '-' && i + 1 < s.len() && s[i + 1] == '>' {
            proof {
                lemma_first_arrow(s@, i as int);
            }
            return i;
        }
        assert(!arrow_at(s@, i as int));
        i += 1;
    }
    proof {
        lemma_first_arrow(s@, i as int);
    }
    i
}

/// The source and the destination that `line` names.
pub fn split_pair<'a>(line: &'a str) -> (pair: (&'a str, &'a str))
    ensures
        pair.0@ == spec_split_pair(line@).0,
        pair.1@ == spec_split_pair(line@).1,
{
    let chars = chars_of(line);
    let s = chars.as_slice();
    let i = find_arrow(s);
    if i >= s.len() {
        let source = line.substring_char(0, s.len());
        let destination = line.substring_char(0, 0);
        assert(source@ =~= line@);
        assert(destination@ =~= Seq::<char>::empty());
        return (source, destination);
    }
    let rest = vstd::slice::slice_subrange(s, i + 2, s.len());
    assert(rest@ =~= line@.skip(i + 2));
    let j = find_arrow(rest);
    let source = line.substring_char(0, i);
    let destination = line.substring_char(i + 2, i + 2 + j);
    assert(source@ =~= line@.take(i as int));
    assert(destination@ =~= line@.skip(i + 2).take(j as int));
    (source, destination)
}

/// Reads the two listings side by side: line `k` of `pid_text` gives the
/// process and line `k` of `pair_text` its address pair. The pair listing
/// must have a line for every line of the process listing.
pub fn port_uses<'a>(pid_text: &str, pair_text: &'a str) -> (uses: Vec<PortUse<'a>>)
    requires
        spec_lines(pair_text@).len() >= spec_lines(pid_text@).len(),
    ensures
        uses@.len() == spec_lines(pid_text@).len(),
        forall|k: int|
            0 <= k < uses@.len() ==> (#[trigger] uses@[k])@ == spec_port_use(
                spec_lines(pid_text@)[k],
                spec_lines(pair_text@)[k],
            ),
{
    let pid_lines = split_lines(pid_text);
    let pair_lines = split_lines(pair_text);
    let mut uses: Vec<PortUse<'a>> = Vec::new();
    let mut k: usize = 0;
    while k < pid_lines.len()
        invariant
            0 <= k <= pid_lines@.len(),
            pid_lines@.len() == spec_lines(pid_text@).len(),
            pair_lines@.len() == spec_lines(pair_text@).len(),
            pair_lines@.len() >= pid_lines@.len(),
            forall|j: int|
                0 <= j < pid_lines@.len() ==> (#[trigger] pid_lines@[j])@ == spec_lines(
                    pid_text@,
                )[j],
            forall|j: int|
                0 <= j < pair_lines@.len() ==> (#[trigger] pair_lines@[j])@ == spec_lines(
                    pair_text@,
                )[j],
            uses@.len() == k,
            forall|j: int|
                0 <= j < k ==> (#[trigger] uses@[j])@ == spec_port_use(
                    spec_lines(pid_text@)[j],
                    spec_lines(pair_text@)[j],
                ),
        decreases pid_lines@.len() - k,
    {
        let pid = parse_pid(pid_lines[k]);
        let (source, destination) = split_pair(pair_lines[k]);
        uses.push(PortUse { pid, source, destination });
        k += 1;
    }
    uses
}

/// True when a listing has at least as many lines as another: the
/// condition under which `port_uses` reads `pid_text` beside `pair_text`.
pub fn has_line_for_each(pid_text: &str, pair_text: &str) -> (ok: bool)
    ensures
        ok == (spec_lines(pair_text@).len() >= spec_lines(pid_text@).len()),
{
    split_lines(pair_text).len() >= split_lines(pid_text).len()
}

/// The rows of `rows` that belong to process `pid`, in their order.
pub open spec fn rows_of<T>(rows: Seq<(u32, T)>, pid: u32) -> Seq<(u32, T)>
    decreases rows.len(),
{
    if rows.len() == 0 {
        rows
    } else if rows.last().0 == pid {
        rows_of(rows.drop_last(), pid).push(rows.last())
    } else {
        rows_of(rows.drop_last(), pid)
    }
}

/// The processes of `rows`, each once, in the order in which they first
/// appear.
pub open spec fn first_seen<T>(rows: Seq<(u32, T)>) -> Seq<u32>
    decreases rows.len(),
{
    if rows.len() == 0 {
        Seq::<u32>::empty()
    } else {
        let before = first_seen(rows.drop_last());
        if before.contains(rows.last().0) {
            before
        } else {
            before.push(rows.last().0)
        }
    }
}

/// The rows of the processes `pids`, process by process; rows of process
/// zero, which stands for a line that named no process, are left out.
pub open spec fn rows_by_process<T>(rows: Seq<(u32, T)>, pids: Seq<u32>) -> Seq<(u32, T)>
    decreases pids.len(),
{
    if pids.len() == 0 {
        Seq::<(u32, T)>::empty()
    } else if pids.last() == 0 {
        rows_by_process(rows, pids.drop_last())
    } else {
        rows_by_process(rows, pids.drop_last()) + rows_of(rows, pids.last())
    }
}

/// The report: the rows grouped by process, the processes in the order in
/// which they first appear, the rows of one process in their order, and no
/// row of process zero.
pub open spec fn spec_report<T>(rows: Seq<(u32, T)>) -> Seq<(u32, T)> {
    rows_by_process(rows, first_seen(rows))
}

/// The rows of a process in `a` followed by `b` are its rows in `a` followed
/// by its rows in `b`.
pub proof fn lemma_rows_of_concat<T>(a: Seq<(u32, T)>, b: Seq<(u32, T)>, pid: u32)
    ensures
        rows_of(a + b, pid) == rows_of(a, pid) + rows_of(b, pid),
    decreases b.len(),
{
    if b.len() == 0 {
        assert(a + b =~= a);
        assert(rows_of(a, pid) + rows_of(b, pid) =~= rows_of(a, pid));
    } else {
        assert((a + b).drop_last() =~= a + b.drop_last());
        assert((a + b).last() == b.last());
        lemma_rows_of_concat(a, b.drop_last(), pid);
        if b.last().0 == pid {
            assert(rows_of(a, pid) + rows_of(b.drop_last(), pid).push(b.last()) =~= (rows_of(
                a,
                pid,
            ) + rows_of(b.drop_last(), pid)).push(b.last()));
        }
    }
}

/// Among the rows of one process, the rows of that process are all of them
/// and the rows of any other process are none.
pub proof fn lemma_rows_of_rows_of<T>(rows: Seq<(u32, T)>, of: u32, pid: u32)
    ensures
        rows_of(rows_of(rows, of), pid) == if pid == of {
            rows_of(rows, of)
        } else {
            Seq::<(u32, T)>::empty()
        },
    decreases rows.len(),
{
    if rows.len() > 0 {
        lemma_rows_of_rows_of(rows.drop_last(), of, pid);
        if rows.last().0 == of {
            let before = rows_of(rows.drop_last(), of);
            assert(before.push(rows.last()).drop_last() =~= before);
        }
    }
}

/// True when some row of `rows` belongs to process `pid`.
pub open spec fn occurs<T>(rows: Seq<(u32, T)>, pid: u32) -> bool {
    exists|i: int| 0 <= i < rows.len() && (#[trigger] rows[i]).0 == pid
}

/// `first_seen` names each process that occurs, once, and no other.
pub proof fn lemma_first_seen<T>(rows: Seq<(u32, T)>)
    ensures
        first_seen(rows).no_duplicates(),
        forall|pid: u32| first_seen(rows).contains(pid) <==> occurs(rows, pid),
    decreases rows.len(),
{
    if rows.len() > 0 {
        let init = rows.drop_last();
        let last = rows.last().0;
        lemma_first_seen(init);
        let before = first_seen(init);
        assert forall|pid: u32| first_seen(rows).contains(pid) <==> occurs(rows, pid) by {
            if occurs(rows, pid) {
                let i = choose|i: int| 0 <= i < rows.len() && (#[trigger] rows[i]).0 == pid;
                if i < init.len() {
                    assert(init[i].0 == pid);
                    assert(occurs(init, pid));
                    assert(before.contains(pid));
                    let k = choose|k: int| 0 <= k < before.len() && before[k] == pid;
                    assert(first_seen(rows)[k] == pid);
                } else {
                    assert(pid == last);
                    if before.contains(last) {
                    } else {
                        assert(first_seen(rows)[before.len() as int] == last);
                    }
                }
            }
            if first_seen(rows).contains(pid) {
                let now = first_seen(rows);
                let k = choose|k: int| 0 <= k < now.len() && now[k] == pid;
                if k < before.len() {
                    assert(before[k] == pid);
                    assert(before.contains(pid));
                    assert(occurs(init, pid));
                    let i = choose|i: int| 0 <= i < init.len() && (#[trigger] init[i]).0 == pid;
                    assert(rows[i].0 == pid);
                } else {
                    assert(rows[rows.len() - 1].0 == pid);
                }
            }
        }
    }
}

/// A process that does not occur has no rows.
pub proof fn lemma_rows_of_absent<T>(rows: Seq<(u32, T)>, pid: u32)
    requires
        !occurs(rows, pid),
    ensures
        rows_of(rows, pid) == Seq::<(u32, T)>::empty(),
    decreases rows.len(),
{
    if rows.len() > 0 {
        let init = rows.drop_last();
        assert(rows[rows.len() - 1].0 != pid);
        assert forall|i: int| 0 <= i < init.len() implies (#[trigger] init[i]).0 != pid by {
            assert(rows[i].0 != pid);
        }
        lemma_rows_of_absent(init, pid);
    }
}

/// Grouping by processes that are each named once keeps, for every process
/// named other than zero, exactly its rows in their order.
pub proof fn lemma_rows_by_process<T>(rows: Seq<(u32, T)>, pids: Seq<u32>, pid: u32)
    requires
        pids.no_duplicates(),
    ensures
        rows_of(rows_by_process(rows, pids), pid) == if pid != 0 && pids.contains(pid) {
            rows_of(rows, pid)
        } else {
            Seq::<(u32, T)>::empty()
        },
    decreases pids.len(),
{
    if pids.len() > 0 {
        let init = pids.drop_last();
        let last = pids.last();
        assert forall|i: int, j: int|
            0 <= i < init.len() && 0 <= j < init.len() && i != j implies init[i] != init[j] by {
            assert(pids[i] != pids[j]);
        }
        lemma_rows_by_process(rows, init, pid);
        assert(pids[pids.len() - 1] == last);
        if init.contains(pid) {
            let k = choose|k: int| 0 <= k < init.len() && init[k] == pid;
            assert(pids[k] == pid);
            assert(pid != last);
        }
        if pids.contains(pid) && pid != last {
            let k = choose|k: int| 0 <= k < pids.len() && pids[k] == pid;
            assert(init[k] == pid);
        }
        if last != 0 {
            lemma_rows_of_concat(rows_by_process(rows, init), rows_of(rows, last), pid);
            lemma_rows_of_rows_of(rows, last, pid);
        }
    }
}

/// The report holds, for every process other than zero, exactly the rows of
/// that process in the order in which they came, and no row of process zero.
pub proof fn lemma_report_keeps_rows<T>(rows: Seq<(u32, T)>, pid: u32)
    ensures
        rows_of(spec_report(rows), pid) == if pid == 0 {
            Seq::<(u32, T)>::empty()
        } else {
            rows_of(rows, pid)
        },
{
    lemma_first_seen(rows);
    lemma_rows_by_process(rows, first_seen(rows), pid);
    if pid != 0 && !first_seen(rows).contains(pid) {
        lemma_rows_of_absent(rows, pid);
    }
}

fn seen(pids: &Vec<u32>, pid: u32) -> (found: bool)
    ensures
        found == pids@.contains(pid),
{
    let mut i: usize = 0;
    while i < pids.len()
        invariant
            0 <= i <= pids.len(),
            forall|j: int| 0 <= j < i ==> pids@[j] != pid,
        decreases pids.len() - i,
    {
        if pids[i] == pid {
            return true;
        }
        i += 1;
    }
    false
}

/// Groups rows by process for the report.
pub fn report<T: Copy>(rows: &Vec<(u32, T)>) -> (out: Vec<(u32, T)>)
    ensures
        out@ == spec_report(rows@),
{
    let mut pids: Vec<u32> = Vec::new();
    let mut i: usize = 0;
    assert(rows@.take(0) =~= Seq::<(u32, T)>::empty());
    while i < rows.len()
        invariant
            0 <= i <= rows.len(),
            pids@ == first_seen(rows@.take(i as int)),
        decreases rows.len() - i,
    {
        proof {
            let q = rows@.take(i + 1);
            assert(q.drop_last() =~= rows@.take(i as int));
            assert(q.last() == rows@[i as int]);
        }
        let pid = rows[i].0;
        if !seen(&pids, pid) {
            pids.push(pid);
        }
        i += 1;
    }
    assert(rows@.take(i as int) =~= rows@);
    let mut out: Vec<(u32, T)> = Vec::new();
    let mut p: usize = 0;
    assert(pids@.take(0) =~= Seq::<u32>::empty());
    while p < pids.len()
        invariant
            0 <= p <= pids.len(),
            pids@ == first_seen(rows@),
            out@ == rows_by_process(rows@, pids@.take(p as int)),
        decreases pids.len() - p,
    {
        proof {
            let q = pids@.take(p + 1);
            assert(q.drop_last() =~= pids@.take(p as int));
            assert(q.last() == pids@[p as int]);
        }
        let pid = pids[p];
        if pid != 0 {
            let ghost start = out@;
            let mut k: usize = 0;
            assert(rows@.take(0) =~= Seq::<(u32, T)>::empty());
            while k < rows.len()
                invariant
                    0 <= k <= rows.len(),
                    out@ == start + rows_of(rows@.take(k as int), pid),
                decreases rows.len() - k,
            {
                proof {
                    let q = rows@.take(k + 1);
                    assert(q.drop_last() =~= rows@.take(k as int));
                    assert(q.last() == rows@[k as int]);
                }
                if rows[k].0 == pid {
                    out.push(rows[k]);
                    assert(out@ =~= start + rows_of(rows@.take(k + 1), pid));
                }
                k += 1;
            }
            assert(rows@.take(k as int) =~= rows@);
        }
        p += 1;
    }
    assert(pids@.take(p as int) =~= pids@);
    out
}

/// The line above the report.
pub fn print_header() -> (line: String)
    ensures
        line@ == spec_pad("PID"@, COLUMN_WIDTH as nat) + spec_pad("SOURCE"@, ADDRESS_WIDTH as nat)
            + spec_pad("DESTINATION"@, ADDRESS_WIDTH as nat),
{
    let mut line = String::new();
    append_padded(&mut line, "PID", COLUMN_WIDTH);
    append_padded(&mut line, "SOURCE", ADDRESS_WIDTH);
    append_padded(&mut line, "DESTINATION", ADDRESS_WIDTH);
    assert(line@ =~= spec_pad("PID"@, COLUMN_WIDTH as nat) + spec_pad(
        "SOURCE"@,
        ADDRESS_WIDTH as nat,
    ) + spec_pad("DESTINATION"@, ADDRESS_WIDTH as nat));
    line
}

/// One line of the report: the process, and the two ends of a socket that
/// it holds.
pub fn print_stats(pid: u32, source: &str, destination: &str) -> (line: String)
    ensures
        line@ == spec_pad(decimal_digits(pid as nat), COLUMN_WIDTH as nat) + spec_pad(
            source@,
            ADDRESS_WIDTH as nat,
        ) + spec_pad(destination@, ADDRESS_WIDTH as nat),
{
    let mut line = String::new();
    append_number(&mut line, pid as u128, COLUMN_WIDTH);
    append_padded(&mut line, source, ADDRESS_WIDTH);
    append_padded(&mut line, destination, ADDRESS_WIDTH);
    assert(line@ =~= spec_pad(decimal_digits(pid as nat), COLUMN_WIDTH as nat) + spec_pad(
        source@,
        ADDRESS_WIDTH as nat,
    ) + spec_pad(destination@, ADDRESS_WIDTH as nat));
    line
}

} // verus!
