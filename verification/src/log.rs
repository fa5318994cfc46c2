//! Errors of single operations and the timestamped log that collects them.
use crate::ops::ChamberIndex;
use vstd::prelude::*;
use vstd::string::*;

verus! {

/// Why an operation was dropped.
#[derive(Debug)]
pub enum OpError {
    /// The operation names a chamber that does not exist.
    InvalidChamberAccess(ChamberIndex),
    /// The operation may occur once per frame and occurred again.
    InvalidShade(String),
    Other(String),
}

/// An error with its texts as sequences of characters.
pub enum OpErrorView {
    InvalidChamberAccess(ChamberIndex),
    InvalidShade(Seq<char>),
    Other(Seq<char>),
}

/// The character of a decimal digit.
pub open spec fn digit_char(d: nat) -> char {
    if d == 0 {
        '0'
    } else if d == 1 {
        '1'
    } else if d == 2 {
        '2'
    } else if d == 3 {
        '3'
    } else if d == 4 {
        '4'
    } else if d == 5 {
        '5'
    } else if d == 6 {
        '6'
    } else if d == 7 {
        '7'
    } else if d == 8 {
        '8'
    } else {
        '9'
    }
}

/// A number written in decimal, without sign or leading zeros.
pub open spec fn decimal_digits(n: nat) -> Seq<char>
    decreases n,
{
    if n < 10 {
        seq![digit_char(n)]
    } else {
        decimal_digits(n / 10).push(digit_char(n % 10))
    }
}

/// What names a repeated irradiance shading request in the log.
pub open spec fn shade_request_text(index: ChamberIndex) -> Seq<char> {
    "ShadeWithIv on chamber #"@ + decimal_digits(index as nat)
}

impl OpErrorView {
    /// The line that describes the error.
    pub open spec fn message(self) -> Seq<char> {
        match self {
            OpErrorView::InvalidChamberAccess(index) => "Invalid chamber accesses: "@
                + decimal_digits(index as nat),
            OpErrorView::InvalidShade(what) => "Duplicated operations that must be unique: "@
                + what,
            OpErrorView::Other(what) => what,
        }
    }
}

/// The text of one decimal digit.
fn digit_text(d: u32) -> (r: &'static str)
    requires
        d < 10,
    ensures
        r@ == seq![digit_char(d as nat)],
{
    proof {
        reveal_strlit("0");
        reveal_strlit("1");
        reveal_strlit("2");
        reveal_strlit("3");
        reveal_strlit("4");
        reveal_strlit("5");
        reveal_strlit("6");
        reveal_strlit("7");
        reveal_strlit("8");
        reveal_strlit("9");
    }
    let r: &'static str = if d == 0 {
        "0"
    } else if d == 1 {
        "1"
    } else if d == 2 {
        "2"
    } else if d == 3 {
        "3"
    } else if d == 4 {
        "4"
    } else if d == 5 {
        "5"
    } else if d == 6 {
        "6"
    } else if d == 7 {
        "7"
    } else if d == 8 {
        "8"
    } else {
        "9"
    };
    assert(r@ =~= seq![digit_char(d as nat)]);
    r
}

/// A number written in decimal.
pub fn decimal(n: u32) -> (r: String)
    ensures
        r@ == decimal_digits(n as nat),
    decreases n,
{
    if n < 10 {
        String::from_str(digit_text(n))
    } else {
        let mut text: String = decimal(n / 10);
        text.append(digit_text(n % 10));
        assert(text@ =~= decimal_digits((n / 10) as nat).push(digit_char((n % 10) as nat)));
        text
    }
}

/// The name of a repeated irradiance shading request for the log.
pub fn shade_request(index: ChamberIndex) -> (r: String)
    ensures
        r@ == shade_request_text(index),
{
    let mut text: String = String::from_str("ShadeWithIv on chamber #");
    let digits: String = decimal(index);
    text.append(digits.as_str());
    text
}

impl OpError {
    pub open spec fn view(&self) -> OpErrorView {
        match self {
            OpError::InvalidChamberAccess(index) => OpErrorView::InvalidChamberAccess(*index),
            OpError::InvalidShade(what) => OpErrorView::InvalidShade(what@),
            OpError::Other(what) => OpErrorView::Other(what@),
        }
    }

    /// The line that describes the error.
    pub fn to_string(&self) -> (r: String)
        ensures
            r@ == self@.message(),
    {
        match self {
            OpError::InvalidChamberAccess(index) => {
                let mut text: String = String::from_str("Invalid chamber accesses: ");
                let digits: String = decimal(*index);
                text.append(digits.as_str());
                text
            },
            OpError::InvalidShade(what) => {
                let mut text: String = String::from_str(
                    "Duplicated operations that must be unique: ",
                );
                text.append(what.as_str());
                text
            },
            OpError::Other(what) => {
                let mut text: String = String::new();
                text.append(what.as_str());
                assert(text@ =~= what@);
                text
            },
        }
    }
}

/// One line of the frame's log with the time it was written, in
/// microseconds since the Unix epoch.
#[derive(Debug)]
pub struct FrameLog {
    pub timestamp: i64,
    pub log: String,
}

/// A log line as plain values.
pub struct FrameLogView {
    pub timestamp: i64,
    pub log: Seq<char>,
}

impl FrameLog {
    pub open spec fn view(&self) -> FrameLogView {
        FrameLogView { timestamp: self.timestamp, log: self.log@ }
    }

    /// The log line of an error, written at the given time.
    pub fn from_err(timestamp: i64, err: &OpError) -> (r: Self)
        ensures
            r@ == (FrameLogView { timestamp, log: err@.message() }),
    {
        FrameLog { timestamp, log: err.to_string() }
    }

    /// A log line written at the given time.
    pub fn new(timestamp: i64, log: String) -> (r: Self)
        ensures
            r.timestamp == timestamp,
            r.log == log,
    {
        FrameLog { timestamp, log }
    }
}

/// The views of a list of log lines.
pub open spec fn log_views(logs: Seq<FrameLog>) -> Seq<FrameLogView> {
    Seq::new(logs.len(), |i: int| logs[i]@)
}

/// Lines in the order of their timestamps.
pub open spec fn chronological(logs: Seq<FrameLog>) -> bool {
    forall|i: int, j: int| 0 <= i <= j < logs.len() ==> logs[i].timestamp <= logs[j].timestamp
}

/// A line put into its place among lines that are in order: behind
/// every line that is not younger than it.
pub open spec fn placed(sorted: Seq<FrameLogView>, line: FrameLogView) -> Seq<FrameLogView>
    decreases sorted.len(),
{
    if sorted.len() == 0 {
        seq![line]
    } else if sorted.last().timestamp <= line.timestamp {
        sorted.push(line)
    } else {
        placed(sorted.drop_last(), line).push(sorted.last())
    }
}

/// The lines in the order of their timestamps, lines of one timestamp in
/// the order in which they were written.
pub open spec fn in_order(lines: Seq<FrameLogView>) -> Seq<FrameLogView>
    decreases lines.len(),
{
    if lines.len() == 0 {
        Seq::empty()
    } else {
        placed(in_order(lines.drop_last()), lines.last())
    }
}

/// Among lines in order, a line's place is the first index at which a
/// younger line stands.
proof fn lemma_placed_is_insert(sorted: Seq<FrameLogView>, line: FrameLogView, at: int)
    requires
        0 <= at <= sorted.len(),
        forall|a: int, b: int|
            0 <= a <= b < sorted.len() ==> sorted[a].timestamp <= sorted[b].timestamp,
        forall|a: int| 0 <= a < at ==> sorted[a].timestamp <= line.timestamp,
        at < sorted.len() ==> sorted[at].timestamp > line.timestamp,
    ensures
        placed(sorted, line) == sorted.insert(at, line),
    decreases sorted.len(),
{
    if sorted.len() == 0 {
        assert(sorted.insert(at, line) =~= seq![line]);
    } else if sorted.last().timestamp <= line.timestamp {
        assert(at == sorted.len());
        assert(sorted.insert(at, line) =~= sorted.push(line));
    } else {
        assert(at < sorted.len());
        lemma_placed_is_insert(sorted.drop_last(), line, at);
        assert(sorted.insert(at, line) =~= sorted.drop_last().insert(at, line).push(sorted.last()));
    }
}

/// Puts the lines into the order of their timestamps. Lines of one
/// timestamp keep the order in which they stood.
pub fn sort_logs(logs: &mut Vec<FrameLog>)
    ensures
        log_views(final(logs)@) == in_order(log_views(old(logs)@)),
        chronological(final(logs)@),
        final(logs)@.to_multiset() == old(logs)@.to_multiset(),
        final(logs)@.len() == old(logs)@.len(),
{
    let n: usize = logs.len();
    let mut i: usize = 1;
    if n == 0 {
        assert(log_views(logs@) =~= in_order(log_views(logs@)));
        return ;
    }
    proof {
        let first = log_views(logs@).take(1);
        assert(first.drop_last() =~= Seq::<FrameLogView>::empty());
        assert(in_order(first.drop_last()) =~= Seq::<FrameLogView>::empty());
        assert(in_order(first) == placed(in_order(first.drop_last()), first.last()));
        assert(placed(Seq::<FrameLogView>::empty(), first.last()) =~= seq![first.last()]);
        assert(first =~= seq![first.last()]);
    }
    while i < n
        invariant
            1 <= i <= n,
            n == logs@.len(),
            n == old(logs)@.len(),
            logs@.to_multiset() == old(logs)@.to_multiset(),
            log_views(logs@).take(i as int) == in_order(log_views(old(logs)@).take(i as int)),
            forall|a: int| i <= a < n ==> logs@[a] == old(logs)@[a],
            forall|a: int, b: int| 0 <= a <= b < i ==> logs@[a].timestamp <= logs@[b].timestamp,
        decreases n - i,
    {
        let ghost before = logs@;
        let key: i64 = logs[i].timestamp;
        let mut j: usize = 0;
        while j < i && logs[j].timestamp <= key
            invariant
                j <= i < n,
                n == logs@.len(),
                logs@ == before,
                key == logs@[i as int].timestamp,
                forall|a: int| 0 <= a < j ==> logs@[a].timestamp <= key,
            decreases i - j,
        {
            j = j + 1;
        }
        let line: FrameLog = logs.remove(i);
        logs.insert(j, line);
        proof {
            let after = logs@;
            lemma_move_keeps_lines(before, i as int, j as int);
            assert forall|a: int, b: int| 0 <= a <= b < i + 1 implies after[a].timestamp
                <= after[b].timestamp by {
                let oa = if a < j {
                    a
                } else if a == j {
                    i as int
                } else {
                    a - 1
                };
                let ob = if b < j {
                    b
                } else if b == j {
                    i as int
                } else {
                    b - 1
                };
                assert(after[a] == before[oa]);
                assert(after[b] == before[ob]);
            }
            let sorted = log_views(before).take(i as int);
            let given = log_views(old(logs)@);
            lemma_placed_is_insert(sorted, line@, j as int);
            assert(log_views(after).take(i + 1) =~= sorted.insert(j as int, line@));
            assert(given.take(i + 1).drop_last() =~= given.take(i as int));
            assert(given.take(i + 1).last() == line@);
        }
        i = i + 1;
    }
    proof {
        assert(log_views(logs@).take(n as int) =~= log_views(logs@));
        assert(log_views(old(logs)@).take(n as int) =~= log_views(old(logs)@));
    }
}

/// Taking an element out of a sequence and putting it back at another
/// place leaves the same elements, each as often as before.
pub proof fn lemma_move_keeps_lines<A>(s: Seq<A>, from: int, to: int)
    requires
        0 <= from < s.len(),
        0 <= to < s.len(),
    ensures
        s.remove(from).insert(to, s[from]).to_multiset() == s.to_multiset(),
{
    vstd::seq_lib::to_multiset_remove(s, from);
    vstd::seq_lib::to_multiset_insert(s.remove(from), to, s[from]);
    s.to_multiset_ensures();
    assert(s.contains(s[from]));
    assert(s.to_multiset().remove(s[from]).insert(s[from]) =~= s.to_multiset());
}

/// The log line for an internal texture that does not exist.
pub open spec fn unknown_texture_text(name: Seq<char>) -> Seq<char> {
    "Invalid internal texture name: "@ + name
}

/// The log line for an internal texture that does not exist, written at
/// the given time.
pub fn unknown_texture_line(timestamp: i64, name: &String) -> (r: FrameLog)
    ensures
        r@ == (FrameLogView { timestamp, log: unknown_texture_text(name@) }),
{
    let mut text: String = String::from_str("Invalid internal texture name: ");
    text.append(name.as_str());
    FrameLog { timestamp, log: text }
}

} // verus!
