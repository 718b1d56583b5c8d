//! The music player whose track is shown: what a player has to offer, and
//! how the status report of cmus is read.

use crate::numeral::{
    decimal, digits_value, is_digit, lemma_decimal_digits, lemma_decimal_nonempty,
    lemma_decimal_read_back, parse_u64, parsed_u64, unsigned_part,
};
use crate::text::{chars_of, strip_prefix, text_is, text_of, without_prefix};
use vstd::prelude::*;
use vstd::utf8::{encode_utf8, valid_utf8};

verus! {

/// Why a player has no track to name.
#[derive(Clone, Copy, PartialEq, Eq, Structural, Debug)]
pub enum PlayerError {
    /// The player's report does not start with a status it is known to give:
    /// it has exited.
    Exited,
}

impl PlayerError {
    /// The failure in words.
    pub open spec fn text(self) -> Seq<char> {
        match self {
            PlayerError::Exited => "cmus has exited."@,
        }
    }

    /// The failure in words, for the log.
    pub fn message(&self) -> (r: &'static str)
        ensures
            r@ == self.text(),
    {
        match self {
            PlayerError::Exited => "cmus has exited.",
        }
    }
}

/// What a music player offers. Only `get_active_file_path` has to do real
/// work. `verify_running` is a second check beside the look at the player's
/// process, and may always say yes. `get_duration` makes a progress bar
/// possible, and may always say nothing.
pub trait StandardPlayer {
    /// Whether the player runs, by a check of the player's own.
    fn verify_running(&self) -> bool;

    /// The file that the player has loaded; `Ok(None)` where it has none, an
    /// error where the player is gone.
    fn get_active_file_path(&mut self) -> Result<Option<String>, PlayerError>;

    /// The length of the loaded track in seconds.
    fn get_duration(&self) -> Option<u64>;
}

/// The place of the first line feed of `s` at or behind `from`; the length of
/// `s` where there is none.
pub open spec fn next_feed(s: Seq<char>, from: int) -> int
    decreases s.len() - from,
{
    if from >= s.len() {
        s.len() as int
    } else if s[from] == '\n' {
        from
    } else {
        next_feed(s, from + 1)
    }
}

/// Where line `k` of `s` starts, counted from zero: behind the line feed that
/// ends the line before it. `None` where `s` has no such line.
pub open spec fn line_start(s: Seq<char>, k: nat) -> Option<int>
    decreases k,
{
    if k == 0 {
        Some(0)
    } else {
        match line_start(s, (k - 1) as nat) {
            Some(before) => if 0 <= before && next_feed(s, before) < s.len() {
                Some(next_feed(s, before) + 1)
            } else {
                None
            },
            None => None,
        }
    }
}

/// Line `k` of `s`, without its line feed. A text that ends in a line feed
/// has an empty last line.
pub open spec fn line(s: Seq<char>, k: nat) -> Option<Seq<char>> {
    match line_start(s, k) {
        Some(start) => Some(s.subrange(start, next_feed(s, start))),
        None => None,
    }
}

/// Whether a line is one of the three statuses that cmus reports.
pub open spec fn status_known(first: Seq<char>) -> bool {
    first == "status playing"@ || first == "status paused"@ || first == "status stopped"@
}

/// What a status report says of the loaded track.
pub struct Snapshot {
    pub file: Option<Seq<char>>,
    pub duration: Option<u64>,
}

/// The duration that a line names: the number behind `duration `.
pub open spec fn duration_in(third: Option<Seq<char>>) -> Option<u64> {
    match third {
        Some(t) => match without_prefix(t, "duration "@) {
            Some(number) => parsed_u64(number),
            None => None,
        },
        None => None,
    }
}

/// What a status report of cmus says. The first line must be a known status.
/// The second names the file, behind `file `; where it does not, no track is
/// loaded. The third names the duration.
pub open spec fn status_snapshot(report: Seq<char>) -> Result<Snapshot, PlayerError> {
    if !status_known(report.subrange(0, next_feed(report, 0))) {
        Err(PlayerError::Exited)
    } else {
        match line(report, 1) {
            Some(second) => match without_prefix(second, "file "@) {
                Some(path) => Ok(
                    Snapshot { file: Some(path), duration: duration_in(line(report, 2)) },
                ),
                None => Ok(Snapshot { file: None, duration: None }),
            },
            None => Ok(Snapshot { file: None, duration: None }),
        }
    }
}

/// Whether a text holds no line feed.
pub open spec fn one_line(s: Seq<char>) -> bool {
    forall|i: int| 0 <= i < s.len() ==> s[i] != '\n'
}

/// The report of a loaded track as cmus writes it: the status, the file and
/// the duration, a line each, and whatever else it has to say.
pub open spec fn report_of(status: Seq<char>, path: Seq<char>, duration: u64, rest: Seq<char>) -> Seq<
    char,
> {
    status + seq!['\n'] + ("file "@ + path) + seq!['\n'] + ("duration "@ + decimal(
        duration as nat,
    )) + seq!['\n'] + rest
}

proof fn lemma_line_ends_at_feed(s: Seq<char>, from: int, to: int)
    requires
        0 <= from <= to < s.len(),
        forall|j: int| from <= j < to ==> s[j] != '\n',
        s[to] == '\n',
    ensures
        next_feed(s, from) == to,
    decreases to - from,
{
    if from < to {
        lemma_line_ends_at_feed(s, from + 1, to);
    }
}

/// What cmus writes of a loaded track is read back as it was meant: for a
/// known status, a file name of one line and any duration, the report yields
/// that file and that duration.
pub proof fn lemma_report_is_read_back(
    status: Seq<char>,
    path: Seq<char>,
    duration: u64,
    rest: Seq<char>,
)
    requires
        status_known(status),
        one_line(path),
    ensures
        status_snapshot(report_of(status, path, duration, rest)) == Ok::<Snapshot, PlayerError>(
            Snapshot { file: Some(path), duration: Some(duration) },
        ),
{
    reveal_strlit("status playing");
    reveal_strlit("status paused");
    reveal_strlit("status stopped");
    reveal_strlit("file ");
    reveal_strlit("duration ");
    reveal_with_fuel(line_start, 3);
    let number = decimal(duration as nat);
    let second = "file "@ + path;
    let third = "duration "@ + number;
    let report = report_of(status, path, duration, rest);
    lemma_decimal_digits(duration as nat);
    lemma_decimal_nonempty(duration as nat);
    lemma_decimal_read_back(duration as nat);
    assert(one_line(status));
    assert(one_line(second));
    assert(one_line(third)) by {
        assert forall|i: int| 0 <= i < third.len() implies third[i] != '\n' by {
            if i >= 9 {
                assert(third[i] == number[i - 9]);
                assert(is_digit(number[i - 9]));
            }
        }
    }
    let end0 = status.len() as int;
    let start1 = end0 + 1;
    let end1 = start1 + second.len();
    let start2 = end1 + 1;
    let end2 = start2 + third.len();
    assert forall|j: int| 0 <= j < end0 implies report[j] != '\n' by {
        assert(report[j] == status[j]);
    }
    assert forall|j: int| start1 <= j < end1 implies report[j] != '\n' by {
        assert(report[j] == second[j - start1]);
    }
    assert forall|j: int| start2 <= j < end2 implies report[j] != '\n' by {
        assert(report[j] == third[j - start2]);
    }
    assert(report[end0] == '\n');
    assert(report[end1] == '\n');
    assert(report[end2] == '\n');
    lemma_line_ends_at_feed(report, 0, end0);
    lemma_line_ends_at_feed(report, start1, end1);
    lemma_line_ends_at_feed(report, start2, end2);
    assert(report.subrange(0, end0) =~= status);
    assert(report.subrange(start1, end1) =~= second);
    assert(report.subrange(start2, end2) =~= third);
    assert(line(report, 1) == Some(second));
    assert(line(report, 2) == Some(third));
    assert(second.skip(5) =~= path);
    assert("file "@.is_prefix_of(second));
    assert(third.skip(9) =~= number);
    assert("duration "@.is_prefix_of(third));
    assert(unsigned_part(number) == number) by {
        assert(is_digit(number[0]));
    }
    assert(digits_value(number) == Some(duration as nat));
}

fn feed_from(chars: &Vec<char>, from: usize) -> (r: usize)
    requires
        from <= chars.len(),
    ensures
        r == next_feed(chars@, from as int),
        from <= r <= chars.len(),
{
    let mut i: usize = from;
    while i < chars.len() && chars[i] != '\n'
        invariant
            from <= i <= chars.len(),
            next_feed(chars@, from as int) == next_feed(chars@, i as int),
        decreases chars.len() - i,
    {
        i += 1;
    }
    i
}

/// The text that a run of bytes holds as UTF-8, from `String::from_utf8` of
/// the standard library: the bytes of the text are the bytes given, and there
/// is a text just where the bytes are valid UTF-8.
#[verifier::external_body]
fn text_from_utf8(bytes: Vec<u8>) -> (r: Option<String>)
    ensures
        r is Some <==> valid_utf8(bytes@),
        r matches Some(text) ==> encode_utf8(text@) == bytes@,
{
    String::from_utf8(bytes).ok()
}

/// Reads a status report of cmus.
pub fn read_status(report: &str) -> (r: Result<(Option<String>, Option<u64>), PlayerError>)
    ensures
        match status_snapshot(report@) {
            Ok(snapshot) => r matches Ok(found) && text_of(found.0) == snapshot.file && found.1
                == snapshot.duration,
            Err(e) => r == Err::<(Option<String>, Option<u64>), PlayerError>(e),
        },
{
    proof {
        reveal_with_fuel(line_start, 3);
    }
    let none: (Option<String>, Option<u64>) = (None, None);
    let chars = chars_of(report);
    let n = chars.len();
    let end0 = feed_from(&chars, 0);
    let first = String::from_str(report.substring_char(0, end0));
    if !(text_is(&first, "status playing") || text_is(&first, "status paused") || text_is(
        &first,
        "status stopped",
    )) {
        return Err(PlayerError::Exited);
    }
    if end0 >= n {
        return Ok(none);
    }
    let start1 = end0 + 1;
    let end1 = feed_from(&chars, start1);
    let second = report.substring_char(start1, end1);
    match strip_prefix(second, "file ") {
        None => Ok(none),
        Some(path) => {
            let duration = if end1 >= n {
                None
            } else {
                let start2 = end1 + 1;
                let end2 = feed_from(&chars, start2);
                let third = report.substring_char(start2, end2);
                match strip_prefix(third, "duration ") {
                    Some(number) => parse_u64(&chars_of(number.as_str())),
                    None => None,
                }
            };
            Ok((Some(path), duration))
        },
    }
}

/// The player cmus, as far as its last status report tells: the report
/// itself, and the length in seconds of the track it names.
pub struct Cmus {
    pub cmus_remote_output: Option<String>,
    pub active_duration: Option<u64>,
}

impl Default for Cmus {
    /// A player that has reported nothing yet.
    fn default() -> (r: Cmus)
        ensures
            text_of(r.cmus_remote_output) == Some(Seq::<char>::empty()),
            r.active_duration is None,
    {
        Cmus { cmus_remote_output: Some(String::new()), active_duration: None }
    }
}

impl Cmus {
    /// The report of `cmus-remote -Q` as text, from what the command wrote
    /// to its output; nothing where that is not valid UTF-8.
    pub fn update_cmus_remote_output(stdout: Vec<u8>) -> (r: Option<String>)
        ensures
            r is Some <==> valid_utf8(stdout@),
            r matches Some(text) ==> encode_utf8(text@) == stdout@,
    {
        text_from_utf8(stdout)
    }

    /// Takes in a new status report and names the loaded file. The report is
    /// kept. Where it names a file, the duration it names is kept too; where
    /// it names none, no duration is kept. Without a report there is no file
    /// and nothing changes; a report without a known status is an error and
    /// leaves the duration as it was.
    pub fn get_active_file_path(&mut self, cmus_remote_output: Option<String>) -> (r: Result<
        Option<String>,
        PlayerError,
    >)
        ensures
            final(self).cmus_remote_output == cmus_remote_output,
            match cmus_remote_output {
                None => {
                    &&& r == Ok::<Option<String>, PlayerError>(None)
                    &&& final(self).active_duration == old(self).active_duration
                },
                Some(report) => match status_snapshot(report@) {
                    Ok(snapshot) => {
                        &&& r matches Ok(path) && text_of(path) == snapshot.file
                        &&& final(self).active_duration == snapshot.duration
                    },
                    Err(e) => {
                        &&& r == Err::<Option<String>, PlayerError>(e)
                        &&& final(self).active_duration == old(self).active_duration
                    },
                },
            },
    {
        self.cmus_remote_output = cmus_remote_output;
        let outcome = match &self.cmus_remote_output {
            Some(report) => read_status(report.as_str()),
            None => {
                return Ok(None);
            },
        };
        match outcome {
            Ok(found) => {
                self.active_duration = found.1;
                Ok(found.0)
            },
            Err(e) => Err(e),
        }
    }

    /// The length of the loaded track in seconds, as last reported.
    pub fn get_duration(&self) -> (r: Option<u64>)
        ensures
            r == self.active_duration,
    {
        self.active_duration
    }
}

} // verus!
