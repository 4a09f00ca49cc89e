//! One streaming search: each poll reads the engine lines that arrived since
//! the previous one and decides which update, if any, to publish.

use vstd::prelude::*;
use crate::protocol::{
    BestMove, depth_in, is_progress, is_progress_line, is_result, is_result_line, parse_depth,
    parse_pv_move, parse_result_move, parse_score, pv_move_in, result_move_in, score_in,
};

verus! {

/// Progress or the result of a search, as published to the caller.
#[derive(PartialEq, Eq, Structural, Clone, Copy, Debug)]
pub struct EngineUpdate {
    pub best_move: Option<BestMove>,
    pub evaluation: Option<i64>,
    pub depth: Option<u8>,
    pub is_final: bool,
}

/// What a scan of new lines has gathered so far.
#[derive(PartialEq, Eq, Structural, Clone, Copy, Debug)]
pub struct ScanState {
    pub found: bool,
    pub best_move: Option<BestMove>,
    pub evaluation: Option<i64>,
    pub depth: Option<u8>,
    pub is_final: bool,
}

pub open spec fn empty_scan() -> ScanState {
    ScanState { found: false, best_move: None, evaluation: None, depth: None, is_final: false }
}

/// The scan after one line. A progress line sets whichever of depth, score
/// and move it reports readably. A result line marks the scan final and sets
/// the move to the one it gives, or to none where it gives none, as
/// `bestmove (none)` does when the position has no legal move.
pub open spec fn scan_line(acc: ScanState, l: Seq<char>, is_white_move: bool) -> ScanState {
    let a = if is_progress_line(l) {
        ScanState {
            found: true,
            best_move: match pv_move_in(l) {
                Some(m) => Some(m),
                None => acc.best_move,
            },
            evaluation: match score_in(l, is_white_move) {
                Some(e) => Some(e as i64),
                None => acc.evaluation,
            },
            depth: match depth_in(l) {
                Some(d) => Some(d as u8),
                None => acc.depth,
            },
            is_final: acc.is_final,
        }
    } else {
        acc
    };
    if is_result_line(l) {
        ScanState {
            found: true,
            best_move: result_move_in(l),
            evaluation: a.evaluation,
            depth: a.depth,
            is_final: true,
        }
    } else {
        a
    }
}

/// The scan of `lines` from index `i` on; it stops after the first result line.
pub open spec fn scan_lines(
    lines: Seq<Seq<char>>,
    i: int,
    acc: ScanState,
    is_white_move: bool,
) -> ScanState
    decreases lines.len() - i,
{
    if i < 0 || i >= lines.len() {
        acc
    } else {
        let a = scan_line(acc, lines[i], is_white_move);
        if is_result_line(lines[i]) {
            a
        } else {
            scan_lines(lines, i + 1, a, is_white_move)
        }
    }
}

/// The scan of one line.
pub fn scan_one_line(acc: ScanState, l: &str, is_white_move: bool) -> (r: ScanState)
    ensures
        r == scan_line(acc, l@, is_white_move),
{
    let mut a = acc;
    if is_progress(l) {
        a.found = true;
        if let Some(m) = parse_pv_move(l) {
            a.best_move = Some(m);
        }
        if let Some(e) = parse_score(l, is_white_move) {
            a.evaluation = Some(e);
        }
        if let Some(d) = parse_depth(l) {
            a.depth = Some(d);
        }
    }
    if is_result(l) {
        a.found = true;
        a.best_move = parse_result_move(l);
        a.is_final = true;
    }
    a
}

pub open spec fn lines_view(lines: Seq<String>) -> Seq<Seq<char>> {
    lines.map_values(|s: String| s@)
}

/// The state of one search between polls.
#[derive(PartialEq, Eq, Structural, Clone, Copy, Debug)]
pub struct SearchSession {
    /// Whether the side to move in the searched position is white; scores
    /// are published from white's side.
    pub is_white_move: bool,
    /// How many lines of the output buffer earlier polls have read.
    pub processed_lines: usize,
    pub last_sent_move: Option<BestMove>,
    pub last_sent_eval: Option<i64>,
    /// The last depth published.
    pub last_sent_depth: Option<u8>,
    /// Set once the final update was published or the search was cancelled;
    /// from then on nothing more is published.
    pub finished: bool,
}

/// The update that a scan gives.
pub open spec fn update_of(r: ScanState) -> EngineUpdate {
    EngineUpdate {
        best_move: r.best_move,
        evaluation: r.evaluation,
        depth: r.depth,
        is_final: r.is_final,
    }
}

/// Whether a scan is worth publishing after what was last sent: something
/// was found, and the move or the score changed, a depth other than the last
/// one published was read, or the result came. A progress line read again
/// therefore publishes nothing.
pub open spec fn worth_sending(s: SearchSession, r: ScanState) -> bool {
    r.found && (r.best_move != s.last_sent_move || r.evaluation != s.last_sent_eval || (r.depth is Some
        && r.depth != s.last_sent_depth) || r.is_final)
}

/// The last depth published once the scan `r` is: its depth where it read
/// one, else the one before.
pub open spec fn next_sent_depth(s: SearchSession, r: ScanState) -> Option<u8> {
    if r.depth is Some {
        r.depth
    } else {
        s.last_sent_depth
    }
}

/// Where a poll starts reading: the saved cursor, or the start when the
/// buffer was cleared since.
pub open spec fn poll_start(s: SearchSession, n: int) -> int {
    if s.processed_lines > n {
        0
    } else {
        s.processed_lines as int
    }
}

/// One poll over the whole output buffer `lines`: the session after it and
/// the update to publish, if any.
pub open spec fn poll_step(s: SearchSession, lines: Seq<Seq<char>>, cancelled: bool) -> (
    SearchSession,
    Option<EngineUpdate>,
) {
    if s.finished || cancelled {
        (SearchSession { finished: true, ..s }, None)
    } else {
        let r = scan_lines(lines, poll_start(s, lines.len() as int), empty_scan(), s.is_white_move);
        if worth_sending(s, r) {
            (
                SearchSession {
                    is_white_move: s.is_white_move,
                    processed_lines: lines.len() as usize,
                    last_sent_move: r.best_move,
                    last_sent_eval: r.evaluation,
                    last_sent_depth: next_sent_depth(s, r),
                    finished: r.is_final,
                },
                Some(update_of(r)),
            )
        } else {
            (SearchSession { processed_lines: lines.len() as usize, ..s }, None)
        }
    }
}

impl SearchSession {
    /// A session for a search of a position where white is to move or not.
    pub fn new(is_white_move: bool) -> (r: SearchSession)
        ensures
            r == (SearchSession {
                is_white_move,
                processed_lines: 0,
                last_sent_move: None,
                last_sent_eval: None,
                last_sent_depth: None,
                finished: false,
            }),
    {
        SearchSession {
            is_white_move,
            processed_lines: 0,
            last_sent_move: None,
            last_sent_eval: None,
            last_sent_depth: None,
            finished: false,
        }
    }

    /// Reads the lines of the output buffer that arrived since the last poll
    /// and returns the update to publish, if any. `cancelled` tells whether
    /// the search was cancelled; once it was, nothing is published again.
    pub fn poll(&mut self, lines: &Vec<String>, cancelled: bool) -> (r: Option<EngineUpdate>)
        ensures
            (*final(self), r) == poll_step(*old(self), lines_view(lines@), cancelled),
    {
        if self.finished || cancelled {
            self.finished = true;
            return None;
        }
        let n = lines.len();
        let start: usize = if self.processed_lines > n {
            0
        } else {
            self.processed_lines
        };
        let ghost view = lines_view(lines@);
        let mut acc = ScanState {
            found: false,
            best_move: None,
            evaluation: None,
            depth: None,
            is_final: false,
        };
        let mut i: usize = start;
        while i < n
            invariant
                n == lines@.len(),
                view == lines_view(lines@),
                start <= i <= n,
                scan_lines(view, start as int, empty_scan(), self.is_white_move) == scan_lines(
                    view,
                    i as int,
                    acc,
                    self.is_white_move,
                ),
            ensures
                scan_lines(view, start as int, empty_scan(), self.is_white_move) == acc,
            decreases n - i,
        {
            let l = lines[i].as_str();
            assert(l@ == view[i as int]);
            acc = scan_one_line(acc, l, self.is_white_move);
            if is_result(l) {
                break;
            }
            i = i + 1;
        }
        self.processed_lines = n;
        let new_depth = match acc.depth {
            Some(_) => acc.depth != self.last_sent_depth,
            None => false,
        };
        if acc.found && (acc.best_move != self.last_sent_move || acc.evaluation
            != self.last_sent_eval || new_depth || acc.is_final) {
            self.last_sent_move = acc.best_move;
            self.last_sent_eval = acc.evaluation;
            if acc.depth.is_some() {
                self.last_sent_depth = acc.depth;
            }
            self.finished = acc.is_final;
            Some(
                EngineUpdate {
                    best_move: acc.best_move,
                    evaluation: acc.evaluation,
                    depth: acc.depth,
                    is_final: acc.is_final,
                },
            )
        } else {
            None
        }
    }
}

/// The updates that a run of polls publishes: poll `i` sees the buffer
/// `batches[i]` and the cancellation flag `flags[i]`.
pub open spec fn poll_run(s: SearchSession, batches: Seq<Seq<Seq<char>>>, flags: Seq<bool>) -> Seq<
    Option<EngineUpdate>,
>
    decreases batches.len(),
{
    if batches.len() == 0 || flags.len() == 0 {
        Seq::empty()
    } else {
        let step = poll_step(s, batches[0], flags[0]);
        seq![step.1] + poll_run(step.0, batches.drop_first(), flags.drop_first())
    }
}

/// Once a poll has seen the search cancelled, or the session has finished,
/// no later poll publishes an update, whatever the buffer then holds and
/// whatever the flag then says.
pub proof fn silent_after_cancel(s: SearchSession, batches: Seq<Seq<Seq<char>>>, flags: Seq<bool>)
    requires
        s.finished || (flags.len() > 0 && flags[0]),
    ensures
        forall|i: int|
            0 <= i < poll_run(s, batches, flags).len() ==> (#[trigger] poll_run(
                s,
                batches,
                flags,
            )[i]) is None,
    decreases batches.len(),
{
    if batches.len() > 0 && flags.len() > 0 {
        let step = poll_step(s, batches[0], flags[0]);
        let rest = poll_run(step.0, batches.drop_first(), flags.drop_first());
        silent_after_cancel(step.0, batches.drop_first(), flags.drop_first());
        assert(poll_run(s, batches, flags) == seq![step.1] + rest);
        assert forall|i: int| 0 <= i < poll_run(s, batches, flags).len() implies (#[trigger] poll_run(
            s,
            batches,
            flags,
        )[i]) is None by {
            if i > 0 {
                assert(poll_run(s, batches, flags)[i] == rest[i - 1]);
            }
        }
    }
}

/// Identical progress is published once: after a poll publishes the
/// non-final update of a scan, a later scan that reads the same move, score
/// and depth is not worth sending.
pub proof fn identical_progress_not_republished(
    s: SearchSession,
    lines: Seq<Seq<char>>,
    r: ScanState,
)
    requires
        poll_step(s, lines, false).1 == Some(update_of(r)),
        !r.is_final,
    ensures
        !worth_sending(poll_step(s, lines, false).0, r),
{
}

} // verus!
