//! The line-oriented text protocol of a UCI analysis engine: the commands
//! sent to it and the reading of the progress and result lines it answers.

use vstd::prelude::*;
use crate::replay::Square;
use crate::text::{
    after_text, contains, contains_text, find_first, first_word, find_text, i32_value, parse_i32,
    parse_u8, text_after, u8_value, word_at, word_bounds, word_end, skip_spaces,
};

verus! {

/// A suggested move as the engine writes it: a source and a destination square.
#[derive(PartialEq, Eq, Structural, Clone, Copy, Debug)]
pub struct BestMove {
    pub from: Square,
    pub to: Square,
}

/// The square that a file letter and a rank digit name, such as `e` `4`.
pub open spec fn square_named(f: char, r: char) -> Option<Square> {
    if 'a' <= f && f <= 'h' && '1' <= r && r <= '8' {
        Some(Square { file: (f as int - 'a' as int) as u8, rank: (r as int - '1' as int) as u8 })
    } else {
        None
    }
}

/// The move that a word in coordinate notation such as `e2e4` or `a7a8q`
/// names, read from its first four characters.
pub open spec fn move_named(w: Seq<char>) -> Option<BestMove> {
    if w.len() < 4 {
        None
    } else {
        match (square_named(w[0], w[1]), square_named(w[2], w[3])) {
            (Some(from), Some(to)) => Some(BestMove { from, to }),
            _ => None,
        }
    }
}

pub fn parse_square(f: char, r: char) -> (s: Option<Square>)
    ensures
        s == square_named(f, r),
{
    if 'a' <= f && f <= 'h' && '1' <= r && r <= '8' {
        Some(Square { file: (f as u32 - 'a' as u32) as u8, rank: (r as u32 - '1' as u32) as u8 })
    } else {
        None
    }
}

pub fn parse_move_text(w: &str) -> (m: Option<BestMove>)
    ensures
        m == move_named(w@),
{
    if w.unicode_len() < 4 {
        return None;
    }
    let from = parse_square(w.get_char(0), w.get_char(1));
    let to = parse_square(w.get_char(2), w.get_char(3));
    match (from, to) {
        (Some(from), Some(to)) => Some(BestMove { from, to }),
        _ => None,
    }
}

/// A line that reports search progress: it names a depth, a score and a
/// principal variation.
pub open spec fn is_progress_line(l: Seq<char>) -> bool {
    contains_text(l, "info depth"@) && contains_text(l, "score"@) && contains_text(l, "pv "@)
}

/// The depth that a progress line reports: the number after the first
/// `depth `, which a space must end.
pub open spec fn depth_in(l: Seq<char>) -> Option<int> {
    match text_after(l, "depth "@) {
        Some(rest) => match find_first(rest, " "@) {
            Some(j) => u8_value(rest.subrange(0, j)),
            None => None,
        },
        None => None,
    }
}

/// The score that a progress line reports, in centipawns for the side given
/// as the one to move being white: positive favours white. A mate score
/// counts as 1000, signed for the side that mates.
pub open spec fn score_in(l: Seq<char>, is_white_move: bool) -> Option<int> {
    if contains_text(l, "score cp "@) {
        match i32_value(word_at(text_after(l, "score cp "@)->0, 0)) {
            Some(v) => Some(if is_white_move { v } else { -v }),
            None => None,
        }
    } else if contains_text(l, "score mate "@) {
        match i32_value(word_at(text_after(l, "score mate "@)->0, 0)) {
            Some(m) => {
                let s = if m > 0 { 1000 } else { -1000 };
                Some(if is_white_move { s } else { -s })
            },
            None => None,
        }
    } else {
        None
    }
}

/// The first move of the principal variation that a progress line reports.
pub open spec fn pv_move_in(l: Seq<char>) -> Option<BestMove> {
    match find_first(l, " pv "@) {
        Some(i) => {
            let w = word_at(l.subrange(i + 3, l.len() as int), 0);
            if 4 <= w.len() <= 5 {
                move_named(w)
            } else {
                None
            }
        },
        None => None,
    }
}

/// A line that ends the search with its result.
pub open spec fn is_result_line(l: Seq<char>) -> bool {
    contains_text(l, "bestmove"@)
}

/// The second word of a line.
pub open spec fn second_word(l: Seq<char>) -> Seq<char> {
    word_at(l, word_end(l, skip_spaces(l, 0)))
}

/// The move that a result line gives; none where it says `(none)`.
pub open spec fn result_move_in(l: Seq<char>) -> Option<BestMove> {
    let w = second_word(l);
    if w.len() >= 4 && !contains_text(w, "(none)"@) {
        move_named(w)
    } else {
        None
    }
}

/// The score published for a progress line is the engine's raw score when
/// white is to move and its negation when black is to move, so the same line
/// read for the two sides gives opposite values.
pub proof fn score_sign_convention(l: Seq<char>)
    ensures
        score_in(l, true) is Some <==> score_in(l, false) is Some,
        score_in(l, true) matches Some(v) ==> score_in(l, false) == Some(-v),
{
}

pub fn is_progress(l: &str) -> (r: bool)
    ensures
        r == is_progress_line(l@),
{
    contains(l, "info depth") && contains(l, "score") && contains(l, "pv ")
}

pub fn is_result(l: &str) -> (r: bool)
    ensures
        r == is_result_line(l@),
{
    contains(l, "bestmove")
}

pub fn parse_depth(l: &str) -> (r: Option<u8>)
    ensures
        r matches Some(d) ==> depth_in(l@) == Some(d as int),
        r is None ==> depth_in(l@) is None,
{
    match after_text(l, "depth ") {
        Some(rest) => match find_text(rest, " ") {
            Some(j) => {
                proof {
                    crate::text::lemma_find_from_some(rest@, " "@, 0);
                }
                parse_u8(rest.substring_char(0, j))
            },
            None => None,
        },
        None => None,
    }
}

pub fn parse_score(l: &str, is_white_move: bool) -> (r: Option<i64>)
    ensures
        r matches Some(v) ==> score_in(l@, is_white_move) == Some(v as int),
        r is None ==> score_in(l@, is_white_move) is None,
{
    if contains(l, "score cp ") {
        let rest = after_text(l, "score cp ");
        match rest {
            Some(rest) => match parse_i32(first_word(rest)) {
                Some(v) => Some(if is_white_move { v as i64 } else { -(v as i64) }),
                None => None,
            },
            None => None,
        }
    } else if contains(l, "score mate ") {
        let rest = after_text(l, "score mate ");
        match rest {
            Some(rest) => match parse_i32(first_word(rest)) {
                Some(m) => {
                    let s: i64 = if m > 0 { 1000 } else { -1000 };
                    Some(if is_white_move { s } else { -s })
                },
                None => None,
            },
            None => None,
        }
    } else {
        None
    }
}

pub fn parse_pv_move(l: &str) -> (r: Option<BestMove>)
    ensures
        r == pv_move_in(l@),
{
    match find_text(l, " pv ") {
        Some(i) => {
            proof {
                crate::text::lemma_find_from_some(l@, " pv "@, 0);
                reveal_strlit(" pv ");
            }
            let n = l.unicode_len();
            let w = first_word(l.substring_char(i + 3, n));
            let len = w.unicode_len();
            if 4 <= len && len <= 5 {
                parse_move_text(w)
            } else {
                None
            }
        },
        None => None,
    }
}

pub fn parse_result_move(l: &str) -> (r: Option<BestMove>)
    ensures
        r == result_move_in(l@),
{
    let (_, first_end) = word_bounds(l, 0);
    let (a, b) = word_bounds(l, first_end);
    let w = l.substring_char(a, b);
    if w.unicode_len() >= 4 && !contains(w, "(none)") {
        parse_move_text(w)
    } else {
        None
    }
}

/// The search depth used when neither a depth nor a time is given.
pub const DEFAULT_DEPTH: u64 = 20;

/// The decimal digit `d` as text.
pub open spec fn digit_text(d: int) -> Seq<char> {
    "0123456789"@.subrange(d, d + 1)
}

/// `n` written in decimal, without leading zeros.
pub open spec fn decimal_text(n: nat) -> Seq<char>
    decreases n,
{
    if n < 10 {
        digit_text(n as int)
    } else {
        decimal_text(n / 10) + digit_text((n % 10) as int)
    }
}

/// Writes `n` in decimal.
pub fn decimal(n: u64) -> (r: String)
    ensures
        r@ == decimal_text(n as nat),
    decreases n,
{
    proof {
        reveal_strlit("0123456789");
    }
    let digits = "0123456789";
    let last = (n % 10) as usize;
    let d = String::from_str(digits.substring_char(last, last + 1));
    if n < 10 {
        d
    } else {
        let head = decimal(n / 10);
        head.concat(d.as_str())
    }
}

/// The command that starts a search: to a fixed depth when one is given,
/// else for a fixed time in milliseconds when one is given, else to the
/// default depth.
pub open spec fn go_text(depth: Option<u8>, time_ms: Option<u64>) -> Seq<char> {
    match depth {
        Some(d) => "go depth "@ + decimal_text(d as nat),
        None => match time_ms {
            Some(t) => "go movetime "@ + decimal_text(t as nat),
            None => "go depth "@ + decimal_text(DEFAULT_DEPTH as nat),
        },
    }
}

pub fn go_command(depth: Option<u8>, time_ms: Option<u64>) -> (r: String)
    ensures
        r@ == go_text(depth, time_ms),
{
    match depth {
        Some(d) => String::from_str("go depth ").concat(decimal(d as u64).as_str()),
        None => match time_ms {
            Some(t) => String::from_str("go movetime ").concat(decimal(t).as_str()),
            None => String::from_str("go depth ").concat(decimal(DEFAULT_DEPTH).as_str()),
        },
    }
}

/// The command that sets the position to search, given in FEN.
pub fn position_command(fen: &str) -> (r: String)
    ensures
        r@ == "position fen "@ + fen@,
{
    String::from_str("position fen ").concat(fen)
}

/// The command that sets an engine option.
pub fn option_command(name: &str, value: &str) -> (r: String)
    ensures
        r@ == "setoption name "@ + name@ + " value "@ + value@,
{
    String::from_str("setoption name ").concat(name).concat(" value ").concat(value)
}

/// Whether a FEN string gives white as the side to move: its second field is `w`.
pub fn fen_white_to_move(fen: &str) -> (r: bool)
    ensures
        r == (second_word(fen@) == "w"@),
{
    let (_, first_end) = word_bounds(fen, 0);
    let (a, b) = word_bounds(fen, first_end);
    let w = String::from_str(fen.substring_char(a, b));
    let white = String::from_str("w");
    w == white
}

/// One step of the startup handshake.
#[derive(Clone, Debug)]
pub enum HandshakeStep {
    /// Write this command.
    Send(String),
    /// Wait for a line holding this token.
    Await(String),
}

/// A handshake step as text: whether it waits, and its command or token.
pub open spec fn step_view(s: HandshakeStep) -> (bool, Seq<char>) {
    match s {
        HandshakeStep::Send(c) => (false, c@),
        HandshakeStep::Await(t) => (true, t@),
    }
}

/// The startup handshake: announce the protocol and wait for its
/// acknowledgement, set the thread count, hash size and a single principal
/// variation, start a new game and wait until ready, set the starting
/// position and wait until ready again.
pub open spec fn handshake_text(threads: Seq<char>, hash: Seq<char>) -> Seq<(bool, Seq<char>)> {
    seq![
        (false, "uci"@),
        (true, "uciok"@),
        (false, "setoption name "@ + "Threads"@ + " value "@ + threads),
        (false, "setoption name "@ + "Hash"@ + " value "@ + hash),
        (false, "setoption name "@ + "MultiPV"@ + " value "@ + "1"@),
        (false, "ucinewgame"@),
        (false, "isready"@),
        (true, "readyok"@),
        (false, "position startpos"@),
        (false, "isready"@),
        (true, "readyok"@),
    ]
}

/// The steps of the startup handshake, in order.
pub fn handshake_steps(threads: &str, hash: &str) -> (r: Vec<HandshakeStep>)
    ensures
        r@.map_values(|s: HandshakeStep| step_view(s)) == handshake_text(threads@, hash@),
{
    let mut r: Vec<HandshakeStep> = Vec::new();
    r.push(HandshakeStep::Send(String::from_str("uci")));
    r.push(HandshakeStep::Await(String::from_str("uciok")));
    r.push(HandshakeStep::Send(option_command("Threads", threads)));
    r.push(HandshakeStep::Send(option_command("Hash", hash)));
    r.push(HandshakeStep::Send(option_command("MultiPV", "1")));
    r.push(HandshakeStep::Send(String::from_str("ucinewgame")));
    r.push(HandshakeStep::Send(String::from_str("isready")));
    r.push(HandshakeStep::Await(String::from_str("readyok")));
    r.push(HandshakeStep::Send(String::from_str("position startpos")));
    r.push(HandshakeStep::Send(String::from_str("isready")));
    r.push(HandshakeStep::Await(String::from_str("readyok")));
    assert(r@.map_values(|s: HandshakeStep| step_view(s)) =~= handshake_text(threads@, hash@));
    r
}

} // verus!
