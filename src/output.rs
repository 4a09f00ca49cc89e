//! The buffer of lines that the engine has written and nobody has consumed yet.

use vstd::prelude::*;
use crate::session::lines_view;
use crate::text::{contains, contains_text};

verus! {

/// Some line of `b` contains `token`.
pub open spec fn has_line_with(b: Seq<Seq<char>>, token: Seq<char>) -> bool {
    exists|i: int| 0 <= i < b.len() && contains_text(#[trigger] b[i], token)
}

/// A wait for `token` on the buffer `b`: when a line holds it, all buffered
/// lines are handed out and the buffer is emptied; otherwise nothing changes.
pub open spec fn take_response_step(b: Seq<Seq<char>>, token: Seq<char>) -> (
    Option<Seq<Seq<char>>>,
    Seq<Seq<char>>,
) {
    if has_line_with(b, token) {
        (Some(b), Seq::empty())
    } else {
        (None, b)
    }
}

/// What can go wrong while talking to the engine.
#[derive(Clone, Debug)]
pub enum EngineError {
    /// The engine process could not be started.
    ProcessSpawn,
    /// The engine did not write a line holding `token` within `timeout_ms`.
    ProtocolTimeout { token: String, timeout_ms: u64 },
    /// Writing to or reading from the engine failed.
    Io,
}

/// The outcome of one check of a wait for a token.
#[derive(Clone, Debug)]
pub enum WaitPoll {
    /// The token arrived; these are all the lines buffered until then.
    Ready(Vec<String>),
    /// Not yet; check again later.
    Pending,
    /// The time allowed ran out first.
    TimedOut(EngineError),
}

/// The engine's output lines, in the order it wrote them.
pub struct OutputBuffer {
    pub lines: Vec<String>,
}

impl View for OutputBuffer {
    type V = Seq<Seq<char>>;

    open spec fn view(&self) -> Seq<Seq<char>> {
        lines_view(self.lines@)
    }
}

impl OutputBuffer {
    pub fn new() -> (r: OutputBuffer)
        ensures
            r@ == Seq::<Seq<char>>::empty(),
    {
        let r = OutputBuffer { lines: Vec::new() };
        assert(r@ =~= Seq::<Seq<char>>::empty());
        r
    }

    /// Appends a line that the engine wrote.
    pub fn push_line(&mut self, line: String)
        ensures
            final(self)@ == old(self)@.push(line@),
    {
        self.lines.push(line);
        assert(final(self)@ =~= old(self)@.push(line@));
    }

    /// Forgets every buffered line.
    pub fn clear(&mut self)
        ensures
            final(self)@ == Seq::<Seq<char>>::empty(),
    {
        self.lines = Vec::new();
        assert(final(self)@ =~= Seq::<Seq<char>>::empty());
    }

    /// Hands out every buffered line and empties the buffer.
    pub fn get_output(&mut self) -> (r: Vec<String>)
        ensures
            lines_view(r@) == old(self)@,
            final(self)@ == Seq::<Seq<char>>::empty(),
    {
        let mut r: Vec<String> = Vec::new();
        std::mem::swap(&mut self.lines, &mut r);
        assert(final(self)@ =~= Seq::<Seq<char>>::empty());
        r
    }

    /// Whether some buffered line contains `token`.
    pub fn has_token(&self, token: &str) -> (r: bool)
        ensures
            r == has_line_with(self@, token@),
    {
        let mut i: usize = 0;
        while i < self.lines.len()
            invariant
                0 <= i <= self.lines@.len(),
                forall|j: int| 0 <= j < i ==> !contains_text(#[trigger] self@[j], token@),
            decreases self.lines@.len() - i,
        {
            if contains(self.lines[i].as_str(), token) {
                assert(contains_text(self@[i as int], token@));
                return true;
            }
            i = i + 1;
        }
        false
    }

    /// One check of a wait for `token`: when a buffered line contains it,
    /// hands out all buffered lines and empties the buffer, so that no line is
    /// handed out twice; otherwise leaves the buffer as it is.
    pub fn take_response(&mut self, token: &str) -> (r: Option<Vec<String>>)
        ensures
            r matches Some(v) ==> take_response_step(old(self)@, token@).0 == Some(lines_view(v@)),
            r is None ==> take_response_step(old(self)@, token@).0 is None,
            final(self)@ == take_response_step(old(self)@, token@).1,
    {
        if self.has_token(token) {
            Some(self.get_output())
        } else {
            None
        }
    }

    /// One check of a wait for `token` that has run `elapsed_ms` of its
    /// `timeout_ms`: the buffered lines when one holds the token, else a
    /// timeout once the time is spent, else a request to check again. Only
    /// a successful check empties the buffer.
    pub fn wait_step(&mut self, token: &str, elapsed_ms: u64, timeout_ms: u64) -> (r: WaitPoll)
        ensures
            has_line_with(old(self)@, token@) ==> (r matches WaitPoll::Ready(v) && lines_view(v@)
                == old(self)@ && final(self)@ == Seq::<Seq<char>>::empty()),
            !has_line_with(old(self)@, token@) && elapsed_ms >= timeout_ms ==> (r matches WaitPoll::TimedOut(
                EngineError::ProtocolTimeout { token: t, timeout_ms: ms },
            ) && t@ == token@ && ms == timeout_ms && final(self)@ == old(self)@),
            !has_line_with(old(self)@, token@) && elapsed_ms < timeout_ms ==> (r is Pending
                && final(self)@ == old(self)@),
    {
        match self.take_response(token) {
            Some(lines) => WaitPoll::Ready(lines),
            None => {
                if elapsed_ms >= timeout_ms {
                    WaitPoll::TimedOut(
                        EngineError::ProtocolTimeout {
                            token: String::from_str(token),
                            timeout_ms,
                        },
                    )
                } else {
                    WaitPoll::Pending
                }
            },
        }
    }
}

/// Waits never hand a line out twice: after a wait for one token succeeds,
/// a wait for another hands out exactly the lines appended since.
pub proof fn no_redelivery(
    b: Seq<Seq<char>>,
    first: Seq<char>,
    appended: Seq<Seq<char>>,
    second: Seq<char>,
)
    requires
        has_line_with(b, first),
        has_line_with(appended, second),
    ensures
        take_response_step(b, first).0 == Some(b),
        take_response_step(take_response_step(b, first).1 + appended, second).0 == Some(appended),
        take_response_step(take_response_step(b, first).1 + appended, second).1
            == Seq::<Seq<char>>::empty(),
{
    assert(Seq::<Seq<char>>::empty() + appended =~= appended);
}

} // verus!
