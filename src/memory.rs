use vstd::prelude::*;

verus! {

/// One of a child's two output channels.
#[derive(Debug, Clone, Copy, PartialEq, Eq, Structural)]
pub enum Channel {
    Stdout,
    Stderr,
}

/// The remembered lines of both channels: `(stdout, stderr)`.
pub type LinesView = (Option<Seq<char>>, Option<Seq<char>>);

/// The line remembered for `ch`.
pub open spec fn recall(v: LinesView, ch: Channel) -> Option<Seq<char>> {
    match ch {
        Channel::Stdout => v.0,
        Channel::Stderr => v.1,
    }
}

/// `v` with `line` remembered for `ch`; the other channel is kept.
pub open spec fn store(v: LinesView, ch: Channel, line: Seq<char>) -> LinesView {
    match ch {
        Channel::Stdout => (Some(line), v.1),
        Channel::Stderr => (v.0, Some(line)),
    }
}

/// The most recent line seen on each channel, kept across iterations.
pub struct LastLines {
    pub last_stdout: Option<String>,
    pub last_stderr: Option<String>,
}

pub open spec fn opt_view(o: Option<String>) -> Option<Seq<char>> {
    match o {
        Some(s) => Some(s@),
        None => None,
    }
}

impl View for LastLines {
    type V = LinesView;

    open spec fn view(&self) -> LinesView {
        (opt_view(self.last_stdout), opt_view(self.last_stderr))
    }
}

impl LastLines {
    pub fn new() -> (r: LastLines)
        ensures
            r@ == (None::<Seq<char>>, None::<Seq<char>>),
    {
        LastLines { last_stdout: None, last_stderr: None }
    }

    /// Remembers `line` for `ch` and hands back the line remembered before.
    pub fn remember(&mut self, ch: Channel, line: &str) -> (prev: Option<String>)
        ensures
            opt_view(prev) == recall(old(self)@, ch),
            final(self)@ == store(old(self)@, ch, line@),
    {
        let owned = line.to_owned();
        match ch {
            Channel::Stdout => {
                let prev = self.last_stdout.take();
                self.last_stdout = Some(owned);
                prev
            },
            Channel::Stderr => {
                let prev = self.last_stderr.take();
                self.last_stderr = Some(owned);
                prev
            },
        }
    }
}

/// Feeding `a`, `b`, `c` in turn to one channel leaves `c` remembered, and
/// while `b` is processed the previous line handed back is `a`.
pub proof fn lemma_remember_sequence(v: LinesView, ch: Channel, a: Seq<char>, b: Seq<char>, c: Seq<char>)
    ensures
        recall(store(v, ch, a), ch) == Some(a),
        recall(store(store(store(v, ch, a), ch, b), ch, c), ch) == Some(c),
{
}

} // verus!
