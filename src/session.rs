use vstd::prelude::*;

use crate::invocation::{lines_payload, texts};

verus! {

/// What the runner of a piped-stdin process does next.
#[derive(Clone, Debug)]
pub enum PipedStep {
    /// Write this text (one input line and its newline) to standard input.
    WriteLine(String),
    /// Close standard input to signal the end of input.
    CloseInput,
    /// Wait for the process to exit and read its output.
    CollectOutput,
}

/// The input side of a process run with piped standard input: the lines to
/// feed, how many were written, and whether the input was closed. Output is
/// read only once every line was written and the input closed.
pub struct PipedSession {
    lines: Vec<String>,
    written: usize,
    input_closed: bool,
    sent: Ghost<Seq<char>>,
}

impl PipedSession {
    /// The lines to feed to the process, in order.
    pub closed spec fn input_lines(&self) -> Seq<Seq<char>> {
        texts(self.lines@)
    }

    /// How many lines were written so far.
    pub closed spec fn lines_written(&self) -> nat {
        self.written as nat
    }

    /// Whether standard input was closed.
    pub closed spec fn is_input_closed(&self) -> bool {
        self.input_closed
    }

    /// All text written to standard input so far.
    pub closed spec fn sent_text(&self) -> Seq<char> {
        self.sent@
    }

    /// Lines are written in order, the text sent is exactly the lines written
    /// so far, and input is closed only after every line was written.
    pub closed spec fn wf(&self) -> bool {
        &&& self.written <= self.lines@.len()
        &&& self.sent@ == lines_payload(texts(self.lines@).take(self.written as int))
        &&& self.input_closed ==> self.written == self.lines@.len()
    }

    /// A session for a freshly spawned process that is to receive `lines`.
    pub fn new(lines: Vec<String>) -> (r: PipedSession)
        ensures
            r.wf(),
            r.input_lines() == texts(lines@),
            r.lines_written() == 0,
            !r.is_input_closed(),
            r.sent_text() == Seq::<char>::empty(),
    {
        let r = PipedSession { lines, written: 0, input_closed: false, sent: Ghost(Seq::empty()) };
        assert(texts(r.lines@).take(0) =~= Seq::<Seq<char>>::empty());
        r
    }

    /// Decides the next step: write the next line while any is left (none
    /// for an empty input), then close the input, then collect the output.
    pub fn next_step(&mut self) -> (s: PipedStep)
        requires
            old(self).wf(),
        ensures
            final(self).wf(),
            final(self).input_lines() == old(self).input_lines(),
            old(self).lines_written() < old(self).input_lines().len() ==> {
                &&& s matches PipedStep::WriteLine(t) && t@ == old(self).input_lines()[old(
                    self,
                ).lines_written() as int] + "\n"@ && final(self).sent_text()
                    == old(self).sent_text() + t@
                &&& final(self).lines_written() == old(self).lines_written() + 1
                &&& !final(self).is_input_closed()
            },
            old(self).lines_written() == old(self).input_lines().len() && !old(
                self,
            ).is_input_closed() ==> {
                &&& s is CloseInput
                &&& final(self).is_input_closed()
                &&& final(self).lines_written() == old(self).lines_written()
                &&& final(self).sent_text() == old(self).sent_text()
            },
            old(self).is_input_closed() ==> {
                &&& s is CollectOutput
                &&& final(self).lines_written() == old(self).lines_written()
                &&& final(self).is_input_closed() == old(self).is_input_closed()
                &&& final(self).sent_text() == old(self).sent_text()
            },
    {
        if self.written < self.lines.len() {
            let mut t = self.lines[self.written].clone();
            t.append("\n");
            let ghost before = texts(self.lines@).take(self.written as int);
            let ghost after = texts(self.lines@).take(self.written as int + 1);
            assert(after.drop_last() =~= before);
            assert(after.last() == self.lines@[self.written as int]@);
            assert(lines_payload(after) == lines_payload(before) + after.last() + "\n"@);
            self.sent = Ghost(self.sent@ + t@);
            assert(self.sent@ =~= lines_payload(after));
            self.written = self.written + 1;
            PipedStep::WriteLine(t)
        } else if !self.input_closed {
            self.input_closed = true;
            PipedStep::CloseInput
        } else {
            PipedStep::CollectOutput
        }
    }
}

/// When a session closes standard input, the process has received exactly
/// its input lines, each followed by a newline, and nothing more.
pub proof fn lemma_closed_input_received_all_lines(s: &PipedSession)
    requires
        s.wf(),
        s.is_input_closed(),
    ensures
        s.sent_text() == lines_payload(s.input_lines()),
        s.lines_written() == s.input_lines().len(),
{
    assert(texts(s.lines@).take(s.lines@.len() as int) =~= texts(s.lines@));
}

} // verus!
