//! Line assembly for the command connection: bytes arrive in arbitrary
//! chunks and are gathered into newline-terminated lines of bounded length.
//! Parsing the assembled line into a command happens outside this library.

use vstd::prelude::*;

verus! {

/// Longest accepted command line, in bytes; further input is ignored until
/// the line ends.
pub const MAX_LINE_LEN: usize = 64;

/// One byte fed to the reader: the buffer afterwards, and the completed
/// line, if this byte ended one. Carriage return and line feed end a line;
/// an empty line is swallowed; a full buffer ignores further bytes.
pub open spec fn feed_one(buf: Seq<u8>, c: u8) -> (Seq<u8>, Option<Seq<u8>>) {
    if c == 13 || c == 10 {
        if buf.len() > 0 {
            (Seq::empty(), Some(buf))
        } else {
            (buf, None)
        }
    } else if buf.len() < MAX_LINE_LEN {
        (buf.push(c), None)
    } else {
        (buf, None)
    }
}

/// A chunk of bytes fed to the reader: how many bytes were consumed, the
/// first completed line if one was completed, and the buffer afterwards.
/// Feeding stops right after the first completed line.
pub open spec fn feed_chunk(buf: Seq<u8>, input: Seq<u8>) -> (int, Option<Seq<u8>>, Seq<u8>)
    decreases input.len(),
{
    if input.len() == 0 {
        (0, None, buf)
    } else {
        let step = feed_one(buf, input[0]);
        match step.1 {
            Some(line) => (1, Some(line), step.0),
            None => {
                let rest = feed_chunk(step.0, input.skip(1));
                (1 + rest.0, rest.1, rest.2)
            },
        }
    }
}

/// Gathers bytes into newline-terminated lines of at most `MAX_LINE_LEN`
/// bytes.
pub struct LineReader {
    buf: Vec<u8>,
}

impl LineReader {
    /// What the reader holds of the line under assembly.
    pub closed spec fn view_spec(self) -> Seq<u8> {
        self.buf@
    }

    pub closed spec fn wf(self) -> bool {
        self.buf@.len() <= MAX_LINE_LEN
    }

    pub fn new() -> (r: LineReader)
        ensures
            r.wf(),
            r.view_spec() == Seq::<u8>::empty(),
    {
        LineReader { buf: Vec::new() }
    }

    /// Feed one byte; a completed non-empty line is handed out and the
    /// buffer cleared.
    pub fn feed(&mut self, c: u8) -> (line: Option<Vec<u8>>)
        requires
            old(self).wf(),
        ensures
            final(self).wf(),
            ({
                let step = feed_one(old(self).view_spec(), c);
                &&& final(self).view_spec() == step.0
                &&& (match line {
                    None => step.1 is None,
                    Some(l) => step.1 == Some(l@),
                })
            }),
    {
        if c == 13 || c == 10 {
            // Enter
            if self.buf.len() > 0 {
                let mut line: Vec<u8> = Vec::new();
                core::mem::swap(&mut line, &mut self.buf);
                Some(line)
            } else {
                None
            }
        } else if self.buf.len() < MAX_LINE_LEN {
            // Add input
            self.buf.push(c);
            None
        } else {
            // Buffer is full, ignore
            None
        }
    }
}

/// What one feed of session input produced: nothing yet, or one complete
/// line for the command layer to interpret.
pub enum SessionInput {
    Nothing,
    Line(Vec<u8>),
}

/// One client connection's line-assembly state.
pub struct Session {
    reader: LineReader,
}

impl Session {
    pub closed spec fn reader_spec(self) -> Seq<u8> {
        self.reader.view_spec()
    }

    pub closed spec fn wf(self) -> bool {
        self.reader.wf()
    }

    pub fn new() -> (r: Session)
        ensures
            r.wf(),
            r.reader_spec() == Seq::<u8>::empty(),
    {
        Session { reader: LineReader::new() }
    }

    /// Drop any partially assembled line.
    pub fn reset(&mut self)
        ensures
            final(self).wf(),
            final(self).reader_spec() == Seq::<u8>::empty(),
    {
        self.reader = LineReader::new();
    }

    /// Feed a chunk of received bytes: the number of bytes consumed, and
    /// the first completed line, if any. Unconsumed bytes stay with the
    /// caller for the next feed.
    pub fn feed(&mut self, buf: &[u8]) -> (r: (usize, SessionInput))
        requires
            old(self).wf(),
        ensures
            final(self).wf(),
            ({
                let chunk = feed_chunk(old(self).reader_spec(), buf@);
                &&& r.0 == chunk.0
                &&& final(self).reader_spec() == chunk.2
                &&& (match r.1 {
                    SessionInput::Nothing => chunk.1 is None,
                    SessionInput::Line(l) => chunk.1 == Some(l@),
                })
            }),
    {
        let mut i: usize = 0;
        proof {
            assert(buf@.skip(0) =~= buf@);
        }
        while i < buf.len()
            invariant
                i <= buf.len(),
                self.wf(),
                feed_chunk(old(self).reader_spec(), buf@) == ({
                    let rest = feed_chunk(self.reader_spec(), buf@.skip(i as int));
                    (i + rest.0, rest.1, rest.2)
                }),
            decreases buf.len() - i,
        {
            let c: u8 = buf[i];
            proof {
                assert(buf@.skip(i as int)[0] == buf@[i as int]);
                assert(buf@.skip(i as int).skip(1) =~= buf@.skip(i as int + 1));
            }
            let line: Option<Vec<u8>> = self.reader.feed(c);
            i = i + 1;
            if let Some(line) = line {
                return (i, SessionInput::Line(line));
            }
        }
        proof {
            assert(buf@.skip(buf@.len() as int).len() == 0);
        }
        (i, SessionInput::Nothing)
    }
}

} // verus!
