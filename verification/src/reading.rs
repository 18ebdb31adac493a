//! Reading whole texts: lines are processed in order until the text ends or
//! a command asks for another file to be read in first.

use vstd::prelude::*;

use crate::converter::{opt_view, Converter};
use crate::model::{law_command_moves_forward, run_lines};
use crate::text::{
    chars_of, lemma_lines_of_bounds, lines_of, push_all, push_str, split_lines, starts_with,
    views,
};

verus! {

/// A text being read: its lines, the index of the line to go on with, and
/// the file that is to be read in before going on (none once the text has
/// been read to its end).
pub struct TextRun {
    pub lines: Vec<Vec<char>>,
    pub resume: usize,
    pub read_file: Option<Vec<char>>,
}

/// Lines short enough to be processed: a machine limit on the sizes of
/// what is held in memory.
pub open spec fn lines_fit(lines: Seq<Seq<char>>) -> bool {
    &&& lines.len() + 2 < usize::MAX
    &&& forall|j: int| 0 <= j < lines.len() ==> 4 * (#[trigger] lines[j]).len() <= usize::MAX
}

impl TextRun {
    /// Whether the text has been read to its end.
    pub fn is_done(&self) -> (r: bool)
        ensures
            r == (self.read_file is None),
    {
        self.read_file.is_none()
    }
}

impl Converter {
    /// Processes `lines` from index `start` on, until a command asks for
    /// another file (its name and the index to go on with are returned) or
    /// the lines run out (the pending text is then moved to the current node).
    pub fn process_lines(&mut self, lines: &[Vec<char>], start: usize) -> (r: (
        Option<Vec<char>>,
        usize,
    ))
        requires
            lines_fit(views(lines@)),
            old(self)@.in_ignore + lines@.len() < usize::MAX,
        ensures
            ({
                let res = run_lines(old(self)@, views(lines@), start as int);
                &&& final(self)@ == res.state
                &&& opt_view(r.0) == res.read_file
                &&& r.1 == res.resume
            }),
    {
        let ghost ls = views(lines@);
        let ghost in0 = self@.in_ignore;
        let ghost goal = run_lines(self@, ls, start as int);
        let mut i = start;
        while i < lines.len()
            invariant
                ls == views(lines@),
                lines_fit(ls),
                in0 + lines@.len() < usize::MAX,
                self@.in_ignore <= in0 + (if i > start {
                    i - start
                } else {
                    0
                }),
                start <= i,
                i <= lines@.len() + 1 || i == start,
                goal == run_lines(self@, ls, i as int),
                goal == run_lines(old(self)@, ls, start as int),
            decreases lines@.len() + 1 - i,
        {
            let line = lines[i].as_slice();
            assert(ls[i as int] == line@);
            if line.len() > 0 && line[0] == '@' {
                assert(starts_with(line@, seq!['@'])) by {
                    assert(line@.take(1) =~= seq!['@']);
                }
                proof {
                    law_command_moves_forward(self@, line@, ls, i as int);
                }
                let ghost pre = self@;
                let out = self.process_command(line, lines, i);
                match out.read_file {
                    Some(f) => {
                        return (Some(f), out.next);
                    },
                    None => {},
                }
                i = out.next;
            } else {
                assert(!starts_with(line@, seq!['@'])) by {
                    if line@.len() > 0 {
                        assert(line@.take(1)[0] == line@[0]);
                    }
                }
                if self.in_ignore > 0 {
                    i = i + 1;
                } else {
                    let mut t: Vec<char> = Vec::new();
                    push_all(&mut t, line);
                    push_str(&mut t, "\n");
                    self.append_text(t.as_slice());
                    i = i + 1;
                }
            }
        }
        self.flush_text();
        (None, i)
    }

    /// Reads a text: its lines are processed until a command asks for
    /// another file, or to the end of the text.
    pub fn process_text(&mut self, input: &str) -> (run: TextRun)
        requires
            4 * input@.len() + 12 <= usize::MAX,
            old(self)@.in_ignore + input@.len() < usize::MAX,
        ensures
            views(run.lines@) == lines_of(input@),
            ({
                let res = run_lines(old(self)@, lines_of(input@), 0);
                &&& final(self)@ == res.state
                &&& opt_view(run.read_file) == res.read_file
                &&& run.resume == res.resume
            }),
    {
        let cs = chars_of(input);
        let lines = split_lines(cs.as_slice());
        proof {
            lemma_lines_of_bounds(input@);
        }
        let (f, next) = self.process_lines(lines.as_slice(), 0);
        TextRun { lines: lines, resume: next, read_file: f }
    }

    /// Goes on reading a text after the file it asked for has been read in;
    /// a text read to its end is left as it is.
    pub fn resume_text(&mut self, run: TextRun) -> (r: TextRun)
        requires
            lines_fit(views(run.lines@)),
            old(self)@.in_ignore + run.lines@.len() < usize::MAX,
        ensures
            r.lines@ == run.lines@,
            run.read_file is None ==> final(self)@ == old(self)@ && r.read_file is None
                && r.resume == run.resume,
            run.read_file is Some ==> ({
                let res = run_lines(old(self)@, views(run.lines@), run.resume as int);
                &&& final(self)@ == res.state
                &&& opt_view(r.read_file) == res.read_file
                &&& r.resume == res.resume
            }),
    {
        if run.read_file.is_none() {
            return run;
        }
        let (f, next) = self.process_lines(run.lines.as_slice(), run.resume);
        TextRun { lines: run.lines, resume: next, read_file: f }
    }

    /// Reads the text of a file, given as it was read: `None` where it
    /// could not be read, which leaves the converter unchanged.
    pub fn process_file(&mut self, contents: Option<&str>) -> (r: Option<TextRun>)
        requires
            contents matches Some(c) ==> 4 * c@.len() + 12 <= usize::MAX && old(self)@.in_ignore
                + c@.len() < usize::MAX,
        ensures
            contents is None ==> r is None && final(self)@ == old(self)@,
            contents matches Some(c) ==> r matches Some(run) && views(run.lines@) == lines_of(
                c@,
            ) && ({
                let res = run_lines(old(self)@, lines_of(c@), 0);
                &&& final(self)@ == res.state
                &&& opt_view(run.read_file) == res.read_file
                &&& run.resume == res.resume
            }),
    {
        match contents {
            Some(c) => Some(self.process_text(c)),
            None => None,
        }
    }
}

} // verus!
