//! A model of the console region the REPL writes into: the lines rendered
//! since the prompt, the last of them being the current line. The
//! surrounding application mirrors each operation onto the real terminal;
//! this module fixes what each operation does to the rendered text.

use vstd::prelude::*;
use vstd::string::StrSliceExecFns;
use vstd::string::StringExecFns;

verus! {

/// One change of the output stream: rewrite the current line, or start a
/// new one.
pub enum OutputChange {
    /// Replace the current console line with this text.
    CurrentLine(String),
    /// Move to a fresh, empty line.
    NewLine,
}

/// The console region being written: its lines, the last one current.
pub struct Writer {
    lines: Vec<String>,
}

impl View for Writer {
    type V = Seq<Seq<char>>;

    closed spec fn view(&self) -> Seq<Seq<char>> {
        self.lines@.map_values(|s: String| s@)
    }
}

impl Writer {
    /// There is always a current line.
    pub open spec fn wf(&self) -> bool {
        self@.len() > 0
    }

    /// A console region holding one empty line.
    pub fn new() -> (r: Writer)
        ensures
            r@ =~= seq![Seq::<char>::empty()],
            r.wf(),
    {
        let mut lines: Vec<String> = Vec::new();
        lines.push(String::new());
        let r = Writer { lines };
        proof {
            assert(r@ =~= seq![Seq::<char>::empty()]);
        }
        r
    }

    /// The rendered lines.
    pub fn lines(&self) -> (r: &Vec<String>)
        ensures
            r@.map_values(|s: String| s@) == self@,
    {
        &self.lines
    }

    /// Move to the first column, clear to the end of the screen, and write
    /// `line`: the current line becomes `line`, nothing stands after it.
    pub fn overwrite_current_console_line(&mut self, line: &str)
        requires
            old(self).wf(),
        ensures
            final(self)@ == old(self)@.take(old(self)@.len() - 1).push(line@),
            final(self).wf(),
    {
        let ghost v0 = self@;
        let last = self.lines.len() - 1;
        self.lines.truncate(last);
        self.lines.push(String::from_str(line));
        proof {
            assert(self@ =~= v0.take(v0.len() - 1).push(line@));
        }
    }

    /// Append text to the current line; the number of characters written.
    pub fn write(&mut self, text: &str) -> (n: usize)
        requires
            old(self).wf(),
        ensures
            final(self)@ == old(self)@.take(old(self)@.len() - 1).push(
                old(self)@.last() + text@,
            ),
            n == text@.len(),
            final(self).wf(),
    {
        let ghost v0 = self@;
        let last = self.lines.len() - 1;
        let mut line = self.lines.remove(last);
        line.append(text);
        self.lines.push(line);
        proof {
            assert(self@ =~= v0.take(v0.len() - 1).push(v0.last() + text@));
        }
        text.unicode_len()
    }

    /// Start a fresh, empty current line.
    pub fn new_line(&mut self)
        requires
            old(self).wf(),
        ensures
            final(self)@ == old(self)@.push(Seq::<char>::empty()),
            final(self).wf(),
    {
        let ghost v0 = self@;
        self.lines.push(String::new());
        proof {
            assert(self@ =~= v0.push(Seq::<char>::empty()));
        }
    }

    /// Apply one output change: erase and rewrite the current line, or move
    /// to a new one.
    pub fn write_output_chg(&mut self, change: OutputChange)
        requires
            old(self).wf(),
        ensures
            (change matches OutputChange::CurrentLine(s) ==> final(self)@
                == old(self)@.take(old(self)@.len() - 1).push(s@)),
            (change is NewLine ==> final(self)@ == old(self)@.push(Seq::<char>::empty())),
            final(self).wf(),
    {
        match change {
            OutputChange::CurrentLine(line) => {
                self.overwrite_current_console_line(line.as_str());
            },
            OutputChange::NewLine => {
                self.new_line();
            },
        }
    }
}

} // verus!
