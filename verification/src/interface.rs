//! Pure logic of the terminal interface: the input line buffer, the effect
//! of key events on it, cursor placement arithmetic, and the completion
//! cycling state. Reading raw events and drawing to the screen are the
//! surrounding application's work; it converts the terminal's events into
//! [`Event`] values and renders the buffer this module maintains.

use vstd::prelude::*;
use vstd::string::StrSliceExecFns;
use crate::text::chars_to_string;

verus! {

/// A key event of the terminal, as far as the interface logic reads it.
#[derive(Clone, Copy, PartialEq, Eq, Structural, Debug)]
pub enum Key {
    Left,
    Right,
    Up,
    Down,
    Backspace,
    Delete,
    Enter,
    Escape,
    Tab,
    Char(char),
    Ctrl(char),
}

/// A signal event of the terminal.
#[derive(Clone, Copy, PartialEq, Eq, Structural, Debug)]
pub enum Signal {
    Interrupt,
}

/// One terminal event.
#[derive(Clone, Copy, PartialEq, Eq, Structural, Debug)]
pub enum Event {
    Key(Key),
    Signal(Signal),
    NoEvent,
}

/// Mathematical image of an [`InputBuffer`].
pub ghost struct InputBufferV {
    pub chars: Seq<char>,
    pub pos: nat,
}

/// The line being edited: its characters and the cursor's character
/// position within them.
pub struct InputBuffer {
    buf: Vec<char>,
    pos: usize,
}

impl View for InputBuffer {
    type V = InputBufferV;

    closed spec fn view(&self) -> InputBufferV {
        InputBufferV { chars: self.buf@, pos: self.pos as nat }
    }
}

/// The buffer after truncation to at most `n` characters: the cursor is
/// pulled back onto the remaining text.
pub open spec fn buf_truncated(b: InputBufferV, n: nat) -> InputBufferV {
    let chars = if n <= b.chars.len() { b.chars.take(n as int) } else { b.chars };
    InputBufferV { chars, pos: if b.pos <= chars.len() { b.pos } else { chars.len() } }
}

/// The buffer after inserting `s` at the cursor.
pub open spec fn buf_inserted(b: InputBufferV, s: Seq<char>) -> InputBufferV {
    InputBufferV {
        chars: b.chars.take(b.pos as int) + s + b.chars.skip(b.pos as int),
        pos: b.pos + s.len(),
    }
}

impl InputBuffer {
    /// The cursor sits within the text.
    pub open spec fn wf(&self) -> bool {
        self@.pos <= self@.chars.len()
    }

    /// An empty buffer.
    pub fn new() -> (r: InputBuffer)
        ensures
            r@.chars == Seq::<char>::empty(),
            r@.pos == 0,
            r.wf(),
    {
        let r = InputBuffer { buf: Vec::new(), pos: 0 };
        proof {
            assert(r@.chars =~= Seq::<char>::empty());
        }
        r
    }

    /// The buffered text.
    pub fn buffer(&self) -> (r: String)
        ensures
            r@ == self@.chars,
    {
        chars_to_string(&self.buf)
    }

    /// Character index of the cursor.
    pub fn ch_pos(&self) -> (r: usize)
        ensures
            r == self@.pos,
    {
        self.pos
    }

    /// Number of characters.
    pub fn ch_len(&self) -> (r: usize)
        ensures
            r == self@.chars.len(),
    {
        self.buf.len()
    }

    /// Empty the buffer and reset the cursor.
    pub fn clear(&mut self)
        ensures
            final(self)@.chars == Seq::<char>::empty(),
            final(self)@.pos == 0,
            final(self).wf(),
    {
        self.buf.clear();
        self.pos = 0;
        proof {
            assert(self@.chars =~= Seq::<char>::empty());
        }
    }

    /// Insert a character at the cursor and advance over it.
    pub fn insert(&mut self, ch: char)
        requires
            old(self).wf(),
        ensures
            final(self)@.chars == old(self)@.chars.insert(old(self)@.pos as int, ch),
            final(self)@.pos == old(self)@.pos + 1,
            final(self).wf(),
    {
        self.buf.insert(self.pos, ch);
        let n = self.buf.len();
        assert(self.pos < n);
        self.pos += 1;
    }

    /// Insert a string at the cursor and advance over it.
    pub fn insert_str(&mut self, s: &str)
        requires
            old(self).wf(),
        ensures
            final(self)@ == buf_inserted(old(self)@, s@),
            final(self).wf(),
    {
        let ghost b0 = self@;
        let n = s.unicode_len();
        let mut i: usize = 0;
        while i < n
            invariant
                i <= n,
                n == s@.len(),
                self.wf(),
                self@.chars =~= b0.chars.take(b0.pos as int) + s@.take(i as int)
                    + b0.chars.skip(b0.pos as int),
                self@.pos == b0.pos + i,
                b0.pos <= b0.chars.len(),
            decreases n - i,
        {
            let c = s.get_char(i);
            self.insert(c);
            proof {
                assert(self@.chars =~= b0.chars.take(b0.pos as int) + s@.take(i as int + 1)
                    + b0.chars.skip(b0.pos as int));
            }
            i += 1;
        }
        proof {
            assert(s@.take(n as int) =~= s@);
            assert(self@.chars =~= buf_inserted(b0, s@).chars);
        }
    }

    /// Remove the character before the cursor, if any.
    pub fn backspace(&mut self)
        requires
            old(self).wf(),
        ensures
            old(self)@.pos > 0 ==> final(self)@.chars
                == old(self)@.chars.remove(old(self)@.pos - 1)
                && final(self)@.pos == old(self)@.pos - 1,
            old(self)@.pos == 0 ==> final(self)@ == old(self)@,
            final(self).wf(),
    {
        if self.pos > 0 {
            self.pos -= 1;
            self.buf.remove(self.pos);
        }
    }

    /// Remove the character under the cursor, if any.
    pub fn delete(&mut self)
        requires
            old(self).wf(),
        ensures
            old(self)@.pos < old(self)@.chars.len() ==> final(self)@.chars
                == old(self)@.chars.remove(old(self)@.pos as int)
                && final(self)@.pos == old(self)@.pos,
            old(self)@.pos >= old(self)@.chars.len() ==> final(self)@ == old(self)@,
            final(self).wf(),
    {
        if self.pos < self.buf.len() {
            self.buf.remove(self.pos);
        }
    }

    /// Move the cursor left by at most `n`; the number moved.
    pub fn move_pos_left(&mut self, n: usize) -> (moved: usize)
        requires
            old(self).wf(),
        ensures
            moved == if old(self)@.pos < n { old(self)@.pos } else { n as nat },
            final(self)@.pos == old(self)@.pos - moved,
            final(self)@.chars == old(self)@.chars,
            final(self).wf(),
    {
        let n = if self.pos < n { self.pos } else { n };
        self.pos -= n;
        n
    }

    /// Move the cursor right by at most `n`; the number moved.
    pub fn move_pos_right(&mut self, n: usize) -> (moved: usize)
        requires
            old(self).wf(),
        ensures
            moved == if n > old(self)@.chars.len() - old(self)@.pos {
                old(self)@.chars.len() - old(self)@.pos
            } else {
                n as int
            },
            final(self)@.pos == old(self)@.pos + moved,
            final(self)@.chars == old(self)@.chars,
            final(self).wf(),
    {
        let max = self.buf.len() - self.pos;
        let n = if n > max { max } else { n };
        self.pos += n;
        n
    }

    /// Keep only the first `ch_pos` characters, pulling the cursor back onto
    /// the text if it fell beyond it.
    pub fn truncate(&mut self, ch_pos: usize)
        requires
            old(self).wf(),
        ensures
            final(self)@ == buf_truncated(old(self)@, ch_pos as nat),
            final(self).wf(),
    {
        self.buf.truncate(ch_pos);
        if self.pos > self.buf.len() {
            self.pos = self.buf.len();
        }
    }
}

/// One completion candidate: the text to complete with, and the character
/// position in the input buffer where it is to be spliced in.
pub struct CItem {
    /// The completed text.
    pub matchstr: String,
    /// Character position of the input buffer the completion starts at.
    pub input_chpos: usize,
}

/// Mathematical image of a [`CItem`].
pub ghost struct CItemV {
    pub matchstr: Seq<char>,
    pub input_chpos: nat,
}

impl View for CItem {
    type V = CItemV;

    open spec fn view(&self) -> CItemV {
        CItemV { matchstr: self.matchstr@, input_chpos: self.input_chpos as nat }
    }
}

/// Mathematical image of a [`CompletionWriter`].
pub ghost struct CompletionWriterV {
    pub input_line: Seq<char>,
    pub completions: Seq<CItemV>,
    pub completion_idx: nat,
}

/// The completion cycling state: the candidates for the line being edited,
/// which one is currently shown, and the line the last shown completion
/// produced (so a repeated completion request cycles instead of restarting).
pub struct CompletionWriter {
    input_line: String,
    completions: Vec<CItem>,
    completion_idx: usize,
}

impl View for CompletionWriter {
    type V = CompletionWriterV;

    closed spec fn view(&self) -> CompletionWriterV {
        CompletionWriterV {
            input_line: self.input_line@,
            completions: self.completions@.map_values(|c: CItem| c@),
            completion_idx: self.completion_idx as nat,
        }
    }
}

impl CompletionWriter {
    /// The shown index stays within (or just past) the candidates.
    pub open spec fn wf(&self) -> bool {
        self@.completion_idx <= self@.completions.len()
    }

    /// No candidates, no remembered line.
    pub fn new() -> (r: CompletionWriter)
        ensures
            r@.input_line == Seq::<char>::empty(),
            r@.completions == Seq::<CItemV>::empty(),
            r@.completion_idx == 0,
            r.wf(),
    {
        let r = CompletionWriter {
            input_line: String::new(),
            completions: Vec::new(),
            completion_idx: 0,
        };
        proof {
            assert(r@.completions =~= Seq::<CItemV>::empty());
        }
        r
    }

    /// Whether `line` is the line the last shown completion produced.
    pub fn is_same_input(&self, line: &str) -> (r: bool)
        ensures
            r == (self@.input_line == line@),
    {
        crate::text::str_eq(self.input_line.as_str(), line)
    }

    /// Step to the next candidate, wrapping around at the end.
    pub fn next_completion(&mut self)
        requires
            old(self).wf(),
        ensures
            final(self)@.completion_idx == if old(self)@.completion_idx + 1
                >= old(self)@.completions.len() {
                0
            } else {
                old(self)@.completion_idx + 1
            },
            final(self)@.input_line == old(self)@.input_line,
            final(self)@.completions == old(self)@.completions,
            final(self).wf(),
    {
        let idx = self.completion_idx;
        let new_idx = if idx >= self.completions.len() {
            0
        } else if idx + 1 >= self.completions.len() {
            0
        } else {
            idx + 1
        };
        self.completion_idx = new_idx;
    }

    /// Replace the candidates and start showing the first.
    pub fn new_completions(&mut self, completions: Vec<CItem>)
        ensures
            final(self)@.completions == completions@.map_values(|c: CItem| c@),
            final(self)@.completion_idx == 0,
            final(self)@.input_line == old(self)@.input_line,
            final(self).wf(),
    {
        self.completions = completions;
        self.completion_idx = 0;
    }

    /// Splice the currently shown candidate into the buffer, remembering the
    /// line it produces; hands back whether a candidate was applied, so the
    /// caller knows to redraw the line.
    pub fn overwrite_completion(&mut self, buf: &mut InputBuffer) -> (applied: bool)
        requires
            old(self).wf(),
            old(buf).wf(),
        ensures
            final(self).wf(),
            final(buf).wf(),
            ({
                let s0 = old(self)@;
                if s0.completion_idx < s0.completions.len() {
                    let c = s0.completions[s0.completion_idx as int];
                    applied && final(buf)@ == buf_inserted(
                        buf_truncated(old(buf)@, c.input_chpos),
                        c.matchstr,
                    ) && final(self)@ == (CompletionWriterV {
                        input_line: final(buf)@.chars,
                        ..s0
                    })
                } else {
                    !applied && final(buf)@ == old(buf)@ && final(self)@ == s0
                }
            }),
    {
        if self.completion_idx < self.completions.len() {
            let chpos = self.completions[self.completion_idx].input_chpos;
            buf.truncate(chpos);
            let idx = self.completion_idx;
            buf.insert_str(self.completions[idx].matchstr.as_str());
            self.input_line = buf.buffer();
            true
        } else {
            false
        }
    }
}

/// Whether an event edits the buffered text (so the line must be redrawn).
pub open spec fn event_changes_text(ev: Event) -> bool {
    ev == Event::Key(Key::Backspace) || ev == Event::Key(Key::Delete)
        || (ev matches Event::Key(Key::Char(_)))
}

/// The buffer an event leaves behind: arrows move the cursor by one,
/// backspace and delete remove around it, a plain character is inserted at
/// it, and every other event leaves the buffer alone.
pub open spec fn buf_after_event(b: InputBufferV, ev: Event) -> InputBufferV {
    match ev {
        Event::Key(Key::Left) => InputBufferV {
            chars: b.chars,
            pos: if b.pos < 1 { 0 } else { (b.pos - 1) as nat },
        },
        Event::Key(Key::Right) => InputBufferV {
            chars: b.chars,
            pos: if b.pos + 1 > b.chars.len() { b.chars.len() } else { b.pos + 1 },
        },
        Event::Key(Key::Backspace) => if b.pos > 0 {
            InputBufferV { chars: b.chars.remove(b.pos - 1), pos: (b.pos - 1) as nat }
        } else {
            b
        },
        Event::Key(Key::Delete) => if b.pos < b.chars.len() {
            InputBufferV { chars: b.chars.remove(b.pos as int), pos: b.pos }
        } else {
            b
        },
        Event::Key(Key::Char(c)) => InputBufferV {
            chars: b.chars.insert(b.pos as int, c),
            pos: b.pos + 1,
        },
        _ => b,
    }
}

/// Apply one event to the buffer; the flag says whether the text changed.
pub fn apply_event_to_buf(buf: InputBuffer, event: Event) -> (r: (InputBuffer, bool))
    requires
        buf.wf(),
    ensures
        r.0@ == buf_after_event(buf@, event),
        r.0.wf(),
        r.1 == event_changes_text(event),
{
    let mut buf = buf;
    let chg = match event {
        Event::Key(Key::Left) => {
            buf.move_pos_left(1);
            false
        },
        Event::Key(Key::Right) => {
            buf.move_pos_right(1);
            false
        },
        Event::Key(Key::Backspace) => {
            buf.backspace();
            true
        },
        Event::Key(Key::Delete) => {
            buf.delete();
            true
        },
        Event::Key(Key::Char(c)) => {
            buf.insert(c);
            true
        },
        _ => false,
    };
    (buf, chg)
}

/// The arrow key that a two-event escape sequence stands for, if any.
pub open spec fn escaped_key(first: Event, second: Event) -> Option<Event> {
    if first == Event::Key(Key::Char('[')) {
        if second == Event::Key(Key::Char('A')) {
            Option::Some(Event::Key(Key::Up))
        } else if second == Event::Key(Key::Char('B')) {
            Option::Some(Event::Key(Key::Down))
        } else if second == Event::Key(Key::Char('C')) {
            Option::Some(Event::Key(Key::Right))
        } else if second == Event::Key(Key::Char('D')) {
            Option::Some(Event::Key(Key::Left))
        } else {
            Option::None
        }
    } else {
        Option::None
    }
}

/// Recognise the arrow-key escape sequences that escaped terminals send.
pub fn pat_match_escaped_keys(first: Event, second: Event) -> (r: Option<Event>)
    ensures
        r == escaped_key(first, second),
{
    match (first, second) {
        (Event::Key(Key::Char('[')), Event::Key(Key::Char('A'))) => Option::Some(
            Event::Key(Key::Up),
        ),
        (Event::Key(Key::Char('[')), Event::Key(Key::Char('B'))) => Option::Some(
            Event::Key(Key::Down),
        ),
        (Event::Key(Key::Char('[')), Event::Key(Key::Char('C'))) => Option::Some(
            Event::Key(Key::Right),
        ),
        (Event::Key(Key::Char('[')), Event::Key(Key::Char('D'))) => Option::Some(
            Event::Key(Key::Left),
        ),
        _ => Option::None,
    }
}

/// The event a raw read resolves to: an escape may be the prelude of an
/// arrow-key sequence, whose two follower events are read under a short
/// timeout; control-c becomes an interrupt signal.
pub open spec fn resolved_event(ev: Event, followers: Option<(Event, Event)>) -> Event {
    if ev == Event::Key(Key::Escape) {
        match followers {
            Option::Some((f, s)) => match escaped_key(f, s) {
                Option::Some(e) => e,
                Option::None => Event::Key(Key::Escape),
            },
            Option::None => Event::Key(Key::Escape),
        }
    } else if ev == Event::Key(Key::Ctrl('c')) {
        Event::Signal(Signal::Interrupt)
    } else {
        ev
    }
}

/// Post-process one raw event, given the two follower events that arrived
/// in time after an escape (if any).
pub fn resolve_event(ev: Event, followers: Option<(Event, Event)>) -> (r: Event)
    ensures
        r == resolved_event(ev, followers),
{
    if ev == Event::Key(Key::Escape) {
        match followers {
            Option::Some((f, s)) => match pat_match_escaped_keys(f, s) {
                Option::Some(e) => e,
                Option::None => Event::Key(Key::Escape),
            },
            Option::None => Event::Key(Key::Escape),
        }
    } else if ev == Event::Key(Key::Ctrl('c')) {
        Event::Signal(Signal::Interrupt)
    } else {
        ev
    }
}

/// Where the cursor lands after `ch_pos` characters starting from `initial`
/// on a screen `width` columns wide: wrapped lines start at column zero.
pub fn cursor_position(initial: (u16, u16), width: u16, ch_pos: usize) -> (r: (u16, u16))
    requires
        width > 0,
        ch_pos + initial.0 <= usize::MAX,
        initial.1 + (initial.0 + ch_pos) / (width as int) <= u16::MAX,
    ensures
        r.0 == (initial.0 + ch_pos) % (width as int),
        r.1 == initial.1 + (initial.0 + ch_pos) / (width as int),
{
    let total: usize = initial.0 as usize + ch_pos;
    let x = (total % width as usize) as u16;
    let y = initial.1 + (total / width as usize) as u16;
    (x, y)
}

/// The buffer left behind by a sequence of applied events, in order.
pub open spec fn buf_after_events(b: InputBufferV, evs: Seq<Event>) -> InputBufferV
    decreases evs.len(),
{
    if evs.len() == 0 {
        b
    } else {
        buf_after_event(buf_after_events(b, evs.drop_last()), evs.last())
    }
}

/// Feeding events into a buffer is deterministic and compositional: the
/// buffer after a sequence of applied events is the left fold of the event
/// transition, so equal starting buffers fed equal event sequences end up
/// equal, and the edit committed by each event persists through all later
/// ones. One loop iteration — [`read_until_step`] on a non-stop event —
/// extends the fold by exactly one application.
pub proof fn lemma_events_fold(
    b1: InputBufferV,
    b2: InputBufferV,
    evs1: Seq<Event>,
    evs2: Seq<Event>,
    e: Event,
)
    requires
        b1 == b2,
        evs1 == evs2,
    ensures
        buf_after_events(b1, evs1) == buf_after_events(b2, evs2),
        buf_after_events(b1, evs1.push(e)) == buf_after_event(buf_after_events(b1, evs1), e),
{
    assert(evs1.push(e).drop_last() =~= evs1);
    assert(evs1.push(e).last() == e);
}

/// One step of reading events until a stop event arrives.
pub enum EventStep {
    /// The event was one of the stops; the buffer is handed back untouched.
    Stop(InputBuffer),
    /// The event was applied; the flag says whether the text changed and the
    /// line must be redrawn.
    Applied(InputBuffer, bool),
}

/// Feed one resolved event into the buffer, unless it is one of the events
/// read-until stops at.
pub fn read_until_step(buf: InputBuffer, ev: Event, stops: &Vec<Event>) -> (r: EventStep)
    requires
        buf.wf(),
    ensures
        stops@.contains(ev) ==> (r matches EventStep::Stop(b) && b@ == buf@),
        !stops@.contains(ev) ==> (r matches EventStep::Applied(b, chg)
            && b@ == buf_after_event(buf@, ev) && b.wf() && chg == event_changes_text(ev)),
{
    let mut k: usize = 0;
    while k < stops.len()
        invariant
            k <= stops.len(),
            buf.wf(),
            forall|j: int| 0 <= j < k ==> stops@[j] != ev,
        decreases stops.len() - k,
    {
        if stops[k] == ev {
            assert(stops@[k as int] == ev);
            return EventStep::Stop(buf);
        }
        k += 1;
    }
    assert(!stops@.contains(ev));
    let (buf, chg) = apply_event_to_buf(buf, ev);
    EventStep::Applied(buf, chg)
}

} // verus!
