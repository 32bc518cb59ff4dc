//! The terminal's line buffer: the characters typed since the last
//! command, kept until the line is run or erased.  Reading keys,
//! echoing them and dispatching finished command lines are platform
//! glue around this buffer.

use vstd::prelude::*;

verus! {

/// The line being typed.
#[derive(Debug)]
pub struct Terminal {
    buffer: Vec<char>,
}

impl View for Terminal {
    type V = Seq<char>;

    closed spec fn view(&self) -> Seq<char> {
        self.buffer@
    }
}

impl Terminal {
    /// An empty line.
    pub fn new() -> (t: Terminal)
        ensures
            t@ == Seq::<char>::empty(),
    {
        Terminal { buffer: Vec::new() }
    }

    /// Append one typed character.
    pub fn push(&mut self, c: char)
        ensures
            final(self)@ == old(self)@.push(c),
    {
        self.buffer.push(c);
    }

    /// Erase the last character, if any.
    pub fn pop(&mut self)
        ensures
            old(self)@.len() == 0 ==> final(self)@ == old(self)@,
            old(self)@.len() > 0 ==> final(self)@ == old(self)@.drop_last(),
    {
        let popped = self.buffer.pop();
        proof {
            if old(self)@.len() > 0 {
                assert(final(self)@ =~= old(self)@.drop_last());
            }
        }
        let _ = popped;
    }

    /// The line as typed so far.
    pub fn buffer(&self) -> (r: &Vec<char>)
        ensures
            r@ == self@,
    {
        &self.buffer
    }

    /// Erase the whole line.
    pub fn buffer_clear(&mut self)
        ensures
            final(self)@ == Seq::<char>::empty(),
    {
        self.buffer.clear();
    }
}

/// What one decoded unicode key does to the terminal.
#[derive(Debug, Clone, Copy, PartialEq, Eq, Structural)]
pub enum KeyAction {
    /// Erase the last character of the line.
    Backspace,
    /// Run the line as a command and start a new one.
    Run,
    /// Append the character to the line.
    Insert(char),
}

/// Classify a decoded unicode key the way the key handler does: by the
/// low byte of its code point, so backspace (8) erases, newline (10)
/// runs the line, and anything else is typed into it.
pub fn classify_key(character: char) -> (r: KeyAction)
    ensures
        (character as u32) % 256 == 8 ==> r == KeyAction::Backspace,
        (character as u32) % 256 == 10 ==> r == KeyAction::Run,
        (character as u32) % 256 != 8 && (character as u32) % 256 != 10 ==> r
            == KeyAction::Insert(character),
{
    let low: u32 = (character as u32) % 256;
    if low == 8 {
        KeyAction::Backspace
    } else if low == 10 {
        KeyAction::Run
    } else {
        KeyAction::Insert(character)
    }
}

/// Erase the last character of the terminal's line: what the backspace
/// key does.
pub fn backspace(terminal: &mut Terminal)
    ensures
        old(terminal)@.len() == 0 ==> final(terminal)@ == old(terminal)@,
        old(terminal)@.len() > 0 ==> final(terminal)@ == old(terminal)@.drop_last(),
{
    terminal.pop();
}

} // verus!
