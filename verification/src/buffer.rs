//! The line being typed.

use vstd::prelude::*;

verus! {

/// `String::push`. Trusted: std appends the character to the end of the
/// string.
pub assume_specification[ String::push ](s: &mut String, c: char)
    ensures
        final(s)@ == old(s)@.push(c),
;

/// The characters of the line in progress, oldest first.
pub struct InputBuffer {
    chars: Vec<char>,
}

impl View for InputBuffer {
    type V = Seq<char>;

    closed spec fn view(&self) -> Seq<char> {
        self.chars@
    }
}

impl InputBuffer {
    /// An empty buffer.
    pub fn new() -> (b: InputBuffer)
        ensures
            b@ == Seq::<char>::empty(),
    {
        InputBuffer { chars: Vec::new() }
    }

    /// The number of characters held.
    pub fn len(&self) -> (n: usize)
        ensures
            n == self@.len(),
    {
        self.chars.len()
    }

    /// Whether no character is held.
    pub fn is_empty(&self) -> (e: bool)
        ensures
            e == (self@.len() == 0),
    {
        self.chars.len() == 0
    }

    /// Adds `c` at the end.
    pub fn push(&mut self, c: char)
        ensures
            final(self)@ == old(self)@.push(c),
    {
        self.chars.push(c);
    }

    /// Removes the last character and returns it; on an empty buffer nothing
    /// changes and `None` is returned.
    pub fn pop(&mut self) -> (c: Option<char>)
        ensures
            old(self)@.len() == 0 ==> c is None && final(self)@ == old(self)@,
            old(self)@.len() > 0 ==> c == Some(old(self)@.last()) && final(self)@ == old(
                self,
            )@.drop_last(),
    {
        self.chars.pop()
    }

    /// A copy of the whole content, as text.
    pub fn snapshot(&self) -> (text: String)
        ensures
            text@ == self@,
    {
        let mut text = String::new();
        let n: usize = self.chars.len();
        let mut i: usize = 0;
        while i < n
            invariant
                n == self.chars@.len(),
                i <= n,
                text@ == self.chars@.take(i as int),
            decreases n - i,
        {
            text.push(self.chars[i]);
            i = i + 1;
            assert(self.chars@.take(i as int) == self.chars@.take(i - 1).push(self.chars@[i - 1]));
        }
        assert(self.chars@.take(n as int) == self.chars@);
        text
    }

    /// Takes the whole content out, as text, and leaves the buffer empty.
    pub fn drain(&mut self) -> (text: String)
        ensures
            text@ == old(self)@,
            final(self)@ == Seq::<char>::empty(),
    {
        let text = self.snapshot();
        self.chars.clear();
        text
    }
}

} // verus!
