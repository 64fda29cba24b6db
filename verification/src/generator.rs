//! The code buffer: an owned string, the minify switch and the indentation level.

use vstd::prelude::*;

verus! {

/// The characters of one level of indentation: four spaces.
pub open spec fn indent_unit() -> Seq<char> {
    seq![' ', ' ', ' ', ' ']
}

/// The indentation of level `d`: `d` times four spaces.
pub open spec fn pad(d: nat) -> Seq<char>
    decreases d,
{
    if d == 0 {
        Seq::empty()
    } else {
        pad((d - 1) as nat) + indent_unit()
    }
}

/// What a line break writes: nothing when minifying, else a newline and the
/// indentation of level `d`.
pub open spec fn newline(minify: bool, d: nat) -> Seq<char> {
    if minify {
        Seq::empty()
    } else {
        seq!['\n'] + pad(d)
    }
}

/// The first text when pretty printing, the second when minifying.
pub open spec fn pick(minify: bool, full: &str, short: &str) -> Seq<char> {
    if minify {
        short@
    } else {
        full@
    }
}

/// Appending `b` and then `c` is appending `b + c`.
pub broadcast proof fn lemma_append_twice(a: Seq<char>, b: Seq<char>, c: Seq<char>)
    ensures
        #[trigger] (a + (b + c)) == (a + b) + c,
{
    assert(a + (b + c) =~= (a + b) + c);
}

/// Appending nothing leaves a text as it is.
pub broadcast proof fn lemma_append_nothing(a: Seq<char>)
    ensures
        #[trigger] (a + Seq::<char>::empty()) == a,
{
    assert(a + Seq::<char>::empty() =~= a);
}

/// Calls `String::push`, which the standard library documents as appending
/// the given char to the end of the string; the contract says just that.
/// It leaves unsaid that the call aborts or panics when memory or the
/// string's capacity runs out.
#[verifier::external_body]
pub(crate) fn string_push(s: &mut String, ch: char)
    ensures
        final(s)@ == old(s)@.push(ch),
{
    s.push(ch);
}

/// A wrapper around an owned `String` into which a syntax tree is printed,
/// with the indentation level and the choice between pretty and minified output.
pub struct Generator {
    pub minify: bool,
    code: String,
    dent: u16,
}

impl Generator {
    /// The code written so far.
    pub closed spec fn text(&self) -> Seq<char> {
        self.code@
    }

    /// Whether the generator minifies.
    pub closed spec fn minified(&self) -> bool {
        self.minify
    }

    /// The indentation counter.
    pub closed spec fn dent_count(&self) -> u16 {
        self.dent
    }

    /// The current indentation level.
    pub open spec fn depth(&self) -> nat {
        self.dent_count() as nat
    }

    /// How many more levels of indentation the generator can take.
    pub open spec fn room(&self) -> nat {
        (u16::MAX - self.depth()) as nat
    }

    /// `self` is `before` with `s` appended, at the same indentation and mode.
    pub open spec fn wrote(&self, before: Generator, s: Seq<char>) -> bool {
        &&& self.text() == before.text() + s
        &&& self.depth() == before.depth()
        &&& self.minified() == before.minified()
    }

    /// A generator with no code, at indentation level zero.
    pub fn new(minify: bool) -> (g: Self)
        ensures
            g.minified() == minify,
            g.text() == Seq::<char>::empty(),
            g.depth() == 0,
    {
        Generator { minify: minify, code: String::new(), dent: 0 }
    }

    /// Starts a new line at the current indentation; does nothing when minifying.
    pub fn new_line(&mut self)
        ensures
            final(self).wrote(*old(self), newline(old(self).minified(), old(self).depth())),
    {
        if !self.minify {
            string_push(&mut self.code, '\n');
            let ghost start = self.code@;
            let mut i: u16 = 0;
            while i < self.dent
                invariant
                    i <= self.dent,
                    self.code@ == start + pad(i as nat),
                    self.dent == old(self).dent,
                    self.minify == old(self).minified(),
                    !self.minify,
                    start == old(self).code@.push('\n'),
                decreases self.dent - i,
            {
                proof {
                    reveal_strlit("    ");
                    assert("    "@ =~= indent_unit());
                }
                self.code.append("    ");
                i = i + 1;
                assert(self.code@ =~= start + pad(i as nat));
            }
            assert(self.code@ == old(self).code@ + newline(self.minify, self.dent as nat));
        }
    }

    /// Appends `slice`.
    pub fn write(&mut self, slice: &str)
        ensures
            final(self).wrote(*old(self), slice@),
    {
        self.code.append(slice);
    }

    /// Appends `minslice` when minifying and `slice` otherwise.
    pub fn write_min(&mut self, slice: &str, minslice: &str)
        ensures
            final(self).wrote(*old(self), pick(old(self).minified(), slice, minslice)),
    {
        if self.minify {
            self.write(minslice);
        } else {
            self.write(slice);
        }
    }

    /// Appends one character.
    pub fn write_char(&mut self, ch: char)
        ensures
            final(self).wrote(*old(self), seq![ch]),
    {
        string_push(&mut self.code, ch);
        assert(self.code@ =~= old(self).code@ + seq![ch]);
    }

    /// Goes one level of indentation deeper.
    pub fn indent(&mut self)
        requires
            old(self).depth() < u16::MAX,
        ensures
            final(self).depth() == old(self).depth() + 1,
            final(self).text() == old(self).text(),
            final(self).minified() == old(self).minified(),
    {
        self.dent += 1;
    }

    /// Goes one level of indentation back.
    pub fn dedent(&mut self)
        requires
            old(self).depth() > 0,
        ensures
            final(self).depth() == old(self).depth() - 1,
            final(self).text() == old(self).text(),
            final(self).minified() == old(self).minified(),
    {
        self.dent -= 1;
    }

    /// Gives up the generator for the code it holds.
    pub fn consume(self) -> (code: String)
        ensures
            code@ == self.text(),
    {
        self.code
    }
}

} // verus!
