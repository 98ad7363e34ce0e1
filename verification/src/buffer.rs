use vstd::prelude::*;

verus! {

/// An immutable, ordered sequence of text lines, one `Vec<u8>` per line,
/// in the order in which they were loaded.  A buffer may be empty.
pub struct Buffer {
    pub lines: Vec<Vec<u8>>,
}

impl View for Buffer {
    type V = Seq<Seq<u8>>;

    open spec fn view(&self) -> Seq<Seq<u8>> {
        self.lines@.map_values(|l: Vec<u8>| l@)
    }
}

impl Buffer {
    /// A buffer with no lines at all.
    pub fn new() -> (b: Buffer)
        ensures
            b@.len() == 0,
    {
        Buffer { lines: Vec::new() }
    }

    /// A buffer holding the given lines, in order.
    pub fn from_lines(lines: Vec<Vec<u8>>) -> (b: Buffer)
        ensures
            b@ == lines@.map_values(|l: Vec<u8>| l@),
    {
        Buffer { lines }
    }

    /// How many lines the buffer holds.
    pub fn line_count(&self) -> (n: usize)
        ensures
            n == self@.len(),
    {
        self.lines.len()
    }
}

} // verus!
