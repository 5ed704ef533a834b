//! Logging capability handed into the components by reference: an ordered
//! buffer of messages bound to the sink path they belong to. The
//! surrounding code drains the buffer into its sink; nothing here touches
//! a file.

use vstd::prelude::*;

verus! {

/// An append-only message buffer bound to a log path.
pub struct Logger {
    /// Where the surrounding sink writes the entries.
    pub path: String,
    /// The messages logged so far, oldest first.
    pub entries: Vec<String>,
}

impl Logger {
    /// A fresh, empty log bound to `path`.
    pub fn new(path: &str) -> (r: Logger)
        ensures
            r.path@ == path@,
            r.entries@ == Seq::<String>::empty(),
    {
        Logger { path: path.to_owned(), entries: Vec::new() }
    }

    /// Append one message; everything logged before stays in place.
    pub fn log(&mut self, message: String)
        ensures
            final(self).path == old(self).path,
            final(self).entries@ == old(self).entries@.push(message),
    {
        self.entries.push(message);
    }

    /// The messages logged so far.
    pub fn lines(&self) -> (r: &Vec<String>)
        ensures
            r@ == self.entries@,
    {
        &self.entries
    }

    /// Forget entries the surrounding sink has already flushed.
    pub fn clear(&mut self)
        ensures
            final(self).path == old(self).path,
            final(self).entries@ == Seq::<String>::empty(),
    {
        self.entries.clear();
    }
}

} // verus!
