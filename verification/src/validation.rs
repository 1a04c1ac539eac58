//! Diagnostics captured from the device's validation channel.
//!
//! Shader compilation reports type and semantic errors asynchronously through
//! the device rather than by a return value. Each such diagnostic becomes a
//! [`ValidationError`]; a compile attempt collects them in a [`ValidationLog`]
//! and drains the log before deciding whether the new pipeline may replace the
//! active one.

use vstd::prelude::*;

verus! {

/// One diagnostic message from shader validation.
pub struct ValidationError {
    description: String,
}

impl View for ValidationError {
    type V = Seq<char>;

    closed spec fn view(&self) -> Seq<char> {
        self.description@
    }
}

impl ValidationError {
    pub fn new(description: String) -> (r: Self)
        ensures
            r@ == description@,
    {
        ValidationError { description }
    }

    /// The diagnostic text, surrendering the error.
    pub fn into_message(self) -> (r: String)
        ensures
            r@ == self@,
    {
        self.description
    }

    /// The diagnostic text, borrowed.
    pub fn message(&self) -> (r: &String)
        ensures
            r@ == self@,
    {
        &self.description
    }
}

/// The sink for validation diagnostics of one compile attempt.
///
/// Messages are appended as the device reports them and consumed all at once:
/// draining empties the log, so nothing captured during one attempt can be
/// misattributed to a later one.
pub struct ValidationLog {
    entries: Vec<ValidationError>,
}

impl View for ValidationLog {
    type V = Seq<Seq<char>>;

    closed spec fn view(&self) -> Seq<Seq<char>> {
        self.entries@.map_values(|e: ValidationError| e@)
    }
}

impl ValidationLog {
    pub fn new() -> (r: Self)
        ensures
            r@ == Seq::<Seq<char>>::empty(),
    {
        let log = ValidationLog { entries: Vec::new() };
        proof {
            assert(log@ =~= Seq::<Seq<char>>::empty());
        }
        log
    }

    pub fn len(&self) -> (r: usize)
        ensures
            r == self@.len(),
    {
        self.entries.len()
    }

    pub fn is_empty(&self) -> (r: bool)
        ensures
            r == (self@.len() == 0),
    {
        self.entries.len() == 0
    }

    /// Append one diagnostic.
    pub fn record(&mut self, e: ValidationError)
        ensures
            final(self)@ == old(self)@.push(e@),
    {
        let ghost pre = self@;
        self.entries.push(e);
        proof {
            assert(self@ =~= pre.push(e@));
        }
    }

    /// Take every recorded message, in the order recorded, leaving the log
    /// empty.
    pub fn drain(&mut self) -> (r: Vec<ValidationError>)
        ensures
            final(self)@ == Seq::<Seq<char>>::empty(),
            r@.map_values(|e: ValidationError| e@) == old(self)@,
    {
        let mut taken: Vec<ValidationError> = Vec::new();
        std::mem::swap(&mut taken, &mut self.entries);
        proof {
            assert(self@ =~= Seq::<Seq<char>>::empty());
            assert(taken@.map_values(|e: ValidationError| e@) =~= old(self)@);
        }
        taken
    }
}

} // verus!
