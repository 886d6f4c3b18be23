use vstd::prelude::*;

use crate::parser::ParsedEvent;

verus! {

/// A source of events, such as a tailed log file or standard input.
pub trait Ingestor {
    /// The next event, or `None` when no event is available yet.
    fn next_event(&mut self) -> Option<ParsedEvent>;
}

} // verus!
