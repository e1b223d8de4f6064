//! Navigation between the front end's pages.

use vstd::prelude::Structural;
use vstd::prelude::verus;

verus! {

/// The page that the front end shows.
#[derive(Clone, Copy, Debug, PartialEq, Eq, Structural)]
pub enum View {
    Transcription,
    Settings,
}

} // verus!
