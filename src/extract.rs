use vstd::prelude::*;

verus! {

/// The header of a now-playing report.
#[derive(Debug, Clone)]
pub struct Header {
    pub title: String,
    pub subtitle: String,
}

/// A station's now-playing report.
#[derive(Debug, Clone)]
pub struct NowPlaying {
    pub header: Header,
}

impl NowPlaying {
    /// What is playing now: the report header's subtitle.
    pub fn currently_playing(&self) -> (r: &String)
        ensures
            r == self.header.subtitle,
    {
        &self.header.subtitle
    }
}

} // verus!
