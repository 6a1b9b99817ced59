use vstd::prelude::*;

verus! {

/// How the audio source is read for the scope views.
#[derive(Debug, Clone)]
pub struct SourceOptions {
    /// number of channels to open
    pub channels: usize,
    /// size of audio buffer, and width of scope
    pub buffer: u32,
    /// sample rate to use
    pub sample_rate: u32,
    /// tune buffer size to be in tune with given note (overrides buffer option)
    pub tune: Option<String>,
}

} // verus!
