use vstd::prelude::*;

verus! {

/// A radio station as a catalog provider describes it.
#[derive(Debug, Clone)]
pub struct Station {
    pub id: String,
    pub name: String,
    pub codec: String,
    pub bitrate: u32,
    pub stream_url: String,
    pub playing: Option<String>,
}

/// A copy of an optional string, field for field.
pub fn copy_opt_string(s: &Option<String>) -> (r: Option<String>)
    ensures
        r == *s,
{
    match s {
        Some(v) => Some(v.clone()),
        None => None,
    }
}

/// The string held, or the empty string.
pub fn string_or_empty(s: &Option<String>) -> (r: String)
    ensures
        r@ == opt_string_or_empty(*s),
{
    match s {
        Some(v) => v.clone(),
        None => String::new(),
    }
}

pub open spec fn opt_string_or_empty(s: Option<String>) -> Seq<char> {
    match s {
        Some(v) => v@,
        None => Seq::empty(),
    }
}

impl Station {
    /// A copy of this station, field for field.
    pub fn duplicate(&self) -> (r: Station)
        ensures
            r == *self,
    {
        Station {
            id: self.id.clone(),
            name: self.name.clone(),
            codec: self.codec.clone(),
            bitrate: self.bitrate,
            stream_url: self.stream_url.clone(),
            playing: copy_opt_string(&self.playing),
        }
    }
}

} // verus!
