use vstd::prelude::*;
use vstd::string::*;

verus! {

/// How many `location` redirects are followed after the first request.
pub const MAX_REDIRECTS: u32 = 3;

/// The headers of a stream's first response that describe the station, each
/// present only when the server sent it as readable text.
#[derive(Debug, Clone)]
pub struct StreamHeaders {
    pub icy_name: Option<String>,
    pub icy_genre: Option<String>,
    pub icy_description: Option<String>,
    pub icy_br: Option<String>,
}

/// The name a stream is shown under: the server's `icy-name`, unless it is
/// absent or literally `Unknown`, in which case the catalog name.
pub open spec fn spec_display_name(icy_name: Option<String>, catalog_name: Seq<char>) -> Seq<char> {
    match icy_name {
        Some(n) => if n@ == "Unknown"@ {
            catalog_name
        } else {
            n@
        },
        None => catalog_name,
    }
}

/// The name a stream is shown under, from its `icy-name` header and the
/// station's catalog name.
pub fn display_name(icy_name: &Option<String>, catalog_name: &String) -> (r: String)
    ensures
        r@ == spec_display_name(*icy_name, catalog_name@),
{
    match icy_name {
        Some(n) => {
            let unknown = String::from_str("Unknown");
            if *n == unknown {
                catalog_name.clone()
            } else {
                n.clone()
            }
        },
        None => catalog_name.clone(),
    }
}

/// What a response's `location` header holds.
#[derive(Debug, Clone)]
pub enum Location {
    /// No `location` header.
    Absent,
    /// A `location` header that is not readable text.
    Invalid,
    /// A `location` header naming the next URL.
    Url(String),
}

/// What to do with the response just received.
#[derive(Debug, Clone)]
pub enum RedirectStep {
    /// Request this URL next; its response replaces the current one.
    Follow(String),
    /// Use the current response.
    Done,
    /// Give up: the redirect target cannot be read.
    InvalidLocation,
}

/// Counts the redirects followed while a stream is opened.
#[derive(Debug)]
pub struct RedirectFollower {
    hops: u32,
}

impl View for RedirectFollower {
    type V = nat;

    /// The number of redirects followed so far.
    closed spec fn view(&self) -> nat {
        self.hops as nat
    }
}

/// The decision on a response, after `hops` redirects were followed.
pub open spec fn spec_next_step(hops: nat, location: Location) -> RedirectStep {
    if hops >= MAX_REDIRECTS {
        RedirectStep::Done
    } else {
        match location {
            Location::Absent => RedirectStep::Done,
            Location::Invalid => RedirectStep::InvalidLocation,
            Location::Url(u) => RedirectStep::Follow(u),
        }
    }
}

/// The number of redirects followed when the responses carry the locations
/// of `locs` in turn, starting after `hops` redirects; the walk ends at the
/// first response that is not followed.
pub open spec fn follows_made(hops: nat, locs: Seq<Location>) -> nat
    decreases locs.len(),
{
    if locs.len() == 0 {
        0
    } else {
        match spec_next_step(hops, locs[0]) {
            RedirectStep::Follow(_) => 1 + follows_made(hops + 1, locs.drop_first()),
            _ => 0,
        }
    }
}

impl RedirectFollower {
    /// A follower for a stream whose first request was just answered.
    pub fn new() -> (r: RedirectFollower)
        ensures
            r@ == 0,
    {
        RedirectFollower { hops: 0 }
    }

    /// The number of requests sent so far: the first one and each followed
    /// redirect.
    pub fn requests_sent(&self) -> (r: u32)
        requires
            self@ <= MAX_REDIRECTS,
        ensures
            r == self@ + 1,
    {
        self.hops + 1
    }

    /// Decide what to do with the response just received, from its
    /// `location` header.
    pub fn next_step(&mut self, location: Location) -> (r: RedirectStep)
        ensures
            r == spec_next_step(old(self)@, location),
            final(self)@ == (if r is Follow {
                old(self)@ + 1
            } else {
                old(self)@
            }),
            old(self)@ <= MAX_REDIRECTS ==> final(self)@ <= MAX_REDIRECTS,
    {
        if self.hops >= MAX_REDIRECTS {
            return RedirectStep::Done;
        }
        match location {
            Location::Absent => RedirectStep::Done,
            Location::Invalid => RedirectStep::InvalidLocation,
            Location::Url(u) => {
                self.hops = self.hops + 1;
                RedirectStep::Follow(u)
            },
        }
    }
}

/// However long a chain of redirecting responses is, opening a stream sends
/// at most four requests: the first and three followed redirects. When the
/// first three responses all redirect, exactly three are followed, and the
/// fourth response is used even if it redirects too.
pub proof fn lemma_redirect_bound(locs: Seq<Location>)
    ensures
        follows_made(0, locs) <= MAX_REDIRECTS,
        1 + follows_made(0, locs) <= 4,
        (locs.len() >= 3 && forall|i: int| 0 <= i < 3 ==> #[trigger] locs[i] is Url)
            ==> follows_made(0, locs) == 3,
{
    lemma_follows_bounded(0, locs);
    if locs.len() >= 3 && forall|i: int| 0 <= i < 3 ==> #[trigger] locs[i] is Url {
        let l1 = locs.drop_first();
        let l2 = l1.drop_first();
        let l3 = l2.drop_first();
        assert(locs[0] is Url);
        assert(locs[1] is Url);
        assert(locs[2] is Url);
        assert(l1[0] == locs[1]);
        assert(l2[0] == locs[2]);
        assert(follows_made(3, l3) == 0) by {
            if l3.len() > 0 {
                assert(spec_next_step(3, l3[0]) is Done);
            }
        }
        assert(follows_made(2, l2) == 1 + follows_made(3, l3));
        assert(follows_made(1, l1) == 1 + follows_made(2, l2));
        assert(follows_made(0, locs) == 1 + follows_made(1, l1));
    }
}

proof fn lemma_follows_bounded(hops: nat, locs: Seq<Location>)
    requires
        hops <= MAX_REDIRECTS,
    ensures
        hops + follows_made(hops, locs) <= MAX_REDIRECTS,
    decreases locs.len(),
{
    if locs.len() > 0 {
        if spec_next_step(hops, locs[0]) is Follow {
            lemma_follows_bounded(hops + 1, locs.drop_first());
        }
    }
}

} // verus!
