//! Query types for the score endpoints.

use vstd::prelude::*;

verus! {

/// The game regions a score query can be narrowed to.
#[derive(Clone, Copy, PartialEq, Eq, Debug)]
pub enum Region {
    NA,
    EU,
    Asia,
    CN,
}

/// The lower-case wire code of a region.
pub open spec fn spec_region_code(region: Region) -> Seq<char> {
    match region {
        Region::NA => "na"@,
        Region::EU => "eu"@,
        Region::Asia => "asia"@,
        Region::CN => "cn"@,
    }
}

impl Region {
    /// Renders the region as its lower-case wire code.
    pub fn code(&self) -> (s: String)
        ensures
            s@ == spec_region_code(*self),
    {
        match self {
            Region::NA => "na".to_owned(),
            Region::EU => "eu".to_owned(),
            Region::Asia => "asia".to_owned(),
            Region::CN => "cn".to_owned(),
        }
    }

    /// Reads a region back from its lower-case wire code.
    pub fn from_code(code: &String) -> (r: Option<Region>)
        ensures
            r == spec_region_from_code(code@),
    {
        let na: String = "na".to_owned();
        if *code == na {
            return Some(Region::NA);
        }
        let eu: String = "eu".to_owned();
        if *code == eu {
            return Some(Region::EU);
        }
        let asia: String = "asia".to_owned();
        if *code == asia {
            return Some(Region::Asia);
        }
        let cn: String = "cn".to_owned();
        if *code == cn {
            return Some(Region::CN);
        }
        None
    }
}

/// Which region a wire code denotes, if any.
pub open spec fn spec_region_from_code(code: Seq<char>) -> Option<Region> {
    if code == "na"@ {
        Some(Region::NA)
    } else if code == "eu"@ {
        Some(Region::EU)
    } else if code == "asia"@ {
        Some(Region::Asia)
    } else if code == "cn"@ {
        Some(Region::CN)
    } else {
        None
    }
}

/// The optional filters of a score query: a region, a free-text query,
/// and a result window.
#[derive(Clone, Debug)]
pub struct ScoresParams {
    pub region: Option<Region>,
    pub query: Option<String>,
    pub limit: Option<i64>,
    pub offset: Option<i64>,
}

} // verus!
