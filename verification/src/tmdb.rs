//! The movie-database model values the library reasons about: the numeric
//! movie identifier and the kinds of release the service distinguishes.

use vstd::prelude::*;

use crate::decimal::spec_decimal;
use crate::decimal::u32_to_decimal;

verus! {

/// The service's numeric identifier for a movie.
#[derive(Debug, PartialEq, Eq, Structural, Clone, Copy)]
pub struct TMDBId(pub u32);

impl core::convert::From<u32> for TMDBId {
    fn from(value: u32) -> (r: TMDBId) {
        TMDBId(value)
    }
}

impl vstd::std_specs::convert::FromSpecImpl<u32> for TMDBId {
    open spec fn obeys_from_spec() -> bool {
        true
    }

    open spec fn from_spec(v: u32) -> TMDBId {
        TMDBId(v)
    }
}

impl core::convert::From<TMDBId> for u32 {
    fn from(value: TMDBId) -> (r: u32) {
        value.0
    }
}

impl vstd::std_specs::convert::FromSpecImpl<TMDBId> for u32 {
    open spec fn obeys_from_spec() -> bool {
        true
    }

    open spec fn from_spec(v: TMDBId) -> u32 {
        v.0
    }
}

impl TMDBId {
    /// The identifier as decimal text, as it stands in request paths.
    pub fn to_decimal_string(&self) -> (r: String)
        ensures
            r@ == spec_decimal(self.0 as nat),
    {
        u32_to_decimal(self.0)
    }
}

/// The address a request for the given endpoint goes to.
pub fn api_request_url(endpoint: &str) -> (r: String)
    ensures
        r@ == "https://api.themoviedb.org/3/"@ + endpoint@,
{
    let mut s = "https://api.themoviedb.org/3/".to_owned();
    s.append(endpoint);
    s
}

/// The endpoint a movie lookup queries.
pub fn movie_endpoint(id: TMDBId) -> (r: String)
    ensures
        r@ == "movie/"@ + spec_decimal(id.0 as nat),
{
    let mut s = "movie/".to_owned();
    s.append(u32_to_decimal(id.0).as_str());
    s
}

/// How a region's release of a movie reaches its audience.
#[derive(Debug, PartialEq, Eq, Structural, Clone, Copy)]
pub enum ReleaseType {
    Premiere,
    TheatricalLimited,
    Theatrical,
    Digital,
    Physical,
    TV,
}

impl ReleaseType {
    /// The numeric code the service writes for this kind of release.
    pub open spec fn spec_code(&self) -> u8 {
        match self {
            ReleaseType::Premiere => 1,
            ReleaseType::TheatricalLimited => 2,
            ReleaseType::Theatrical => 3,
            ReleaseType::Digital => 4,
            ReleaseType::Physical => 5,
            ReleaseType::TV => 6,
        }
    }

    /// The numeric code of this kind of release.
    pub fn code(&self) -> (c: u8)
        ensures
            c == self.spec_code(),
    {
        match self {
            ReleaseType::Premiere => 1,
            ReleaseType::TheatricalLimited => 2,
            ReleaseType::Theatrical => 3,
            ReleaseType::Digital => 4,
            ReleaseType::Physical => 5,
            ReleaseType::TV => 6,
        }
    }

    /// The kind of release a numeric code denotes, if any.
    pub fn from_code(code: u8) -> (r: Option<ReleaseType>)
        ensures
            (r is Some) <==> 1 <= code <= 6,
            r matches Some(t) ==> t.spec_code() == code,
    {
        if code == 1 {
            Some(ReleaseType::Premiere)
        } else if code == 2 {
            Some(ReleaseType::TheatricalLimited)
        } else if code == 3 {
            Some(ReleaseType::Theatrical)
        } else if code == 4 {
            Some(ReleaseType::Digital)
        } else if code == 5 {
            Some(ReleaseType::Physical)
        } else if code == 6 {
            Some(ReleaseType::TV)
        } else {
            None
        }
    }
}

} // verus!
