//! The region a new account belongs to, and its three-letter code.

use vstd::prelude::*;
use crate::text::str_eq;

verus! {

/// The region chosen in the sign-up form.
#[derive(Clone, Copy, Debug, PartialEq, Eq, Structural)]
pub enum Location {
    NewZealand,
    Australia,
    NorthAmerica,
    Europe,
    Other,
}

impl Location {
    /// The three-letter code that stands for this region.
    pub open spec fn code(self) -> Seq<char> {
        match self {
            Location::NewZealand => "NZL"@,
            Location::Australia => "AUS"@,
            Location::NorthAmerica => "NAM"@,
            Location::Europe => "EUR"@,
            Location::Other => "OTH"@,
        }
    }

    /// The region that a text names: one of the four known codes names its
    /// region, and every other text names `Other`.
    pub open spec fn parse(text: Seq<char>) -> Location {
        if text == "NZL"@ {
            Location::NewZealand
        } else if text == "AUS"@ {
            Location::Australia
        } else if text == "NAM"@ {
            Location::NorthAmerica
        } else if text == "EUR"@ {
            Location::Europe
        } else {
            Location::Other
        }
    }

    /// Reads a region from its code. A text that is none of the known codes
    /// gives `Other`.
    pub fn from_str(country: &str) -> (location: Self)
        ensures
            location == Self::parse(country@),
    {
        if str_eq(country, "NZL") {
            Self::NewZealand
        } else if str_eq(country, "AUS") {
            Self::Australia
        } else if str_eq(country, "NAM") {
            Self::NorthAmerica
        } else if str_eq(country, "EUR") {
            Self::Europe
        } else {
            Self::Other
        }
    }
}

impl ToString for Location {
    /// The code of this region as an owned string.
    fn to_string(&self) -> (code: String)
        ensures
            code@ == self.code(),
    {
        match self {
            Self::NewZealand => "NZL".to_string(),
            Self::Australia => "AUS".to_string(),
            Self::NorthAmerica => "NAM".to_string(),
            Self::Europe => "EUR".to_string(),
            Self::Other => "OTH".to_string(),
        }
    }
}

/// The five codes are pairwise different texts.
pub proof fn lemma_codes_differ(a: Location, b: Location)
    ensures
        a.code() == b.code() <==> a == b,
{
    reveal_strlit("NZL");
    reveal_strlit("AUS");
    reveal_strlit("NAM");
    reveal_strlit("EUR");
    reveal_strlit("OTH");
    if a != b {
        assert(a.code()[2] != b.code()[2]);
    }
}

/// Reading the code of a region gives that region back.
pub proof fn lemma_parse_code(location: Location)
    ensures
        Location::parse(location.code()) == location,
{
    lemma_codes_differ(location, Location::NewZealand);
    lemma_codes_differ(location, Location::Australia);
    lemma_codes_differ(location, Location::NorthAmerica);
    lemma_codes_differ(location, Location::Europe);
}

/// Writing the region read from a text gives the text back exactly when the
/// text is one of the five codes.
pub proof fn lemma_code_parse(text: Seq<char>)
    ensures
        Location::parse(text).code() == text <==> exists|location: Location|
            text == location.code(),
{
    if exists|location: Location| text == location.code() {
        let location = choose|location: Location| text == location.code();
        lemma_parse_code(location);
    } else {
        assert(text != Location::parse(text).code());
    }
}

} // verus!
