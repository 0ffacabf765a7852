//! Weather lookups through the wttr.in text service, fetched by the caller.

use vstd::prelude::*;
use crate::text::{trim, trimmed};

verus! {

/// Controller for fetching weather information.
pub struct WeatherController;

/// `s` with each space replaced by `+`.
pub open spec fn plus_for_space(s: Seq<char>) -> Seq<char> {
    s.map_values(|c: char| if c == ' ' { '+' } else { c })
}

/// The address that answers for `location` (or, with none, for the location
/// found from the caller's address) with a one-line report in metric units.
pub open spec fn weather_url_of(location: Option<Seq<char>>) -> Seq<char> {
    match location {
        Some(loc) => "https://wttr.in/"@ + plus_for_space(loc) + "?format=3&m"@,
        None => "https://wttr.in/?format=3&m"@,
    }
}

impl WeatherController {
    /// The address to fetch the weather for `location` from.
    pub fn weather_url(location: Option<&str>) -> (r: String)
        ensures
            location matches Some(l) ==> r@ == weather_url_of(Some(l@)),
            location is None ==> r@ == weather_url_of(None),
    {
        match location {
            None => String::from_str("https://wttr.in/?format=3&m"),
            Some(loc) => {
                let mut url = String::from_str("https://wttr.in/");
                let ghost base = url@;
                let n = loc.unicode_len();
                let mut start: usize = 0;
                let mut i: usize = 0;
                while i < n
                    invariant
                        n == loc@.len(),
                        start <= i <= n,
                        url@ == base + plus_for_space(loc@.subrange(0, start as int)),
                        forall|k: int| start <= k < i ==> loc@[k] != ' ',
                    decreases n - i,
                {
                    if loc.get_char(i) == ' ' {
                        proof {
                            assert(plus_for_space(loc@.subrange(0, start as int))
                                + loc@.subrange(start as int, i as int) + "+"@
                                =~= plus_for_space(loc@.subrange(0, i as int + 1))) by {
                                reveal_strlit("+");
                            }
                        }
                        let ghost before = url@;
                        url.append(loc.substring_char(start, i));
                        url.append("+");
                        assert(url@ =~= before + loc@.subrange(start as int, i as int) + "+"@);
                        i = i + 1;
                        start = i;
                    } else {
                        i = i + 1;
                    }
                }
                proof {
                    assert(plus_for_space(loc@.subrange(0, start as int)) + loc@.subrange(
                        start as int,
                        n as int,
                    ) =~= plus_for_space(loc@));
                }
                url.append(loc.substring_char(start, n));
                url.append("?format=3&m");
                url
            },
        }
    }

    /// The report in what the service sent back: the text trimmed, or an
    /// error when nothing is left.
    pub fn weather_report(body: &str) -> (r: Result<String, String>)
        ensures
            r is Ok <==> trim(body@).len() > 0,
            r matches Ok(w) ==> w@ == trim(body@),
            r matches Err(e) ==> e@ == "No weather data received"@,
    {
        let w = trimmed(body);
        if w.unicode_len() == 0 {
            Err(String::from_str("No weather data received"))
        } else {
            Ok(w)
        }
    }
}

} // verus!
