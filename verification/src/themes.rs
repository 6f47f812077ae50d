//! Named, fixed color schemes, selected by name.

use vstd::prelude::*;
use crate::strutil::str_eq_str;

verus! {

/// A built-in color scheme. Selection by name is case-sensitive and
/// accepts exactly the two recognized identifiers; anything else is a
/// configuration error.
#[derive(Clone, Copy, PartialEq, Eq, Structural, Debug)]
pub enum Theme {
    Nord,
    Solarized,
}

impl Theme {
    /// Resolve a theme name. Exactly `nord` and `solarized` are accepted;
    /// any other name is rejected with a configuration error, never a
    /// silently-default theme.
    pub fn parse(s: &str) -> (r: Result<Theme, &'static str>)
        ensures
            s@ == "nord"@ ==> r == Result::<Theme, &'static str>::Ok(Theme::Nord),
            s@ == "solarized"@ ==> r == Result::<Theme, &'static str>::Ok(Theme::Solarized),
            s@ != "nord"@ && s@ != "solarized"@ ==> (r matches Err(e) && e@
                == "Expected one of: 'nord', 'solarized'"@),
    {
        proof {
            reveal_strlit("nord");
            reveal_strlit("solarized");
            assert("nord"@.len() == 4);
            assert("solarized"@.len() == 9);
            assert("nord"@ != "solarized"@);
        }
        if str_eq_str(s, "nord") {
            Ok(Theme::Nord)
        } else if str_eq_str(s, "solarized") {
            Ok(Theme::Solarized)
        } else {
            Err("Expected one of: 'nord', 'solarized'")
        }
    }
}

impl core::str::FromStr for Theme {
    type Err = &'static str;

    fn from_str(s: &str) -> Result<Self, Self::Err> {
        Theme::parse(s)
    }
}

} // verus!
