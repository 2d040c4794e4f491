//! Resolution of the deployment environment from a raw, possibly absent
//! string, and the short suffix each environment contributes to physical
//! resource names.

use vstd::prelude::*;

verus! {

/// The deployment environment a run provisions for; resolved once at
/// startup and immutable thereafter.
#[derive(Eq, Copy, Clone, Debug, PartialEq, Structural)]
pub enum EnvName {
    QA,
    QE,
    Dev,
    Prod,
    Test,
    Local,
    Preview,
    Unknown,
}

/// Uppercases an ASCII lowercase letter; leaves every other character as is.
pub open spec fn spec_upper_char(c: char) -> char {
    if 'a' <= c && c <= 'z' {
        ((c as u8) - 32) as char
    } else {
        c
    }
}

/// The ASCII uppercasing of a whole string.
pub open spec fn spec_upper(s: Seq<char>) -> Seq<char> {
    s.map_values(|c: char| spec_upper_char(c))
}

/// Which environment a raw string resolves to: a case-insensitive match
/// against the fixed alias table, anything else `Unknown`.
pub open spec fn spec_env_from_str(s: Seq<char>) -> EnvName {
    let u = spec_upper(s);
    if u == "QE"@ {
        EnvName::QE
    } else if u == "Q"@ || u == "QA"@ {
        EnvName::QA
    } else if u == "L"@ || u == "LOCAL"@ {
        EnvName::Local
    } else if u == "PREVIEW"@ {
        EnvName::Preview
    } else if u == "T"@ || u == "TEST"@ || u == "TESTING"@ {
        EnvName::Test
    } else if u == "D"@ || u == "DEV"@ || u == "DEVELOPMENT"@ {
        EnvName::Dev
    } else if u == "P"@ || u == "PROD"@ || u == "PRODUCTION"@ {
        EnvName::Prod
    } else {
        EnvName::Unknown
    }
}

/// Environment resolution lifted to an absent input: absent resolves to
/// `Unknown`.
pub open spec fn spec_env_from(v: Option<Seq<char>>) -> EnvName {
    match v {
        Option::None => EnvName::Unknown,
        Option::Some(s) => spec_env_from_str(s),
    }
}

/// The suffix appended to logical names for this environment.
pub open spec fn spec_suffix(e: EnvName) -> Seq<char> {
    match e {
        EnvName::QA => "qa"@,
        EnvName::QE => "qe"@,
        EnvName::Dev => "dev"@,
        EnvName::Prod => "prod"@,
        EnvName::Test => "test"@,
        EnvName::Local => "local"@,
        EnvName::Preview => "preview"@,
        EnvName::Unknown => "unknown"@,
    }
}

/// The view of an optional string slice.
pub open spec fn spec_opt_view(v: Option<&str>) -> Option<Seq<char>> {
    match v {
        Option::None => Option::None,
        Option::Some(s) => Option::Some(s@),
    }
}

fn upper_char(c: char) -> (r: char)
    ensures
        r == spec_upper_char(c),
{
    if 'a' <= c && c <= 'z' {
        ((c as u8) - 32) as char
    } else {
        c
    }
}

/// Whether `s`, uppercased, equals `pattern` (given already in uppercase).
fn matches_upper(s: &str, pattern: &str) -> (r: bool)
    ensures
        r == (spec_upper(s@) == pattern@),
{
    let n = s.unicode_len();
    if n != pattern.unicode_len() {
        proof {
            assert(spec_upper(s@).len() == s@.len());
        }
        return false;
    }
    let mut i: usize = 0;
    while i < n
        invariant
            0 <= i <= n,
            n == s@.len(),
            n == pattern@.len(),
            forall|j: int| 0 <= j < i ==> spec_upper(s@)[j] == pattern@[j],
        decreases n - i,
    {
        let c = upper_char(s.get_char(i));
        let p = pattern.get_char(i);
        if c != p {
            proof {
                assert(spec_upper(s@)[i as int] == spec_upper_char(s@[i as int]));
            }
            return false;
        }
        i += 1;
    }
    proof {
        assert(spec_upper(s@) =~= pattern@);
    }
    true
}

impl EnvName {
    /// Resolves a raw environment string: a case-insensitive match against
    /// the alias table, with absent or unrecognized input mapping to
    /// `Unknown`. Total and pure.
    pub fn from(value: Option<&str>) -> (r: EnvName)
        ensures
            r == spec_env_from(spec_opt_view(value)),
    {
        match value {
            Option::None => EnvName::Unknown,
            Option::Some(s) => {
                if matches_upper(s, "QE") {
                    EnvName::QE
                } else if matches_upper(s, "Q") || matches_upper(s, "QA") {
                    EnvName::QA
                } else if matches_upper(s, "L") || matches_upper(s, "LOCAL") {
                    EnvName::Local
                } else if matches_upper(s, "PREVIEW") {
                    EnvName::Preview
                } else if matches_upper(s, "T") || matches_upper(s, "TEST") || matches_upper(
                    s,
                    "TESTING",
                ) {
                    EnvName::Test
                } else if matches_upper(s, "D") || matches_upper(s, "DEV") || matches_upper(
                    s,
                    "DEVELOPMENT",
                ) {
                    EnvName::Dev
                } else if matches_upper(s, "P") || matches_upper(s, "PROD") || matches_upper(
                    s,
                    "PRODUCTION",
                ) {
                    EnvName::Prod
                } else {
                    EnvName::Unknown
                }
            },
        }
    }

    /// The suffix this environment appends to physical names.
    pub fn as_suffix(&self) -> (r: &str)
        ensures
            r@ == spec_suffix(*self),
    {
        match self {
            EnvName::QA => "qa",
            EnvName::QE => "qe",
            EnvName::Dev => "dev",
            EnvName::Prod => "prod",
            EnvName::Test => "test",
            EnvName::Local => "local",
            EnvName::Preview => "preview",
            EnvName::Unknown => "unknown",
        }
    }

    pub fn is_local(&self) -> (r: bool)
        ensures
            r == (*self == EnvName::Local),
    {
        *self == EnvName::Local
    }

    pub fn is_unknown(&self) -> (r: bool)
        ensures
            r == (*self == EnvName::Unknown),
    {
        *self == EnvName::Unknown
    }
}

impl Default for EnvName {
    fn default() -> (r: Self)
        ensures
            r == EnvName::Unknown,
    {
        EnvName::Unknown
    }
}

} // verus!
