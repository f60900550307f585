use vstd::prelude::*;

verus! {

/// Characters that would break the performance-data grammar if they stood in a unit symbol:
/// decimal digits, double quotes and semicolons.
pub open spec fn forbidden_in_unit(c: char) -> bool {
    let n = c as u32;
    (0x30 <= n <= 0x39) || c == '"' || c == ';'
}

/// Whether no character of `s` is forbidden in a unit symbol.
pub open spec fn valid_unit_symbol(s: Seq<char>) -> bool {
    forall|k: int| 0 <= k < s.len() ==> !forbidden_in_unit(#[trigger] s[k])
}

/// This error is returned if a [UnitString] is created with an invalid string.
#[derive(Copy, Clone, Debug, PartialEq, Eq, Structural)]
#[non_exhaustive]
pub enum UnitStringCreateError {
    /// The text holds a digit, a semicolon or a double quote.
    InvalidCharacters,
}

impl UnitStringCreateError {
    /// The text of this error.
    pub fn message(&self) -> (r: &'static str)
        ensures
            r@ == "expected string to not include numbers, semicolons or quotes"@,
    {
        "expected string to not include numbers, semicolons or quotes"
    }
}

/// Newtype wrapper around a string to ensure only valid strings end up in the performance data.
#[derive(Debug, Clone, PartialEq, Eq, PartialOrd, Ord)]
pub struct UnitString(String);

impl View for UnitString {
    type V = Seq<char>;

    closed spec fn view(&self) -> Seq<char> {
        self.0@
    }
}

fn forbidden_char(c: char) -> (r: bool)
    ensures
        r == forbidden_in_unit(c),
{
    let n = c as u32;
    (0x30 <= n && n <= 0x39) || c == '"' || c == ';'
}

impl UnitString {
    /// Creates a unit symbol, refusing one that holds a digit, a double quote or a semicolon.
    pub fn new(s: &str) -> (r: Result<UnitString, UnitStringCreateError>)
        ensures
            r is Ok <==> valid_unit_symbol(s@),
            r matches Ok(u) ==> u@ == s@,
            r matches Err(e) ==> e == UnitStringCreateError::InvalidCharacters,
    {
        let n = s.unicode_len();
        let mut i: usize = 0;
        while i < n
            invariant
                n == s@.len(),
                i <= n,
                forall|k: int| 0 <= k < i ==> !forbidden_in_unit(#[trigger] s@[k]),
            decreases n - i,
        {
            if forbidden_char(s.get_char(i)) {
                return Err(UnitStringCreateError::InvalidCharacters);
            }
            i += 1;
        }
        Ok(UnitString::new_unchecked(s))
    }

    /// Creates a unit symbol without checking its characters.
    pub fn new_unchecked(s: &str) -> (r: UnitString)
        ensures
            r@ == s@,
    {
        UnitString(s.to_owned())
    }

    /// The symbol.
    pub fn as_str(&self) -> (r: &str)
        ensures
            r@ == self@,
    {
        self.0.as_str()
    }
}

impl core::str::FromStr for UnitString {
    type Err = UnitStringCreateError;

    fn from_str(s: &str) -> (r: Result<UnitString, UnitStringCreateError>)
        ensures
            r is Ok <==> valid_unit_symbol(s@),
            r matches Ok(u) ==> u@ == s@,
            r matches Err(e) ==> e == UnitStringCreateError::InvalidCharacters,
    {
        UnitString::new(s)
    }
}

/// This represents the unit for a metric. It can be one of the predefined units or a custom one.
#[derive(Debug, Clone, PartialEq, Eq, PartialOrd, Ord)]
pub enum Unit {
    /// A plain number without a unit.
    Unitless,
    Seconds,
    Milliseconds,
    Microseconds,
    Percentage,
    Bytes,
    Kilobytes,
    Megabytes,
    Gigabytes,
    Terabytes,
    Counter,
    Other(UnitString),
}

/// The symbol that a unit adds after a value.
pub open spec fn unit_symbol(u: Unit) -> Seq<char> {
    match u {
        Unit::Unitless => seq![],
        Unit::Seconds => seq!['s'],
        Unit::Milliseconds => seq!['m', 's'],
        Unit::Microseconds => seq!['u', 's'],
        Unit::Percentage => seq!['%'],
        Unit::Bytes => seq!['B'],
        Unit::Kilobytes => seq!['K', 'B'],
        Unit::Megabytes => seq!['M', 'B'],
        Unit::Gigabytes => seq!['G', 'B'],
        Unit::Terabytes => seq!['T', 'B'],
        Unit::Counter => seq!['c'],
        Unit::Other(s) => s@,
    }
}

impl Unit {
    /// The symbol of this unit.
    pub fn as_str(&self) -> (r: &str)
        ensures
            r@ == unit_symbol(*self),
    {
        match self {
            Unit::Unitless => {
                proof {
                    reveal_strlit("");
                }
                assert(""@ =~= seq![]);
                ""
            },
            Unit::Seconds => {
                proof {
                    reveal_strlit("s");
                }
                assert("s"@ =~= seq!['s']);
                "s"
            },
            Unit::Milliseconds => {
                proof {
                    reveal_strlit("ms");
                }
                assert("ms"@ =~= seq!['m', 's']);
                "ms"
            },
            Unit::Microseconds => {
                proof {
                    reveal_strlit("us");
                }
                assert("us"@ =~= seq!['u', 's']);
                "us"
            },
            Unit::Percentage => {
                proof {
                    reveal_strlit("%");
                }
                assert("%"@ =~= seq!['%']);
                "%"
            },
            Unit::Bytes => {
                proof {
                    reveal_strlit("B");
                }
                assert("B"@ =~= seq!['B']);
                "B"
            },
            Unit::Kilobytes => {
                proof {
                    reveal_strlit("KB");
                }
                assert("KB"@ =~= seq!['K', 'B']);
                "KB"
            },
            Unit::Megabytes => {
                proof {
                    reveal_strlit("MB");
                }
                assert("MB"@ =~= seq!['M', 'B']);
                "MB"
            },
            Unit::Gigabytes => {
                proof {
                    reveal_strlit("GB");
                }
                assert("GB"@ =~= seq!['G', 'B']);
                "GB"
            },
            Unit::Terabytes => {
                proof {
                    reveal_strlit("TB");
                }
                assert("TB"@ =~= seq!['T', 'B']);
                "TB"
            },
            Unit::Counter => {
                proof {
                    reveal_strlit("c");
                }
                assert("c"@ =~= seq!['c']);
                "c"
            },
            Unit::Other(s) => s.as_str(),
        }
    }
}

/// The default unit is no unit at all.
impl Default for Unit {
    fn default() -> (r: Unit)
        ensures
            r == Unit::Unitless,
    {
        Unit::Unitless
    }
}

} // verus!
