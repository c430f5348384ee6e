//! Canonical player display names.

use crate::text::{
    char_is_control_or_format, extended_grapheme_count, grapheme_count_of,
    is_control_or_format_char, nfc_normalize, nfc_of, trim, trim_spec,
};
use vstd::prelude::*;
use vstd::string::StrSliceExecFns;

verus! {

/// The longest display name, counted in extended grapheme clusters.
pub const MAX_DISPLAY_NAME_GRAPHEMES: usize = 24;

/// A trimmed, NFC-normalised, printable display name of at most
/// [`MAX_DISPLAY_NAME_GRAPHEMES`] grapheme clusters.
#[derive(Debug, PartialEq, Eq)]
pub struct DisplayName(String);

impl Clone for DisplayName {
    /// A copy of the name, with the same text.
    fn clone(&self) -> (r: DisplayName)
        ensures
            r@ == self@,
    {
        proof {
            use_type_invariant(self);
        }
        DisplayName(self.0.clone())
    }
}

#[derive(Clone, Copy, Debug, PartialEq, Eq, Structural)]
pub enum DisplayNameError {
    Required,
    ContainsControlOrFormat,
    TooLong,
}

impl View for DisplayName {
    type V = Seq<char>;

    closed spec fn view(&self) -> Seq<char> {
        self.0@
    }
}

/// The canonical form that a raw name is judged by: trimmed, then NFC-normalised.
pub open spec fn canonical_name(raw: Seq<char>) -> Seq<char> {
    nfc_of(trim_spec(raw))
}

/// Whether some character of `s` is a control or format character.
pub open spec fn has_control_or_format(s: Seq<char>) -> bool {
    exists|i: int| 0 <= i < s.len() && is_control_or_format_char(#[trigger] s[i])
}

/// The verdict on an already-normalised name with the given grapheme count.
pub open spec fn classify_spec(normalized: Seq<char>, graphemes: nat) -> Result<
    Seq<char>,
    DisplayNameError,
> {
    if normalized.len() == 0 {
        Err(DisplayNameError::Required)
    } else if has_control_or_format(normalized) {
        Err(DisplayNameError::ContainsControlOrFormat)
    } else if graphemes > MAX_DISPLAY_NAME_GRAPHEMES {
        Err(DisplayNameError::TooLong)
    } else {
        Ok(normalized)
    }
}

/// What [`DisplayName::try_from`] gives for a raw name, over its view.
pub open spec fn display_name_spec(raw: Seq<char>) -> Result<Seq<char>, DisplayNameError> {
    classify_spec(canonical_name(raw), grapheme_count_of(canonical_name(raw)))
}

/// Whether a result of [`DisplayName::try_from`] matches its specification.
pub open spec fn display_name_result_matches(
    r: Result<DisplayName, DisplayNameError>,
    spec: Result<Seq<char>, DisplayNameError>,
) -> bool {
    match (r, spec) {
        (Ok(name), Ok(s)) => name@ == s,
        (Err(e), Err(f)) => e == f,
        _ => false,
    }
}

/// Whether `s` contains a control or format character.
pub fn contains_control_or_format(s: &str) -> (r: bool)
    ensures
        r == has_control_or_format(s@),
{
    let n = s.unicode_len();
    let mut i: usize = 0;
    while i < n
        invariant
            n == s@.len(),
            i <= n,
            forall|k: int| 0 <= k < i ==> !is_control_or_format_char(#[trigger] s@[k]),
        decreases n - i,
    {
        if char_is_control_or_format(s.get_char(i)) {
            return true;
        }
        i = i + 1;
    }
    false
}

/// What every [`DisplayName`] is: non-empty, free of control and format
/// characters, at most [`MAX_DISPLAY_NAME_GRAPHEMES`] grapheme clusters long,
/// and the canonical form (trimmed, then NFC-normalised) of some raw text.
pub open spec fn valid_display_name(s: Seq<char>) -> bool {
    &&& s.len() > 0
    &&& !has_control_or_format(s)
    &&& grapheme_count_of(s) <= MAX_DISPLAY_NAME_GRAPHEMES
    &&& exists|raw: Seq<char>| canonical_name(raw) == s
}

impl DisplayName {
    #[verifier::type_invariant]
    closed spec fn holds_valid_name(self) -> bool {
        valid_display_name(self.0@)
    }

    /// The name's text, which satisfies the display-name invariant.
    pub fn as_str(&self) -> (s: &str)
        ensures
            s@ == self@,
            valid_display_name(s@),
    {
        proof {
            use_type_invariant(self);
        }
        self.0.as_str()
    }

    /// Judges a name that has already been trimmed and normalised, given
    /// whether it contains a control or format character and its grapheme count.
    fn classify_normalized(
        normalized: String,
        control_or_format: bool,
        graphemes: usize,
    ) -> (r: Result<DisplayName, DisplayNameError>)
        requires
            control_or_format == has_control_or_format(normalized@),
            graphemes == grapheme_count_of(normalized@),
            exists|raw: Seq<char>| canonical_name(raw) == normalized@,
        ensures
            normalized@.len() == 0 ==> r == Err::<DisplayName, _>(DisplayNameError::Required),
            normalized@.len() != 0 && control_or_format ==> r == Err::<DisplayName, _>(
                DisplayNameError::ContainsControlOrFormat,
            ),
            normalized@.len() != 0 && !control_or_format && graphemes > MAX_DISPLAY_NAME_GRAPHEMES
                ==> r == Err::<DisplayName, _>(DisplayNameError::TooLong),
            normalized@.len() != 0 && !control_or_format && graphemes <= MAX_DISPLAY_NAME_GRAPHEMES
                ==> (r matches Ok(name) && name@ == normalized@),
    {
        if normalized.as_str().unicode_len() == 0 {
            return Err(DisplayNameError::Required);
        }
        if control_or_format {
            return Err(DisplayNameError::ContainsControlOrFormat);
        }
        if graphemes > MAX_DISPLAY_NAME_GRAPHEMES {
            return Err(DisplayNameError::TooLong);
        }
        Ok(DisplayName(normalized))
    }

    /// Trims, NFC-normalises and validates a raw display name.
    pub fn parse(value: &str) -> (r: Result<DisplayName, DisplayNameError>)
        ensures
            display_name_result_matches(r, display_name_spec(value@)),
    {
        let trimmed = trim(value);
        let normalized = nfc_normalize(trimmed);
        let control = contains_control_or_format(normalized.as_str());
        let graphemes = extended_grapheme_count(normalized.as_str());
        proof {
            assert(canonical_name(value@) == normalized@);
        }
        let r = Self::classify_normalized(normalized, control, graphemes);
        r
    }
}

impl<'a> TryFrom<&'a str> for DisplayName {
    type Error = DisplayNameError;

    fn try_from(value: &'a str) -> (r: Result<DisplayName, DisplayNameError>)
        ensures
            display_name_result_matches(r, display_name_spec(value@)),
    {
        Self::parse(value)
    }
}

/// The outcome of `try_from` is stated over the name's view in its own
/// `ensures`, as for [`DisplayName::parse`]. The spec value below names a
/// name with the right contents; since two `String`s with equal contents
/// need not be equal values, `obeys_try_from_spec` is false and callers go
/// by the `ensures`.
impl<'a> vstd::std_specs::convert::TryFromSpecImpl<&'a str> for DisplayName {
    open spec fn obeys_try_from_spec() -> bool {
        false
    }

    open spec fn try_from_spec(v: &'a str) -> Result<DisplayName, DisplayNameError> {
        match display_name_spec(v@) {
            Ok(name) => Ok(choose|d: DisplayName| d@ == name),
            Err(e) => Err(e),
        }
    }
}

impl TryFrom<String> for DisplayName {
    type Error = DisplayNameError;

    fn try_from(value: String) -> (r: Result<DisplayName, DisplayNameError>)
        ensures
            display_name_result_matches(r, display_name_spec(value@)),
    {
        Self::parse(value.as_str())
    }
}

impl vstd::std_specs::convert::TryFromSpecImpl<String> for DisplayName {
    open spec fn obeys_try_from_spec() -> bool {
        false
    }

    open spec fn try_from_spec(v: String) -> Result<DisplayName, DisplayNameError> {
        match display_name_spec(v@) {
            Ok(name) => Ok(choose|d: DisplayName| d@ == name),
            Err(e) => Err(e),
        }
    }
}

} // verus!
