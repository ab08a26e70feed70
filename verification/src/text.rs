//! The textual forms of settings: `x,y` for a position, `WxH` for a
//! resolution, a decimal number for a frequency, and keywords for the rest.
//!
//! Each value has one text that `to_string` writes, and `from_str` reads at
//! least that text back.

use vstd::prelude::*;
use crate::decimal::{
    decimal, signed_decimal, parse_i32_spec, parse_u32_spec, parse_i32, parse_u32,
    push_decimal, push_signed_decimal, lemma_decimal_digits, lemma_parse_format_i32,
    lemma_parse_format_u32, is_digit, IntErrorKind,
};
use crate::types::{
    BitDepth, ConnectorType, FixedOutput, Frequency, Orientation, Position, Resolution,
    ScanlineOrdering, Scaling,
};

verus! {

/// Why a text is not a position.
#[derive(Debug, Copy, Clone, PartialEq, Eq, Structural)]
pub enum ParsePositionError {
    /// A coordinate is not an `i32` in decimal.
    IntError(IntErrorKind),
    /// There is no first coordinate. A text always has a first field, so
    /// reading never reports this.
    FirstPart,
    /// There is no comma, and so no second coordinate.
    SecondPart,
}

/// Why a text is not a resolution.
#[derive(Debug, Copy, Clone, PartialEq, Eq, Structural)]
pub enum ParseResolutionError {
    /// A side is not a `u32` in decimal.
    IntError(IntErrorKind),
    /// There is no width. A text always has a first field, so reading never
    /// reports this.
    FirstPart,
    /// There is no `x`, and so no height.
    SecondPart,
}

/// Why a text is not a frequency.
#[derive(Debug, Copy, Clone, PartialEq, Eq, Structural)]
pub enum ParseFrequencyError {
    /// The text is not a `u32` in decimal.
    IntError(IntErrorKind),
}

/// Why a text is not an orientation.
#[derive(Debug, Clone)]
pub enum ParseOrientationError {
    /// The text, which is none of the keywords.
    UnknownOrientation(String),
}

/// Why a text is not a fixed-output mode.
#[derive(Debug, Copy, Clone, PartialEq, Eq, Structural)]
pub enum ParseFixedOutputError {
    /// The text is none of `default`, `stretch`, `center`.
    InvalidFixedOutput,
}

/// The index of the first `sep` in `s` at or after `from`, or the length of
/// `s` if there is none.
pub open spec fn find_from(s: Seq<char>, sep: char, from: int) -> int
    decreases s.len() - from,
{
    if from < 0 || from >= s.len() {
        s.len() as int
    } else if s[from] == sep {
        from
    } else {
        find_from(s, sep, from + 1)
    }
}

/// Where no character from `from` up to `at` is the separator, and `at` is
/// the end of the text or holds the separator, `find_from` gives `at`.
pub proof fn lemma_find_from_is(s: Seq<char>, sep: char, from: int, at: int)
    requires
        0 <= from <= at <= s.len(),
        forall|k: int| from <= k < at ==> s[k] != sep,
        at < s.len() ==> s[at] == sep,
    ensures
        find_from(s, sep, from) == at,
    decreases at - from,
{
    if from < at {
        lemma_find_from_is(s, sep, from + 1, at);
    }
}

/// Finds the first `sep` in `s` at or after `from`.
pub fn find_char(s: &str, sep: char, from: usize) -> (res: usize)
    requires
        from <= s@.len(),
    ensures
        res == find_from(s@, sep, from as int),
        from <= res <= s@.len(),
{
    let n = s.unicode_len();
    let mut i: usize = from;
    while i < n
        invariant
            from <= i <= n,
            n == s@.len(),
            find_from(s@, sep, from as int) == find_from(s@, sep, i as int),
        decreases n - i,
    {
        if s.get_char(i) == sep {
            return i;
        }
        i = i + 1;
    }
    i
}

/// Whether two texts hold the same characters.
pub fn same_text(a: &str, b: &str) -> (res: bool)
    ensures
        res == (a@ == b@),
{
    let n = a.unicode_len();
    if b.unicode_len() != n {
        return false;
    }
    let mut i: usize = 0;
    while i < n
        invariant
            i <= n,
            n == a@.len(),
            n == b@.len(),
            a@.subrange(0, i as int) == b@.subrange(0, i as int),
        decreases n - i,
    {
        if a.get_char(i) != b.get_char(i) {
            return false;
        }
        assert(a@.subrange(0, i + 1) =~= a@.subrange(0, i as int).push(a@[i as int]));
        assert(b@.subrange(0, i + 1) =~= b@.subrange(0, i as int).push(b@[i as int]));
        i = i + 1;
    }
    assert(a@ =~= a@.subrange(0, n as int));
    assert(b@ =~= b@.subrange(0, n as int));
    true
}

/// The text of a position: `x`, a comma, `y`.
pub open spec fn position_text(p: Position) -> Seq<char> {
    signed_decimal(p.x as int) + seq![','] + signed_decimal(p.y as int)
}

/// What a text says as a position. The first two comma-separated fields are
/// the coordinates; further fields are not looked at.
pub open spec fn parse_position(s: Seq<char>) -> Result<Position, ParsePositionError> {
    let a = find_from(s, ',', 0);
    match parse_i32_spec(s.subrange(0, a)) {
        Err(k) => Err(ParsePositionError::IntError(k)),
        Ok(x) => if a >= s.len() {
            Err(ParsePositionError::SecondPart)
        } else {
            let b = find_from(s, ',', a + 1);
            match parse_i32_spec(s.subrange(a + 1, b)) {
                Err(k) => Err(ParsePositionError::IntError(k)),
                Ok(y) => Ok(Position { x, y }),
            }
        },
    }
}

/// The text of a resolution: the width, an `x`, the height.
pub open spec fn resolution_text(r: Resolution) -> Seq<char> {
    decimal(r.width as nat) + seq!['x'] + decimal(r.height as nat)
}

/// What a text says as a resolution. The first two fields separated by `x`
/// are width and height; further fields are not looked at.
pub open spec fn parse_resolution(s: Seq<char>) -> Result<Resolution, ParseResolutionError> {
    let a = find_from(s, 'x', 0);
    match parse_u32_spec(s.subrange(0, a)) {
        Err(k) => Err(ParseResolutionError::IntError(k)),
        Ok(width) => if a >= s.len() {
            Err(ParseResolutionError::SecondPart)
        } else {
            let b = find_from(s, 'x', a + 1);
            match parse_u32_spec(s.subrange(a + 1, b)) {
                Err(k) => Err(ParseResolutionError::IntError(k)),
                Ok(height) => Ok(Resolution { width, height }),
            }
        },
    }
}

/// The text of a frequency: its number of Hz in decimal.
pub open spec fn frequency_text(f: Frequency) -> Seq<char> {
    decimal(f.0 as nat)
}

/// What a text says as a frequency.
pub open spec fn parse_frequency(s: Seq<char>) -> Result<Frequency, ParseFrequencyError> {
    match parse_u32_spec(s) {
        Err(k) => Err(ParseFrequencyError::IntError(k)),
        Ok(v) => Ok(Frequency(v)),
    }
}

impl Position {
    /// Writes the position as `x,y`.
    pub fn to_string(&self) -> (res: String)
        ensures
            res@ == position_text(*self),
    {
        let mut out = String::new();
        push_signed_decimal(&mut out, self.x);
        proof {
            reveal_strlit(",");
        }
        out.append(",");
        push_signed_decimal(&mut out, self.y);
        assert(out@ =~= position_text(*self));
        out
    }

    /// Reads a position written as `x,y`.
    pub fn from_str(s: &str) -> (res: Result<Position, ParsePositionError>)
        ensures
            res == parse_position(s@),
    {
        let n = s.unicode_len();
        let a = find_char(s, ',', 0);
        let x = match parse_i32(s.substring_char(0, a)) {
            Ok(x) => x,
            Err(k) => {
                return Err(ParsePositionError::IntError(k));
            },
        };
        if a >= n {
            return Err(ParsePositionError::SecondPart);
        }
        let b = find_char(s, ',', a + 1);
        match parse_i32(s.substring_char(a + 1, b)) {
            Ok(y) => Ok(Position { x, y }),
            Err(k) => Err(ParsePositionError::IntError(k)),
        }
    }
}

impl Resolution {
    /// Writes the resolution as `WxH`.
    pub fn to_string(&self) -> (res: String)
        ensures
            res@ == resolution_text(*self),
    {
        let mut out = String::new();
        push_decimal(&mut out, self.width);
        proof {
            reveal_strlit("x");
        }
        out.append("x");
        push_decimal(&mut out, self.height);
        assert(out@ =~= resolution_text(*self));
        out
    }

    /// Reads a resolution written as `WxH`.
    pub fn from_str(s: &str) -> (res: Result<Resolution, ParseResolutionError>)
        ensures
            res == parse_resolution(s@),
    {
        let n = s.unicode_len();
        let a = find_char(s, 'x', 0);
        let width = match parse_u32(s.substring_char(0, a)) {
            Ok(w) => w,
            Err(k) => {
                return Err(ParseResolutionError::IntError(k));
            },
        };
        if a >= n {
            return Err(ParseResolutionError::SecondPart);
        }
        let b = find_char(s, 'x', a + 1);
        match parse_u32(s.substring_char(a + 1, b)) {
            Ok(height) => Ok(Resolution { width, height }),
            Err(k) => Err(ParseResolutionError::IntError(k)),
        }
    }
}

impl Frequency {
    /// Writes the frequency as its number of Hz.
    pub fn to_string(&self) -> (res: String)
        ensures
            res@ == frequency_text(*self),
    {
        let mut out = String::new();
        push_decimal(&mut out, self.0);
        assert(out@ =~= frequency_text(*self));
        out
    }

    /// Reads a frequency written as a number of Hz.
    pub fn from_str(s: &str) -> (res: Result<Frequency, ParseFrequencyError>)
        ensures
            res == parse_frequency(s@),
    {
        match parse_u32(s) {
            Ok(v) => Ok(Frequency(v)),
            Err(k) => Err(ParseFrequencyError::IntError(k)),
        }
    }
}

/// The decimal text of a number holds neither a comma nor an `x`.
pub proof fn lemma_decimal_has_no_separator(i: int)
    ensures
        signed_decimal(i).len() >= 1,
        forall|k: int|
            0 <= k < signed_decimal(i).len() ==> (#[trigger] signed_decimal(i)[k]) != ','
                && signed_decimal(i)[k] != 'x',
{
    if i < 0 {
        lemma_decimal_digits((-i) as nat);
        let d = decimal((-i) as nat);
        assert forall|k: int| 0 <= k < signed_decimal(i).len() implies (
        #[trigger] signed_decimal(i)[k]) != ',' && signed_decimal(i)[k] != 'x' by {
            if k > 0 {
                assert(signed_decimal(i)[k] == d[k - 1]);
                assert(is_digit(d[k - 1]));
            }
        }
    } else {
        lemma_decimal_digits(i as nat);
        let d = decimal(i as nat);
        assert forall|k: int| 0 <= k < signed_decimal(i).len() implies (
        #[trigger] signed_decimal(i)[k]) != ',' && signed_decimal(i)[k] != 'x' by {
            assert(is_digit(d[k]));
        }
    }
}

/// Reading the text of a position gives the position back.
pub proof fn lemma_position_round_trip(p: Position)
    ensures
        parse_position(position_text(p)) == Ok::<Position, ParsePositionError>(p),
{
    let xs = signed_decimal(p.x as int);
    let ys = signed_decimal(p.y as int);
    let s = position_text(p);
    let a = xs.len() as int;
    lemma_decimal_has_no_separator(p.x as int);
    lemma_decimal_has_no_separator(p.y as int);
    assert forall|k: int| 0 <= k < a implies s[k] != ',' by {
        assert(s[k] == xs[k]);
    }
    assert(s[a] == ',');
    lemma_find_from_is(s, ',', 0, a);
    assert forall|k: int| a + 1 <= k < s.len() implies s[k] != ',' by {
        assert(s[k] == ys[k - a - 1]);
    }
    lemma_find_from_is(s, ',', a + 1, s.len() as int);
    assert(s.subrange(0, a) =~= xs);
    assert(s.subrange(a + 1, s.len() as int) =~= ys);
    lemma_parse_format_i32(p.x);
    lemma_parse_format_i32(p.y);
}

/// Reading the text of a resolution gives the resolution back.
pub proof fn lemma_resolution_round_trip(r: Resolution)
    ensures
        parse_resolution(resolution_text(r)) == Ok::<Resolution, ParseResolutionError>(r),
{
    let ws = decimal(r.width as nat);
    let hs = decimal(r.height as nat);
    let s = resolution_text(r);
    let a = ws.len() as int;
    lemma_decimal_has_no_separator(r.width as int);
    lemma_decimal_has_no_separator(r.height as int);
    assert(ws == signed_decimal(r.width as int));
    assert(hs == signed_decimal(r.height as int));
    assert forall|k: int| 0 <= k < a implies s[k] != 'x' by {
        assert(s[k] == ws[k]);
    }
    assert(s[a] == 'x');
    lemma_find_from_is(s, 'x', 0, a);
    assert forall|k: int| a + 1 <= k < s.len() implies s[k] != 'x' by {
        assert(s[k] == hs[k - a - 1]);
    }
    lemma_find_from_is(s, 'x', a + 1, s.len() as int);
    assert(s.subrange(0, a) =~= ws);
    assert(s.subrange(a + 1, s.len() as int) =~= hs);
    lemma_parse_format_u32(r.width);
    lemma_parse_format_u32(r.height);
}

/// Reading the text of a frequency gives the frequency back.
pub proof fn lemma_frequency_round_trip(f: Frequency)
    ensures
        parse_frequency(frequency_text(f)) == Ok::<Frequency, ParseFrequencyError>(f),
{
    lemma_parse_format_u32(f.0);
}

/// The lowercase form of a text, by the rules of Unicode.
pub uninterp spec fn lowercase(s: Seq<char>) -> Seq<char>;

/// Whether `c` is a lowercase ASCII letter, an ASCII digit or an underscore.
pub open spec fn is_plain(c: char) -> bool {
    97 <= c as int <= 122 || is_digit(c) || c == '_'
}

/// Whether a text is made of lowercase ASCII letters, ASCII digits and
/// underscores alone.
pub open spec fn is_plain_text(s: Seq<char>) -> bool {
    forall|i: int| 0 <= i < s.len() ==> is_plain(#[trigger] s[i])
}

/// Calls `str::to_lowercase`. The result is the lowercase form of the text by
/// the rules of Unicode, which this library does not spell out.
#[verifier::external_body]
fn to_lowercase(s: &str) -> (res: String)
    ensures
        res@ == lowercase(s@),
{
    s.to_lowercase()
}

/// The form in which a text is compared with keywords: the text itself if
/// it holds nothing but lowercase ASCII letters, ASCII digits and
/// underscores, and its lowercase form otherwise.
pub open spec fn keyword_form(s: Seq<char>) -> Seq<char> {
    if is_plain_text(s) {
        s
    } else {
        lowercase(s)
    }
}

/// Whether a text is made of lowercase ASCII letters, ASCII digits and
/// underscores alone.
pub fn is_plain_str(s: &str) -> (res: bool)
    ensures
        res == is_plain_text(s@),
{
    let n = s.unicode_len();
    let mut i: usize = 0;
    while i < n
        invariant
            i <= n,
            n == s@.len(),
            forall|k: int| 0 <= k < i ==> is_plain(#[trigger] s@[k]),
        decreases n - i,
    {
        let code: u32 = s.get_char(i) as u32;
        let plain = (97 <= code && code <= 122) || (48 <= code && code <= 57) || code == 95;
        if !plain {
            assert(!is_plain(s@[i as int]));
            return false;
        }
        i = i + 1;
    }
    true
}

/// Puts a text into the form in which it is compared with keywords.
pub fn to_keyword_form(s: &str) -> (res: String)
    ensures
        res@ == keyword_form(s@),
{
    if is_plain_str(s) {
        String::from_str(s)
    } else {
        to_lowercase(s)
    }
}

/// The orientation that a lowercase keyword names: its name, its angle in
/// degrees, or its rotation number.
pub open spec fn orientation_keyword(t: Seq<char>) -> Option<Orientation> {
    if t == "landscape"@ || t == "0"@ || t == "1"@ {
        Some(Orientation::Landscape)
    } else if t == "portrait"@ || t == "90"@ || t == "2"@ {
        Some(Orientation::Portrait)
    } else if t == "landscape_flipped"@ || t == "180"@ || t == "3"@ {
        Some(Orientation::LandscapeFlipped)
    } else if t == "portrait_flipped"@ || t == "270"@ || t == "4"@ {
        Some(Orientation::PortraitFlipped)
    } else {
        None
    }
}

/// Whether `res` is the outcome of reading an orientation from a text whose
/// lowercase form is `key`: the orientation that `key` names, or else an
/// error that carries the text as it was given.
pub open spec fn orientation_read(
    key: Seq<char>,
    given: Seq<char>,
    res: Result<Orientation, ParseOrientationError>,
) -> bool {
    match res {
        Ok(o) => orientation_keyword(key) == Some(o),
        Err(ParseOrientationError::UnknownOrientation(t)) => orientation_keyword(key) is None
            && t@ == given,
    }
}

/// The fixed-output mode that a lowercase keyword names.
pub open spec fn fixed_output_keyword(t: Seq<char>) -> Option<FixedOutput> {
    if t == "default"@ {
        Some(FixedOutput::Default)
    } else if t == "stretch"@ {
        Some(FixedOutput::Stretch)
    } else if t == "center"@ {
        Some(FixedOutput::Center)
    } else {
        None
    }
}

/// What a text whose lowercase form is `key` says as a fixed-output mode.
pub open spec fn fixed_output_read(key: Seq<char>) -> Result<
    FixedOutput,
    ParseFixedOutputError,
> {
    match fixed_output_keyword(key) {
        Some(f) => Ok(f),
        None => Err(ParseFixedOutputError::InvalidFixedOutput),
    }
}

impl Orientation {
    /// The name of the orientation.
    pub open spec fn label(self) -> Seq<char> {
        match self {
            Orientation::Landscape => "landscape"@,
            Orientation::Portrait => "portrait"@,
            Orientation::LandscapeFlipped => "landscape_flipped"@,
            Orientation::PortraitFlipped => "portrait_flipped"@,
        }
    }

    /// Writes the name of the orientation.
    pub fn to_string(&self) -> (res: String)
        ensures
            res@ == self.label(),
    {
        match self {
            Orientation::Landscape => String::from_str("landscape"),
            Orientation::Portrait => String::from_str("portrait"),
            Orientation::LandscapeFlipped => String::from_str("landscape_flipped"),
            Orientation::PortraitFlipped => String::from_str("portrait_flipped"),
        }
    }

    /// Reads an orientation from the lowercase form of a text. `given` is
    /// the text before it was put into lowercase, which the error hands back.
    pub fn from_lowercase(lowered: &str, given: &str) -> (res: Result<
        Orientation,
        ParseOrientationError,
    >)
        ensures
            orientation_read(lowered@, given@, res),
    {
        if same_text(lowered, "landscape") || same_text(lowered, "0") || same_text(lowered, "1") {
            Ok(Orientation::Landscape)
        } else if same_text(lowered, "portrait") || same_text(lowered, "90") || same_text(
            lowered,
            "2",
        ) {
            Ok(Orientation::Portrait)
        } else if same_text(lowered, "landscape_flipped") || same_text(lowered, "180")
            || same_text(lowered, "3") {
            Ok(Orientation::LandscapeFlipped)
        } else if same_text(lowered, "portrait_flipped") || same_text(lowered, "270")
            || same_text(lowered, "4") {
            Ok(Orientation::PortraitFlipped)
        } else {
            Err(ParseOrientationError::UnknownOrientation(String::from_str(given)))
        }
    }

    /// Reads an orientation from a keyword, in any mix of upper and lower
    /// case: `landscape`, `portrait`, `landscape_flipped`, `portrait_flipped`,
    /// the angles 0, 90, 180, 270, or the rotation numbers 1 to 4.
    pub fn from_str(s: &str) -> (res: Result<Orientation, ParseOrientationError>)
        ensures
            orientation_read(keyword_form(s@), s@, res),
    {
        let lowered = to_keyword_form(s);
        Orientation::from_lowercase(lowered.as_str(), s)
    }
}

impl FixedOutput {
    /// The name of the mode.
    pub open spec fn label(self) -> Seq<char> {
        match self {
            FixedOutput::Default => "Default"@,
            FixedOutput::Stretch => "Stretch"@,
            FixedOutput::Center => "Center"@,
        }
    }

    /// Writes the name of the mode.
    pub fn to_string(&self) -> (res: String)
        ensures
            res@ == self.label(),
    {
        match self {
            FixedOutput::Default => String::from_str("Default"),
            FixedOutput::Stretch => String::from_str("Stretch"),
            FixedOutput::Center => String::from_str("Center"),
        }
    }

    /// Reads a fixed-output mode from the lowercase form of a text.
    pub fn from_lowercase(lowered: &str) -> (res: Result<FixedOutput, ParseFixedOutputError>)
        ensures
            res == fixed_output_read(lowered@),
    {
        if same_text(lowered, "default") {
            Ok(FixedOutput::Default)
        } else if same_text(lowered, "stretch") {
            Ok(FixedOutput::Stretch)
        } else if same_text(lowered, "center") {
            Ok(FixedOutput::Center)
        } else {
            Err(ParseFixedOutputError::InvalidFixedOutput)
        }
    }

    /// Reads a fixed-output mode from one of the keywords `default`,
    /// `stretch`, `center`, in any mix of upper and lower case.
    pub fn from_str(s: &str) -> (res: Result<FixedOutput, ParseFixedOutputError>)
        ensures
            res == fixed_output_read(keyword_form(s@)),
    {
        let lowered = to_keyword_form(s);
        FixedOutput::from_lowercase(lowered.as_str())
    }
}

impl Scaling {
    /// The name of the scaling mode.
    pub open spec fn label(self) -> Seq<char> {
        match self {
            Scaling::Identity => "identity"@,
            Scaling::Centered => "centered"@,
            Scaling::Stretched => "stretched"@,
            Scaling::AspectRatioCenteredMax => "aspect_ratio_centered_max"@,
            Scaling::Custom => "custom"@,
            Scaling::Preferred => "preferred"@,
        }
    }

    /// Writes the name of the scaling mode.
    pub fn to_string(&self) -> (res: String)
        ensures
            res@ == self.label(),
    {
        match self {
            Scaling::Identity => String::from_str("identity"),
            Scaling::Centered => String::from_str("centered"),
            Scaling::Stretched => String::from_str("stretched"),
            Scaling::AspectRatioCenteredMax => String::from_str("aspect_ratio_centered_max"),
            Scaling::Custom => String::from_str("custom"),
            Scaling::Preferred => String::from_str("preferred"),
        }
    }
}

impl BitDepth {
    /// The bit depth in words: the number of bits, then ` bpp`.
    pub open spec fn label(self) -> Seq<char> {
        decimal(self.bits() as nat) + " bpp"@
    }

    /// Writes the bit depth as its number of bits, then ` bpp`.
    pub fn to_string(&self) -> (res: String)
        ensures
            res@ == self.label(),
    {
        let mut out = String::new();
        push_decimal(&mut out, self.to_bits());
        out.append(" bpp");
        assert(out@ =~= self.label());
        out
    }
}

impl ScanlineOrdering {
    /// The name of the ordering.
    pub open spec fn label(self) -> Seq<char> {
        match self {
            ScanlineOrdering::Unspecified => "unspecified"@,
            ScanlineOrdering::Progressive => "progressive"@,
            ScanlineOrdering::InterlacedUpperFieldFirst => "interlaced_upper_first"@,
            ScanlineOrdering::InterlacedLowerFieldFirst => "interlaced_lower_first"@,
        }
    }

    /// Writes the name of the ordering.
    pub fn to_string(&self) -> (res: String)
        ensures
            res@ == self.label(),
    {
        match self {
            ScanlineOrdering::Unspecified => String::from_str("unspecified"),
            ScanlineOrdering::Progressive => String::from_str("progressive"),
            ScanlineOrdering::InterlacedUpperFieldFirst => String::from_str(
                "interlaced_upper_first",
            ),
            ScanlineOrdering::InterlacedLowerFieldFirst => String::from_str(
                "interlaced_lower_first",
            ),
        }
    }
}

impl ConnectorType {
    /// The name of the connector.
    pub open spec fn label(self) -> Seq<char> {
        match self {
            ConnectorType::HD15 => "VGA (HD15)"@,
            ConnectorType::SVIDEO => "S-Video"@,
            ConnectorType::CompositeVideo => "Composite Video"@,
            ConnectorType::ComponentVideo => "Component Video"@,
            ConnectorType::DVI => "DVI"@,
            ConnectorType::HDMI => "HDMI"@,
            ConnectorType::LVDS => "LVDS"@,
            ConnectorType::DJpn => "D-Jpn"@,
            ConnectorType::SDI => "SDI"@,
            ConnectorType::DisplayPortExternal => "DisplayPort (External)"@,
            ConnectorType::DisplayPortEmbedded => "DisplayPort (Embedded)"@,
            ConnectorType::UDIExternal => "UDI (External)"@,
            ConnectorType::UDIEmbedded => "UDI (Embedded)"@,
            ConnectorType::SDTVDONGLE => "SDTV Dongle"@,
            ConnectorType::Miracast => "Miracast"@,
            ConnectorType::IndirectWired => "Indirect Wired"@,
            ConnectorType::IndirectVirtual => "Indirect Virtual"@,
            ConnectorType::Internal => "Internal"@,
            ConnectorType::Other => "Other"@,
        }
    }

    /// Writes the name of the connector.
    pub fn to_string(&self) -> (res: String)
        ensures
            res@ == self.label(),
    {
        match self {
            ConnectorType::HD15 => String::from_str("VGA (HD15)"),
            ConnectorType::SVIDEO => String::from_str("S-Video"),
            ConnectorType::CompositeVideo => String::from_str("Composite Video"),
            ConnectorType::ComponentVideo => String::from_str("Component Video"),
            ConnectorType::DVI => String::from_str("DVI"),
            ConnectorType::HDMI => String::from_str("HDMI"),
            ConnectorType::LVDS => String::from_str("LVDS"),
            ConnectorType::DJpn => String::from_str("D-Jpn"),
            ConnectorType::SDI => String::from_str("SDI"),
            ConnectorType::DisplayPortExternal => String::from_str("DisplayPort (External)"),
            ConnectorType::DisplayPortEmbedded => String::from_str("DisplayPort (Embedded)"),
            ConnectorType::UDIExternal => String::from_str("UDI (External)"),
            ConnectorType::UDIEmbedded => String::from_str("UDI (Embedded)"),
            ConnectorType::SDTVDONGLE => String::from_str("SDTV Dongle"),
            ConnectorType::Miracast => String::from_str("Miracast"),
            ConnectorType::IndirectWired => String::from_str("Indirect Wired"),
            ConnectorType::IndirectVirtual => String::from_str("Indirect Virtual"),
            ConnectorType::Internal => String::from_str("Internal"),
            ConnectorType::Other => String::from_str("Other"),
        }
    }
}

/// Reading the name of an orientation gives the orientation back: the name
/// is a keyword for it, and is compared with the keywords as it stands.
pub proof fn lemma_orientation_round_trip(o: Orientation)
    ensures
        is_plain_text(o.label()),
        keyword_form(o.label()) == o.label(),
        orientation_keyword(o.label()) == Some(o),
        forall|res: Result<Orientation, ParseOrientationError>|
            orientation_read(keyword_form(o.label()), o.label(), res) ==> (res matches Ok(read)
                && read == o),
{
    reveal_strlit("landscape");
    reveal_strlit("portrait");
    reveal_strlit("landscape_flipped");
    reveal_strlit("portrait_flipped");
    reveal_strlit("0");
    reveal_strlit("1");
    reveal_strlit("2");
    reveal_strlit("3");
    reveal_strlit("4");
    reveal_strlit("90");
    reveal_strlit("180");
    reveal_strlit("270");
    let t = o.label();
    assert(t.len() >= 8);
    assert(t[0] == 'l' || t[0] == 'p');
    assert("landscape"@[0] == 'l');
    assert("portrait"@[0] == 'p');
}

} // verus!
