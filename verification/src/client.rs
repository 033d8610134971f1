//! Command-line rules of the image-sending client: how its numeric options
//! are read, which option combinations it refuses, and which display mode it
//! puts on the wire.
use vstd::prelude::*;
use vstd::string::StringSliceAdditionalSpecFns;
use crate::mime::{is_gif, is_gif_spec, proto_mode_value, ProtoDisplayMode};
use crate::text::{digits_value, is_digit, lemma_digits_value_grows};

verus! {

/// `--display-mode` as given on the command line.
#[derive(Clone, Copy, Debug, PartialEq, Eq, Structural)]
pub enum DisplayModeArg {
    /// Show image statically.
    Static,
    /// Scroll image horizontally.
    Scroll,
}

/// The options of the client that the scroll rules read.
#[derive(Clone, Copy, Debug, PartialEq, Eq, Structural)]
pub struct ScrollOptions {
    pub display_mode: Option<DisplayModeArg>,
    pub scroll_cycles: Option<u32>,
    pub min_display_seconds: u32,
}

/// A combination of options that the client refuses before it connects.
#[derive(Clone, Copy, Debug, PartialEq, Eq, Structural)]
pub enum ScrollOptionError {
    /// `--min-display-seconds` requires `--scroll-cycles`.
    MinDisplayWithoutCycles,
    /// `--scroll-cycles` cannot be used with GIF images.
    CyclesWithGif,
    /// `--scroll-cycles` cannot be used with `--display-mode static`.
    CyclesWithStatic,
}

/// The first rule that a combination breaks, in the order the client checks them.
pub open spec fn scroll_options_result(args: ScrollOptions, mime: Seq<u8>) -> Result<(), ScrollOptionError> {
    if args.min_display_seconds > 0 && args.scroll_cycles is None {
        Err(ScrollOptionError::MinDisplayWithoutCycles)
    } else if args.scroll_cycles is Some && is_gif_spec(mime) {
        Err(ScrollOptionError::CyclesWithGif)
    } else if args.scroll_cycles is Some && args.display_mode == Some(DisplayModeArg::Static) {
        Err(ScrollOptionError::CyclesWithStatic)
    } else {
        Ok(())
    }
}

/// The client refuses exactly three combinations: a minimum display time
/// without cycles, cycles with a GIF, and cycles with an explicit static mode.
/// Cycles with an explicit scroll mode, or with no mode, are sent.
pub proof fn lemma_scroll_option_rules(args: ScrollOptions, mime: Seq<u8>)
    ensures
        scroll_options_result(args, mime) is Ok <==> {
            &&& !(args.min_display_seconds > 0 && args.scroll_cycles is None)
            &&& !(args.scroll_cycles is Some && is_gif_spec(mime))
            &&& !(args.scroll_cycles is Some && args.display_mode == Some(DisplayModeArg::Static))
        },
        scroll_options_result(args, mime) == Err::<(), ScrollOptionError>(ScrollOptionError::CyclesWithStatic)
            ==> args.scroll_cycles is Some && args.display_mode == Some(DisplayModeArg::Static),
        args.scroll_cycles is Some && !is_gif_spec(mime) && args.display_mode != Some(DisplayModeArg::Static)
            ==> scroll_options_result(args, mime) is Ok,
        scroll_options_result(args, mime) == Err::<(), ScrollOptionError>(ScrollOptionError::MinDisplayWithoutCycles)
            <==> args.min_display_seconds > 0 && args.scroll_cycles is None,
{
}

pub fn validate_scroll_options(args: &ScrollOptions, mime_type: &str) -> (r: Result<(), ScrollOptionError>)
    ensures
        r == scroll_options_result(*args, mime_type.spec_bytes()),
        r == Err::<(), ScrollOptionError>(ScrollOptionError::CyclesWithStatic) ==> args.display_mode == Some(
            DisplayModeArg::Static,
        ),
        args.display_mode != Some(DisplayModeArg::Static) && !(args.min_display_seconds > 0
            && args.scroll_cycles is None) && !(args.scroll_cycles is Some && is_gif_spec(mime_type.spec_bytes()))
            ==> r is Ok,
{
    if args.min_display_seconds > 0 && args.scroll_cycles.is_none() {
        return Err(ScrollOptionError::MinDisplayWithoutCycles);
    }
    if args.scroll_cycles.is_some() && is_gif(mime_type) {
        return Err(ScrollOptionError::CyclesWithGif);
    }
    if args.scroll_cycles.is_some() && args.display_mode == Some(DisplayModeArg::Static) {
        return Err(ScrollOptionError::CyclesWithStatic);
    }
    Ok(())
}

/// The mode sent: an explicit choice as given; without one, scroll when cycles
/// are requested and leave it unspecified otherwise.
pub open spec fn requested_mode(args: ScrollOptions) -> ProtoDisplayMode {
    match args.display_mode {
        Some(DisplayModeArg::Static) => ProtoDisplayMode::Static,
        Some(DisplayModeArg::Scroll) => ProtoDisplayMode::Scroll,
        None => if args.scroll_cycles is Some {
            ProtoDisplayMode::Scroll
        } else {
            ProtoDisplayMode::Unspecified
        },
    }
}

/// An explicit mode is sent as given (static 1, scroll 2); without one, a
/// cycle request asks for scrolling (2) and any other leaves the mode
/// unspecified (0) for the server to infer.
pub proof fn lemma_requested_wire_mode(args: ScrollOptions)
    ensures
        args.display_mode == Some(DisplayModeArg::Static) ==> proto_mode_value(requested_mode(args)) == 1,
        args.display_mode == Some(DisplayModeArg::Scroll) ==> proto_mode_value(requested_mode(args)) == 2,
        args.display_mode is None && args.scroll_cycles is Some ==> proto_mode_value(requested_mode(args)) == 2,
        args.display_mode is None && args.scroll_cycles is None ==> proto_mode_value(requested_mode(args)) == 0,
{
}

/// The wire value of the display mode that the client requests.
pub fn request_display_mode(args: &ScrollOptions) -> (r: i32)
    ensures
        r == proto_mode_value(requested_mode(*args)),
        args.display_mode == Some(DisplayModeArg::Static) ==> r == 1,
        args.display_mode == Some(DisplayModeArg::Scroll) ==> r == 2,
        args.display_mode is None ==> r == (if args.scroll_cycles is Some { 2i32 } else { 0i32 }),
{
    let mode = match args.display_mode {
        Some(DisplayModeArg::Static) => ProtoDisplayMode::Static,
        Some(DisplayModeArg::Scroll) => ProtoDisplayMode::Scroll,
        None => if args.scroll_cycles.is_some() {
            ProtoDisplayMode::Scroll
        } else {
            ProtoDisplayMode::Unspecified
        },
    };
    mode.to_wire()
}

/// The scroll-cycle count on the wire: zero when none was given.
pub fn wire_scroll_cycles(args: &ScrollOptions) -> (r: u32)
    ensures
        r == (match args.scroll_cycles {
            Some(n) => n,
            None => 0,
        }),
{
    match args.scroll_cycles {
        Some(n) => n,
        None => 0,
    }
}

/// Why a numeric argument was refused.
#[derive(Clone, Copy, Debug, PartialEq, Eq, Structural)]
pub enum ArgError {
    /// Not a decimal integer that fits in 64 signed bits.
    Invalid,
    /// A number outside the range that the option accepts.
    OutOfRange,
}

/// The digits after an optional `+` or `-`, and whether the sign was `-`.
pub open spec fn split_sign(s: Seq<u8>) -> (bool, Seq<u8>) {
    if s.len() > 0 && s[0] == 43u8 {
        (false, s.drop_first())
    } else if s.len() > 0 && s[0] == 45u8 {
        (true, s.drop_first())
    } else {
        (false, s)
    }
}

/// A 64-bit signed decimal integer: an optional sign and at least one digit,
/// nothing else, within `i64` range.
pub open spec fn decimal_i64(s: Seq<u8>) -> Option<int> {
    let (negative, digits) = split_sign(s);
    if digits.len() == 0 || !(forall|i: int| 0 <= i < digits.len() ==> is_digit(#[trigger] digits[i])) {
        None
    } else {
        let v = if negative { -digits_value(digits) } else { digits_value(digits) };
        if i64::MIN <= v <= i64::MAX {
            Some(v)
        } else {
            None
        }
    }
}

/// What an integer option in `lo..=hi` makes of its text.
pub open spec fn ranged_result(s: Seq<u8>, lo: i64, hi: i64) -> Result<i64, ArgError> {
    match decimal_i64(s) {
        None => Err(ArgError::Invalid),
        Some(v) => if lo <= v <= hi {
            Ok(v as i64)
        } else {
            Err(ArgError::OutOfRange)
        },
    }
}

/// Read a decimal integer and accept it when it lies in `lo..=hi`.
pub fn parse_ranged_int(raw: &str, lo: i64, hi: i64) -> (r: Result<i64, ArgError>)
    ensures
        r == ranged_result(raw.spec_bytes(), lo, hi),
{
    let s = raw.as_bytes();
    let ghost split = split_sign(s@);
    let ghost negative = split.0;
    let ghost digits = split.1;
    let mut start: usize = 0;
    let mut neg = false;
    if s.len() > 0 && s[0] == 43u8 {
        start = 1;
    } else if s.len() > 0 && s[0] == 45u8 {
        start = 1;
        neg = true;
    }
    assert(digits =~= s@.subrange(start as int, s@.len() as int));
    assert(neg == negative);
    if start >= s.len() {
        return Err(ArgError::Invalid);
    }
    // Magnitudes above 2^63 are all out of range; `cap` stands for them.
    let cap: u64 = 0x8000_0000_0000_0001;
    let mut mag: u64 = 0;
    let mut i: usize = start;
    while i < s.len()
        invariant
            start <= i <= s@.len(),
            digits =~= s@.subrange(start as int, s@.len() as int),
            split_sign(s@) == (negative, digits),
            s@ == raw.spec_bytes(),
            cap == 0x8000_0000_0000_0001u64,
            forall|j: int| start <= j < i ==> is_digit(#[trigger] s@[j]),
            mag <= cap,
            mag < cap ==> mag == digits_value(s@.subrange(start as int, i as int)),
            mag == cap ==> digits_value(s@.subrange(start as int, i as int)) >= cap,
        decreases s@.len() - i,
    {
        let b = s[i];
        if b < 48 || b > 57 {
            assert(digits[i - start] == s@[i as int]);
            assert(!is_digit(digits[i - start]));
            return Err(ArgError::Invalid);
        }
        let ghost prefix = s@.subrange(start as int, i as int);
        proof {
            assert forall|j: int| 0 <= j < prefix.len() implies is_digit(#[trigger] prefix[j]) by {
                assert(prefix[j] == s@[start + j]);
            }
            lemma_digits_value_grows(prefix, b);
            assert(s@.subrange(start as int, i + 1) =~= prefix.push(b));
        }
        if mag > 922_337_203_685_477_580 {
            mag = cap;
        } else {
            mag = mag * 10 + (b - 48) as u64;
            if mag > cap {
                mag = cap;
            }
        }
        i += 1;
    }
    assert(s@.subrange(start as int, s@.len() as int) =~= digits);
    assert(forall|j: int| 0 <= j < digits.len() ==> is_digit(#[trigger] digits[j])) by {
        assert forall|j: int| 0 <= j < digits.len() implies is_digit(#[trigger] digits[j]) by {
            assert(digits[j] == s@[start + j]);
        }
    }
    let value: i64 = if neg {
        if mag > 0x8000_0000_0000_0000 {
            return Err(ArgError::Invalid);
        }
        if mag == 0x8000_0000_0000_0000 {
            i64::MIN
        } else {
            -(mag as i64)
        }
    } else {
        if mag > 0x7fff_ffff_ffff_ffff {
            return Err(ArgError::Invalid);
        }
        mag as i64
    };
    if lo <= value && value <= hi {
        Ok(value)
    } else {
        Err(ArgError::OutOfRange)
    }
}

/// `--scroll-cycles`: an integer from 1 to `u32::MAX`.
pub fn parse_scroll_cycles(raw: &str) -> (r: Result<u32, ArgError>)
    ensures
        r == (match ranged_result(raw.spec_bytes(), 1, u32::MAX as i64) {
            Ok(v) => Ok(v as u32),
            Err(e) => Err(e),
        }),
{
    match parse_ranged_int(raw, 1, 0xffff_ffff) {
        Ok(v) => Ok(v as u32),
        Err(e) => Err(e),
    }
}

/// `--min-display-seconds`: an integer from 0 to `u32::MAX`.
pub fn parse_min_display_seconds(raw: &str) -> (r: Result<u32, ArgError>)
    ensures
        r == (match ranged_result(raw.spec_bytes(), 0, u32::MAX as i64) {
            Ok(v) => Ok(v as u32),
            Err(e) => Err(e),
        }),
{
    match parse_ranged_int(raw, 0, 0xffff_ffff) {
        Ok(v) => Ok(v as u32),
        Err(e) => Err(e),
    }
}

/// `--duration`: an integer from 1 to `i32::MAX` seconds.
pub fn parse_duration_seconds(raw: &str) -> (r: Result<i32, ArgError>)
    ensures
        r == (match ranged_result(raw.spec_bytes(), 1, i32::MAX as i64) {
            Ok(v) => Ok(v as i32),
            Err(e) => Err(e),
        }),
{
    match parse_ranged_int(raw, 1, 0x7fff_ffff) {
        Ok(v) => Ok(v as i32),
        Err(e) => Err(e),
    }
}

} // verus!
