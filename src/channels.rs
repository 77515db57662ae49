use vstd::prelude::*;

verus! {

/// Frame index of the left output when no channel is chosen.
pub const DEFAULT_AUDIO_OUTPUT_LEFT_FRAME_INDEX: usize = 0;
/// Frame index of the right output when no channel is chosen.
pub const DEFAULT_AUDIO_OUTPUT_RIGHT_FRAME_INDEX: usize = 1;
/// Channels are named from one, frames are indexed from zero.
pub const CHANNEL_TO_FRAME_INDEX_OFFSET: usize = 1;

/// Whether every character of `s` is a decimal digit.
pub open spec fn all_decimal_digits(s: Seq<char>) -> bool {
    forall|i: int| 0 <= i < s.len() ==> '0' <= #[trigger] s[i] <= '9'
}

/// The number that the decimal digits `s` write.
pub open spec fn decimal_value(s: Seq<char>) -> int
    decreases s.len(),
{
    if s.len() == 0 {
        0
    } else {
        decimal_value(s.drop_last()) * 10 + (s.last() as int - '0' as int)
    }
}

/// What `str::parse::<usize>` gives for `s`: an optional `+` followed by at least one
/// decimal digit, whose value fits in a `usize`.
pub open spec fn parsed_usize(s: Seq<char>) -> Option<usize> {
    let digits = if s.len() > 0 && s[0] == '+' {
        s.drop_first()
    } else {
        s
    };
    if digits.len() > 0 && all_decimal_digits(digits) && decimal_value(digits) <= usize::MAX {
        Some(decimal_value(digits) as usize)
    } else {
        None
    }
}

/// The frame index of the channel named `name`, when it names one.
pub open spec fn frame_index_of(name: Seq<char>) -> Option<usize> {
    match parsed_usize(name) {
        Some(channel) => if channel >= CHANNEL_TO_FRAME_INDEX_OFFSET {
            Some((channel - CHANNEL_TO_FRAME_INDEX_OFFSET) as usize)
        } else {
            None
        },
        None => None,
    }
}

/// Relies on `str::parse::<usize>` (`usize::from_str`): an optional `+` and then only
/// decimal digits, whose value must fit, else an error.
#[verifier::external_body]
fn parse_usize(s: &str) -> (r: Option<usize>)
    ensures
        r == parsed_usize(s@),
{
    s.parse::<usize>().ok()
}

fn frame_index_from_channel_name(name: &str) -> (r: Option<usize>)
    ensures
        r == frame_index_of(name@),
{
    match parse_usize(name) {
        Some(channel) => if channel >= CHANNEL_TO_FRAME_INDEX_OFFSET {
            Some(channel - CHANNEL_TO_FRAME_INDEX_OFFSET)
        } else {
            None
        },
        None => None,
    }
}

/// Frame indexes of the output channels named `left` and `right` (numbered from one).
/// A left name that names no channel falls back to the first frame; a right name that
/// names none leaves the right channel out.
pub fn get_channel_frame_indexes_from_channel_names(left: &str, right: &str) -> (r: (
    usize,
    Option<usize>,
))
    ensures
        r.0 == match frame_index_of(left@) {
            Some(index) => index,
            None => DEFAULT_AUDIO_OUTPUT_LEFT_FRAME_INDEX,
        },
        r.1 == frame_index_of(right@),
{
    let left_channel_index = match frame_index_from_channel_name(left) {
        Some(index) => index,
        None => DEFAULT_AUDIO_OUTPUT_LEFT_FRAME_INDEX,
    };
    (left_channel_index, frame_index_from_channel_name(right))
}

} // verus!
