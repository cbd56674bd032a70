//! The batch loader: from the lines of a text file of hex-encoded frames to
//! the bytes of each frame, and from the decoded frames to their lines.

use crate::dump::{frame, frame_lines, headers_lines, sep, sep_line};
use crate::headers::{HeaderChain, Payloads};
use crate::text::{append_lines, lines_view, push_line, Line, SpanView};
use vstd::prelude::*;
use vstd::utf8::encode_utf8;

verus! {

/// Why a line of hexadecimal digits could not be decoded.
#[derive(Clone, Copy, Debug, PartialEq, Eq)]
pub enum HexError {
    /// The byte at `index` of the line is no hexadecimal digit; `c` is the
    /// character with the code of that byte.
    InvalidHexCharacter { c: char, index: usize },
    /// The line holds an odd number of digits.
    OddLength,
    /// The digits do not fill the place they were decoded into.
    InvalidStringLength,
}

/// One frame of a replay: its decoded headers, its bytes, and what was
/// computed of the bytes outside the header chain.
#[derive(Clone, Debug)]
pub struct Decoded {
    pub headers: HeaderChain,
    pub bytes: Vec<u8>,
    pub payloads: Payloads,
}

/// Whether a character is white space: one of the code points with the
/// Unicode property `White_Space`.
pub open spec fn is_space(c: char) -> bool {
    let u = c as u32;
    ||| 0x09 <= u <= 0x0d
    ||| u == 0x20
    ||| u == 0x85
    ||| u == 0xa0
    ||| u == 0x1680
    ||| 0x2000 <= u <= 0x200a
    ||| u == 0x2028
    ||| u == 0x2029
    ||| u == 0x202f
    ||| u == 0x205f
    ||| u == 0x3000
}

/// `text` without its white space.
pub open spec fn without_spaces(text: Seq<char>) -> Seq<char>
    decreases text.len(),
{
    if text.len() == 0 {
        Seq::empty()
    } else if is_space(text.last()) {
        without_spaces(text.drop_last())
    } else {
        without_spaces(text.drop_last()).push(text.last())
    }
}

/// Whether a byte is the ASCII code of a hexadecimal digit, in either case.
pub open spec fn is_hex_digit(b: u8) -> bool {
    ||| 0x30 <= b <= 0x39
    ||| 0x41 <= b <= 0x46
    ||| 0x61 <= b <= 0x66
}

/// The value of a hexadecimal digit.
pub open spec fn hex_value(b: u8) -> int {
    if 0x30 <= b <= 0x39 {
        b - 0x30
    } else if 0x41 <= b <= 0x46 {
        b - 0x41 + 10
    } else {
        b - 0x61 + 10
    }
}

/// Where the first byte from `from` on stands that is no hexadecimal digit;
/// the length of `digits` where there is none.
pub open spec fn first_non_hex(digits: Seq<u8>, from: int) -> int
    decreases digits.len() - from,
{
    if from < 0 || from >= digits.len() {
        digits.len() as int
    } else if !is_hex_digit(digits[from]) {
        from
    } else {
        first_non_hex(digits, from + 1)
    }
}

/// The bytes that pairs of hexadecimal digits stand for, the more
/// significant digit of each pair first.
pub open spec fn hex_bytes(digits: Seq<u8>) -> Seq<u8> {
    Seq::new(
        digits.len() / 2,
        |i: int| (hex_value(digits[2 * i]) * 16 + hex_value(digits[2 * i + 1])) as u8,
    )
}

/// What decoding a line of hexadecimal digits gives: an error for an odd
/// number of digits; else an error for the first byte that is no digit;
/// else one byte for each pair of digits.
pub open spec fn hex_decoded(digits: Seq<u8>) -> Result<Seq<u8>, HexError> {
    if digits.len() % 2 != 0 {
        Err(HexError::OddLength)
    } else if first_non_hex(digits, 0) < digits.len() {
        Err(
            HexError::InvalidHexCharacter {
                c: digits[first_non_hex(digits, 0)] as char,
                index: first_non_hex(digits, 0) as usize,
            },
        )
    } else {
        Ok(hex_bytes(digits))
    }
}

/// The value of a decoded line.
pub open spec fn decoded_view(r: Result<Vec<u8>, HexError>) -> Result<Seq<u8>, HexError> {
    match r {
        Ok(v) => Ok(v@),
        Err(e) => Err(e),
    }
}

/// Decodes a line of hexadecimal digits with `hex::decode`. That function
/// refuses an odd number of digits first; it then decodes pair by pair, the
/// more significant digit first, takes digits of either case, and stops at
/// the first byte that is no digit, which it reports with its position.
#[verifier::external_body]
fn hex_decode(digits: &[u8]) -> (r: Result<Vec<u8>, HexError>)
    ensures
        decoded_view(r) == hex_decoded(digits@),
{
    match hex::decode(digits) {
        Ok(data) => Ok(data),
        Err(hex::FromHexError::InvalidHexCharacter { c, index }) => Err(
            HexError::InvalidHexCharacter { c, index },
        ),
        Err(hex::FromHexError::OddLength) => Err(HexError::OddLength),
        Err(hex::FromHexError::InvalidStringLength) => Err(HexError::InvalidStringLength),
    }
}

/// Whether a character is white space.
pub fn is_whitespace(c: char) -> (r: bool)
    ensures
        r == is_space(c),
{
    let u = c as u32;
    (0x09 <= u && u <= 0x0d) || u == 0x20 || u == 0x85 || u == 0xa0 || u == 0x1680 || (0x2000 <= u
        && u <= 0x200a) || u == 0x2028 || u == 0x2029 || u == 0x202f || u == 0x205f || u == 0x3000
}

/// A copy of `line` without its white space.
pub fn strip_whitespace(line: &str) -> (r: String)
    ensures
        r@ == without_spaces(line@),
{
    let mut out = String::new();
    for c in it: line.chars()
        invariant
            it.seq() == line@,
            out@ == without_spaces(line@.take(it.index())),
    {
        proof {
            let i = it.index();
            assert(line@.take(i + 1).drop_last() =~= line@.take(i));
            assert(line@.take(i + 1).last() == c);
        }
        if !is_whitespace(c) {
            out.push(c);
        }
    }
    proof {
        assert(line@.take(line@.len() as int) =~= line@);
    }
    out
}

/// The state of the loader between two lines: the frames that are complete,
/// and the bytes of the frame that is being read.
pub struct Progress {
    pub done: Seq<Seq<u8>>,
    pub open_frame: Seq<u8>,
}

/// The state of the loader behind one more line. A line that holds nothing
/// but white space closes the frame that is being read, even if it is empty.
/// Any other line is decoded, white space left out, and its bytes go to the
/// frame that is being read.
pub open spec fn step(p: Progress, line: Seq<char>) -> Result<Progress, HexError> {
    let digits = without_spaces(line);
    if digits.len() == 0 {
        Ok(Progress { done: p.done.push(p.open_frame), open_frame: Seq::empty() })
    } else {
        match hex_decoded(encode_utf8(digits)) {
            Ok(data) => Ok(Progress { done: p.done, open_frame: p.open_frame + data }),
            Err(e) => Err(e),
        }
    }
}

/// The state of the loader behind `lines`, or the error of the first line
/// that cannot be decoded.
pub open spec fn scanned(lines: Seq<Seq<char>>) -> Result<Progress, HexError>
    decreases lines.len(),
{
    if lines.len() == 0 {
        Ok(Progress { done: Seq::empty(), open_frame: Seq::empty() })
    } else {
        match scanned(lines.drop_last()) {
            Ok(p) => step(p, lines.last()),
            Err(e) => Err(e),
        }
    }
}

/// The frames that `lines` hold: each group of lines of hexadecimal digits,
/// closed by a blank line or by the end of the lines, is one frame, whose
/// bytes are those of its lines one after the other. The end of the lines
/// closes a frame only if it holds a byte. The error of the first line that
/// cannot be decoded, if there is one.
pub open spec fn parsed(lines: Seq<Seq<char>>) -> Result<Seq<Seq<u8>>, HexError> {
    match scanned(lines) {
        Ok(p) => if p.open_frame.len() > 0 {
            Ok(p.done.push(p.open_frame))
        } else {
            Ok(p.done)
        },
        Err(e) => Err(e),
    }
}

/// The value of a list of lines of text.
pub open spec fn texts(lines: Seq<String>) -> Seq<Seq<char>> {
    lines.map_values(|l: String| l@)
}

/// The value of a list of frames.
pub open spec fn frames_view(frames: Seq<Vec<u8>>) -> Seq<Seq<u8>> {
    frames.map_values(|f: Vec<u8>| f@)
}

/// The value of what the loader returns.
pub open spec fn parse_view(r: Result<Vec<Vec<u8>>, HexError>) -> Result<Seq<Seq<u8>>, HexError> {
    match r {
        Ok(frames) => Ok(frames_view(frames@)),
        Err(e) => Err(e),
    }
}

/// Reads the frames of a batch from the lines of its text. Groups of lines of
/// hexadecimal digits are one frame each; a blank line or the end of the
/// lines closes a frame; white space is ignored. The first line that cannot
/// be decoded ends the batch with its error.
pub fn parse(lines: &Vec<String>) -> (r: Result<Vec<Vec<u8>>, HexError>)
    ensures
        parse_view(r) == parsed(texts(lines@)),
{
    let mut result: Vec<Vec<u8>> = Vec::new();
    let mut frame: Vec<u8> = Vec::new();
    let mut i: usize = 0;
    proof {
        assert(frames_view(result@) =~= Seq::<Seq<u8>>::empty());
        assert(texts(lines@).take(0).len() == 0);
    }
    while i < lines.len()
        invariant
            i <= lines.len(),
            scanned(texts(lines@).take(i as int)) == Ok::<Progress, HexError>(
                Progress { done: frames_view(result@), open_frame: frame@ },
            ),
        decreases lines.len() - i,
    {
        proof {
            assert(texts(lines@).take(i + 1).drop_last() =~= texts(lines@).take(i as int));
            assert(texts(lines@).take(i + 1).last() == lines@[i as int]@);
        }
        let digits = strip_whitespace(lines[i].as_str());
        if digits.as_str().is_empty() {
            proof {
                assert(frames_view(result@.push(frame)) =~= frames_view(result@).push(frame@));
            }
            result.push(frame);
            frame = Vec::new();
        } else {
            match hex_decode(digits.as_str().as_bytes()) {
                Ok(mut data) => {
                    frame.append(&mut data);
                },
                Err(e) => {
                    proof {
                        assert(texts(lines@).take(i + 1) == texts(lines@).subrange(0, i + 1));
                        scanned_error_stays(texts(lines@), i + 1);
                    }
                    return Err(e);
                },
            }
        }
        i += 1;
    }
    proof {
        assert(texts(lines@).take(i as int) =~= texts(lines@));
    }
    if frame.len() > 0 {
        proof {
            assert(frames_view(result@.push(frame)) =~= frames_view(result@).push(frame@));
        }
        result.push(frame);
    }
    Ok(result)
}

/// Once a line cannot be decoded, no later line makes up for it.
pub proof fn scanned_error_stays(lines: Seq<Seq<char>>, n: int)
    requires
        0 <= n <= lines.len(),
        scanned(lines.take(n)) is Err,
    ensures
        scanned(lines) == scanned(lines.take(n)),
    decreases lines.len() - n,
{
    if n == lines.len() {
        assert(lines.take(n) =~= lines);
    } else {
        assert(lines.take(n + 1).drop_last() =~= lines.take(n));
        scanned_error_stays(lines, n + 1);
    }
}

/// Whether `lines` are lines of one frame: none is blank, and each holds
/// pairs of hexadecimal digits and white space only.
pub open spec fn is_group(lines: Seq<Seq<char>>) -> bool {
    forall|i: int|
        0 <= i < lines.len() ==> without_spaces(#[trigger] lines[i]).len() > 0 && hex_decoded(
            encode_utf8(without_spaces(lines[i])),
        ) is Ok
}

/// The bytes that the lines of one frame stand for, line after line.
pub open spec fn group_bytes(lines: Seq<Seq<char>>) -> Seq<u8>
    decreases lines.len(),
{
    if lines.len() == 0 {
        Seq::empty()
    } else {
        group_bytes(lines.drop_last()) + hex_bytes(encode_utf8(without_spaces(lines.last())))
    }
}

/// Lines of hexadecimal digits add their bytes to the frame that is being
/// read, and close no frame.
pub proof fn scanned_group(before: Seq<Seq<char>>, group: Seq<Seq<char>>)
    requires
        scanned(before) is Ok,
        is_group(group),
    ensures
        scanned(before + group) == Ok::<Progress, HexError>(
            Progress {
                done: scanned(before)->Ok_0.done,
                open_frame: scanned(before)->Ok_0.open_frame + group_bytes(group),
            },
        ),
    decreases group.len(),
{
    let p = scanned(before)->Ok_0;
    if group.len() == 0 {
        assert(before + group =~= before);
        assert(p.open_frame + group_bytes(group) =~= p.open_frame);
    } else {
        assert forall|i: int| 0 <= i < group.drop_last().len() implies without_spaces(
            #[trigger] group.drop_last()[i],
        ).len() > 0 && hex_decoded(encode_utf8(without_spaces(group.drop_last()[i]))) is Ok by {
            assert(group.drop_last()[i] == group[i]);
        }
        scanned_group(before, group.drop_last());
        assert((before + group).drop_last() =~= before + group.drop_last());
        assert((before + group).last() == group[group.len() - 1]);
        assert(p.open_frame + group_bytes(group.drop_last()) + hex_bytes(
            encode_utf8(without_spaces(group.last())),
        ) =~= p.open_frame + group_bytes(group));
    }
}

/// Lines of one frame, if there are any, stand for at least one byte.
pub proof fn group_holds_a_byte(group: Seq<Seq<char>>)
    requires
        is_group(group),
        group.len() > 0,
    ensures
        group_bytes(group).len() > 0,
{
    let digits = without_spaces(group.last());
    assert(group[group.len() - 1] == group.last());
    assert(encode_utf8(digits).len() > 0);
    assert(encode_utf8(digits).len() >= 2);
}

/// Two groups of lines of hexadecimal digits with one blank line between
/// them are exactly two frames, each made of the bytes of its group, in the
/// order of the lines.
pub proof fn two_groups_are_two_frames(
    first: Seq<Seq<char>>,
    blank: Seq<char>,
    second: Seq<Seq<char>>,
)
    requires
        is_group(first),
        is_group(second),
        second.len() > 0,
        without_spaces(blank).len() == 0,
    ensures
        parsed(first.push(blank) + second) == Ok::<Seq<Seq<u8>>, HexError>(
            seq![group_bytes(first), group_bytes(second)],
        ),
{
    let none = Seq::<Seq<char>>::empty();
    scanned_group(none, first);
    assert(none + first =~= first);
    assert(first.push(blank).drop_last() =~= first);
    assert(Seq::<u8>::empty() + group_bytes(first) =~= group_bytes(first));
    scanned_group(first.push(blank), second);
    group_holds_a_byte(second);
    assert(Seq::<u8>::empty() + group_bytes(second) =~= group_bytes(second));
    assert(Seq::<Seq<u8>>::empty().push(group_bytes(first)).push(group_bytes(second)) =~= seq![
        group_bytes(first),
        group_bytes(second),
    ]);
}

/// The lines of `groups` with one blank line between each group and the
/// next.
pub open spec fn joined(groups: Seq<Seq<Seq<char>>>, blank: Seq<char>) -> Seq<Seq<char>>
    decreases groups.len(),
{
    if groups.len() == 0 {
        Seq::empty()
    } else if groups.len() == 1 {
        groups[0]
    } else {
        joined(groups.drop_last(), blank).push(blank) + groups.last()
    }
}

/// Whether each of `groups` holds the lines of one frame, and at least one
/// line.
pub open spec fn are_groups(groups: Seq<Seq<Seq<char>>>) -> bool {
    forall|i: int|
        0 <= i < groups.len() ==> is_group(#[trigger] groups[i]) && groups[i].len() > 0
}

/// The bytes of each of `groups`, in their order.
pub open spec fn groups_bytes(groups: Seq<Seq<Seq<char>>>) -> Seq<Seq<u8>> {
    Seq::new(groups.len(), |i: int| group_bytes(groups[i]))
}

/// Behind groups with blank lines between them, the frames of all groups but
/// the last are complete, and the frame of the last group is being read.
pub proof fn scanned_groups(groups: Seq<Seq<Seq<char>>>, blank: Seq<char>)
    requires
        are_groups(groups),
        groups.len() > 0,
        without_spaces(blank).len() == 0,
    ensures
        scanned(joined(groups, blank)) == Ok::<Progress, HexError>(
            Progress {
                done: groups_bytes(groups.drop_last()),
                open_frame: group_bytes(groups.last()),
            },
        ),
    decreases groups.len(),
{
    let none = Seq::<Seq<char>>::empty();
    let last = groups.last();
    assert(last == groups[groups.len() - 1]);
    if groups.len() == 1 {
        scanned_group(none, last);
        assert(none + last =~= last);
        assert(Seq::<u8>::empty() + group_bytes(last) =~= group_bytes(last));
        assert(groups_bytes(groups.drop_last()) =~= Seq::<Seq<u8>>::empty());
    } else {
        let before = groups.drop_last();
        assert forall|i: int| 0 <= i < before.len() implies is_group(#[trigger] before[i])
            && before[i].len() > 0 by {
            assert(before[i] == groups[i]);
        }
        scanned_groups(before, blank);
        let lines = joined(before, blank);
        assert(lines.push(blank).drop_last() =~= lines);
        assert(lines.push(blank).last() == blank);
        assert(groups_bytes(before.drop_last()).push(group_bytes(before.last()))
            =~= groups_bytes(before));
        scanned_group(lines.push(blank), last);
        assert(Seq::<u8>::empty() + group_bytes(last) =~= group_bytes(last));
    }
}

/// Any number of groups of lines of hexadecimal digits, with one blank line
/// between each group and the next, are as many frames, in the order of the
/// groups, each made of the bytes of its group: no byte is lost, doubled or
/// moved to another frame.
pub proof fn groups_are_frames(groups: Seq<Seq<Seq<char>>>, blank: Seq<char>)
    requires
        are_groups(groups),
        without_spaces(blank).len() == 0,
    ensures
        parsed(joined(groups, blank)) == Ok::<Seq<Seq<u8>>, HexError>(groups_bytes(groups)),
{
    if groups.len() == 0 {
        assert(groups_bytes(groups) =~= Seq::<Seq<u8>>::empty());
    } else {
        scanned_groups(groups, blank);
        assert(groups[groups.len() - 1] == groups.last());
        group_holds_a_byte(groups.last());
        assert(groups_bytes(groups.drop_last()).push(group_bytes(groups.last()))
            =~= groups_bytes(groups));
    }
}

/// The lines of a replay: the separator, then for each frame in turn the
/// lines of its headers and the separator that closes the frame.
pub open spec fn run_lines(frames: Seq<Decoded>) -> Seq<Seq<SpanView>>
    decreases frames.len(),
{
    if frames.len() == 0 {
        seq![sep_line()]
    } else {
        run_lines(frames.drop_last()) + frame_lines(
            frames.last().headers,
            frames.last().bytes@,
            frames.last().payloads,
            false,
        )
    }
}

/// Renders a replay: the separator, then each frame in the order of the
/// file, its headers first and a separator behind them.
pub fn run(frames: Vec<Decoded>) -> (r: Vec<Line>)
    ensures
        lines_view(r@) == run_lines(frames@),
{
    let mut lines: Vec<Line> = Vec::new();
    push_line(&mut lines, sep());
    let ghost all = frames@;
    for f in it: frames
        invariant
            it.seq() == all,
            lines_view(lines@) == run_lines(all.take(it.index())),
    {
        proof {
            let i = it.index();
            assert(all.take(i + 1).drop_last() =~= all.take(i));
            assert(all.take(i + 1).last() == f);
        }
        let more = frame(f.headers, f.bytes.as_slice(), f.payloads, false);
        append_lines(&mut lines, more);
    }
    proof {
        assert(all.take(all.len() as int) =~= all);
    }
    lines
}

/// A replay of one frame is the separator, the lines of the headers of the
/// frame, and the separator again.
pub proof fn replay_closes_each_frame(f: Decoded)
    ensures
        run_lines(seq![f]) == seq![sep_line()] + headers_lines(f.headers, f.bytes@, f.payloads)
            + seq![sep_line()],
{
    assert(seq![f].drop_last() =~= Seq::<Decoded>::empty());
    reveal_with_fuel(run_lines, 2);
}

} // verus!
