//! Loading a script from the text of a WebVTT file.
//!
//! The text is parsed by the `webvtt` crate. Around that call this module
//! drops a leading byte order mark, turns away the texts that the parser
//! cannot take, and makes sure that what comes out can be a script: at least
//! one cue, every cue ending no earlier than it starts, every time within
//! the range of this crate's clock.

use vstd::prelude::*;
use vstd::string::StringSliceAdditionalSpecFns;
use crate::cue::{Cue, CueList, CueView};

verus! {

/// The most decimal digits that may stand in a row on a line from which the
/// parser reads a cue's times.
pub const MAX_DIGITS: usize = 12;

/// Why a text gives no script.
#[derive(Clone, Copy, Debug, PartialEq, Eq, Structural)]
pub enum LoadError {
    /// The text does not begin with `WEBVTT`.
    NoMagic,
    /// Something other than a space, a tab or a line feed follows `WEBVTT`.
    BadHeader,
    /// The text holds a block on which the parser stops or may stop: a
    /// `STYLE` or `REGION` block with something in it, or more than twelve
    /// digits in a row on the line that gives a cue's times. Such a text is
    /// not handed to the parser.
    Unsupported,
    /// The text holds no cue.
    NoCues,
    /// The cue at this place has a time beyond what 64 bits of nanoseconds
    /// can hold.
    TimeOutOfRange { index: usize },
    /// The cue at this place ends before it starts.
    Inverted { index: usize },
}

/// The byte is a decimal digit.
pub open spec fn is_digit(byte: u8) -> bool {
    0x30 <= byte <= 0x39
}

/// How many decimal digits stand in a row just before place `i`.
pub open spec fn digits_before(bytes: Seq<u8>, i: int) -> nat
    decreases i,
{
    if i <= 0 || i > bytes.len() {
        0
    } else if is_digit(bytes[i - 1]) {
        digits_before(bytes, i - 1) + 1
    } else {
        0
    }
}

/// The bytes of `STYLE` stand at place `i`.
pub open spec fn style_at(bytes: Seq<u8>, i: int) -> bool {
    &&& 0 <= i
    &&& i + 5 <= bytes.len()
    &&& bytes[i] == 0x53
    &&& bytes[i + 1] == 0x54
    &&& bytes[i + 2] == 0x59
    &&& bytes[i + 3] == 0x4c
    &&& bytes[i + 4] == 0x45
}

/// The bytes of `REGION` stand at place `i`.
pub open spec fn region_at(bytes: Seq<u8>, i: int) -> bool {
    &&& 0 <= i
    &&& i + 6 <= bytes.len()
    &&& bytes[i] == 0x52
    &&& bytes[i + 1] == 0x45
    &&& bytes[i + 2] == 0x47
    &&& bytes[i + 3] == 0x49
    &&& bytes[i + 4] == 0x4f
    &&& bytes[i + 5] == 0x4e
}

/// The bytes of `-->` stand at place `i`.
pub open spec fn arrow_at(bytes: Seq<u8>, i: int) -> bool {
    &&& 0 <= i
    &&& i + 3 <= bytes.len()
    &&& bytes[i] == 0x2d
    &&& bytes[i + 1] == 0x2d
    &&& bytes[i + 2] == 0x3e
}

/// Where the line that holds place `i` ends: at the next line feed at or
/// after `i`, or at the end of the text.
pub open spec fn line_end(bytes: Seq<u8>, i: int) -> int
    decreases bytes.len() - i,
{
    if i < 0 || i >= bytes.len() || bytes[i] == 0x0a {
        i
    } else {
        line_end(bytes, i + 1)
    }
}

/// The stretch from `from` up to, not including, `to` holds `-->`.
pub open spec fn holds_arrow(bytes: Seq<u8>, from: int, to: int) -> bool {
    exists|j: int| from <= j && j + 3 <= to && #[trigger] arrow_at(bytes, j)
}

/// Nowhere in the stretch from `from` to `to` do more than `MAX_DIGITS`
/// digits stand in a row.
pub open spec fn digits_within(bytes: Seq<u8>, from: int, to: int) -> bool {
    forall|j: int| from <= j <= to ==> #[trigger] digits_before(bytes, j) <= MAX_DIGITS
}

/// A block begins at place `i`: a line that is not empty begins there, and
/// the line before it is the first line of the text or is empty.
pub open spec fn block_start_at(bytes: Seq<u8>, i: int) -> bool {
    &&& 0 < i < bytes.len()
    &&& bytes[i - 1] == 0x0a
    &&& bytes[i] != 0x0a
    &&& (line_end(bytes, 0) == i - 1 || (i >= 2 && bytes[i - 2] == 0x0a))
}

/// The parser can take the block that begins at place `start`.
///
/// The parser reads a cue's times from the first line of a block where that
/// line holds `-->`, and else from the second line where that one holds
/// `-->`; on such a line no more than `MAX_DIGITS` digits may stand in a
/// row. Where neither line holds `-->` and the second line is not empty,
/// the first line may not begin with `STYLE` or `REGION`.
pub open spec fn block_supported(bytes: Seq<u8>, start: int) -> bool {
    let end = line_end(bytes, start);
    let next = end + 1;
    let next_end = line_end(bytes, next);
    if holds_arrow(bytes, start, end) {
        digits_within(bytes, start, end)
    } else if end >= bytes.len() {
        true
    } else if holds_arrow(bytes, next, next_end) {
        digits_within(bytes, next, next_end)
    } else if next_end == next {
        true
    } else {
        !style_at(bytes, start) && !region_at(bytes, start)
    }
}

/// The parser can take every block of the text.
pub open spec fn body_supported(bytes: Seq<u8>) -> bool {
    forall|start: int| #[trigger]
        block_start_at(bytes, start) ==> block_supported(bytes, start)
}

/// The text begins with the bytes of `WEBVTT`.
pub open spec fn has_magic(bytes: Seq<u8>) -> bool {
    &&& bytes.len() >= 6
    &&& bytes[0] == 0x57
    &&& bytes[1] == 0x45
    &&& bytes[2] == 0x42
    &&& bytes[3] == 0x56
    &&& bytes[4] == 0x54
    &&& bytes[5] == 0x54
}

/// The text begins with `WEBVTT`, and the first line ends there or goes on
/// with a space or a tab.
pub open spec fn well_headed(bytes: Seq<u8>) -> bool {
    &&& has_magic(bytes)
    &&& bytes.len() == 6 || bytes[6] == 0x0a || bytes[6] == 0x20 || bytes[6] == 0x09
}

/// The error that the parser gives for a text that is not well headed.
pub open spec fn header_fault(bytes: Seq<u8>) -> webvtt::Error {
    if has_magic(bytes) {
        webvtt::Error::BadHeader
    } else {
        webvtt::Error::NoMagic
    }
}

/// The text without a byte order mark at its start.
pub open spec fn without_bom(text: Seq<char>) -> Seq<char> {
    if text.len() > 0 && text[0] == '\u{feff}' {
        text.subrange(1, text.len() as int)
    } else {
        text
    }
}

/// What is wrong with one block of a parsed file, if anything: a time that
/// does not fit the clock, or an end before the start. A block is its start
/// and its end, in nanoseconds, and its text.
pub open spec fn block_fault(block: (nat, nat, Seq<char>), index: usize) -> Option<LoadError> {
    if block.0 > u64::MAX || block.1 > u64::MAX {
        Some(LoadError::TimeOutOfRange { index })
    } else if block.0 > block.1 {
        Some(LoadError::Inverted { index })
    } else {
        None
    }
}

/// The cue that a block stands for.
pub open spec fn cue_of(block: (nat, nat, Seq<char>)) -> CueView {
    CueView { start: block.0, end: block.1, text: block.2 }
}

/// `outcome` is what the blocks of a parsed file give: the script with one
/// cue for each block, in order, where no block is at fault and there is at
/// least one; else the fault of the first block at fault, or that there are
/// no cues.
pub open spec fn is_script_of(
    blocks: Seq<(nat, nat, Seq<char>)>,
    outcome: Result<Seq<CueView>, LoadError>,
) -> bool {
    match outcome {
        Ok(cues) => {
            &&& blocks.len() > 0
            &&& cues.len() == blocks.len()
            &&& forall|i: int|
                0 <= i < blocks.len() ==> block_fault(#[trigger] blocks[i], i as usize) is None
                    && cues[i] == cue_of(blocks[i])
        },
        Err(error) => if blocks.len() == 0 {
            error == LoadError::NoCues
        } else {
            exists|i: int|
                {
                    &&& 0 <= i < blocks.len()
                    &&& block_fault(#[trigger] blocks[i], i as usize) == Some(error)
                    &&& forall|j: int|
                        0 <= j < i ==> block_fault(#[trigger] blocks[j], j as usize) is None
                }
        },
    }
}

/// The script, or the error, as a value of mathematics.
pub open spec fn outcome_view(outcome: Result<CueList, LoadError>) -> Result<
    Seq<CueView>,
    LoadError,
> {
    match outcome {
        Ok(list) => Ok(list@),
        Err(error) => Err(error),
    }
}

/// `outcome` is what loading the text gives.
///
/// A byte order mark at the start is dropped first. A text that does not
/// begin with `WEBVTT`, or goes on wrongly after it, gives the error for
/// that. A text with a block that the parser cannot take is unsupported.
/// Any other text is parsed, and its blocks give the script or the error.
pub open spec fn is_loaded(text: Seq<char>, outcome: Result<Seq<CueView>, LoadError>) -> bool {
    let stripped = without_bom(text);
    let bytes = vstd::utf8::encode_utf8(stripped);
    if !has_magic(bytes) {
        outcome == Err::<Seq<CueView>, LoadError>(LoadError::NoMagic)
    } else if !well_headed(bytes) {
        outcome == Err::<Seq<CueView>, LoadError>(LoadError::BadHeader)
    } else if !body_supported(bytes) {
        outcome == Err::<Seq<CueView>, LoadError>(LoadError::Unsupported)
    } else {
        is_script_of(parsed_blocks(stripped), outcome)
    }
}

/// A parsed WebVTT file, as the `webvtt` crate holds it.
#[verifier::external_type_specification]
#[verifier::external_body]
pub struct ExFile(webvtt::File);

/// The errors of the `webvtt` crate's parser.
#[verifier::external_type_specification]
pub struct ExError(webvtt::Error);

/// The blocks of the file that `webvtt::parse_file` gives for a text: for
/// each, its start and its end in nanoseconds and its text.
pub uninterp spec fn parsed_blocks(text: Seq<char>) -> Seq<(nat, nat, Seq<char>)>;

/// The blocks that a parsed file holds: for each, its start and its end in
/// nanoseconds and its text.
pub uninterp spec fn file_blocks(file: webvtt::File) -> Seq<(nat, nat, Seq<char>)>;

/// Calls `webvtt::parse_file`.
///
/// The parser splits the text at line feeds and reads it block by block; a
/// block runs from a line that is not empty to the next empty line. It
/// stops with a panic in two places. One is a block whose first two lines
/// hold no `-->`, whose second line is not empty and whose first line
/// begins with `STYLE` or `REGION`. The other is the line from which it
/// reads a cue's times, which is the first line of a block that holds
/// `-->`, or the second where the first holds none: there it stops on a
/// leading number that does not fit 64 bits or brings the time in
/// milliseconds beyond them, which takes more than twelve digits. It meets
/// neither in a text whose body is supported, and it does not look at the
/// body of a text that is not well headed. It fails on exactly the texts
/// that are not well headed, with `NoMagic` where `WEBVTT` is missing and
/// `BadHeader` otherwise. What it gives for any other text depends on the
/// text alone.
#[verifier::external_body]
fn parse_file(text: &str) -> (parsed: Result<webvtt::File, webvtt::Error>)
    requires
        well_headed(text.spec_bytes()) ==> body_supported(text.spec_bytes()),
    ensures
        parsed is Ok <==> well_headed(text.spec_bytes()),
        parsed matches Ok(file) ==> file_blocks(file) == parsed_blocks(text@),
        parsed matches Err(error) ==> error == header_fault(text.spec_bytes()),
{
    webvtt::parse_file(text)
}

/// The number of blocks in `file.blocks`.
#[verifier::external_body]
fn block_count(file: &webvtt::File) -> (count: usize)
    ensures
        count == file_blocks(*file).len(),
{
    file.blocks.len()
}

/// The start of the cue in `file.blocks[index]`, by `Duration::as_nanos`.
#[verifier::external_body]
fn block_start(file: &webvtt::File, index: usize) -> (nanos: u128)
    requires
        index < file_blocks(*file).len(),
    ensures
        nanos == file_blocks(*file)[index as int].0,
{
    match &file.blocks[index] {
        webvtt::Block::Cue(cue) => cue.start.as_nanos(),
    }
}

/// The end of the cue in `file.blocks[index]`, by `Duration::as_nanos`.
#[verifier::external_body]
fn block_end(file: &webvtt::File, index: usize) -> (nanos: u128)
    requires
        index < file_blocks(*file).len(),
    ensures
        nanos == file_blocks(*file)[index as int].1,
{
    match &file.blocks[index] {
        webvtt::Block::Cue(cue) => cue.end.as_nanos(),
    }
}

/// A copy of the text of the cue in `file.blocks[index]`.
#[verifier::external_body]
fn block_text(file: &webvtt::File, index: usize) -> (text: String)
    requires
        index < file_blocks(*file).len(),
    ensures
        text@ == file_blocks(*file)[index as int].2,
{
    match &file.blocks[index] {
        webvtt::Block::Cue(cue) => cue.text.clone(),
    }
}

/// The text without a byte order mark at its start.
pub fn strip_bom(text: &str) -> (stripped: &str)
    ensures
        stripped@ == without_bom(text@),
{
    let len: usize = text.unicode_len();
    if len > 0 && text.get_char(0) == '\u{feff}' {
        text.substring_char(1, len)
    } else {
        text
    }
}

fn is_style_at(bytes: &[u8], i: usize) -> (found: bool)
    ensures
        found == style_at(bytes@, i as int),
{
    let len: usize = bytes.len();
    i <= len && len - i >= 5 && bytes[i] == 0x53 && bytes[i + 1] == 0x54 && bytes[i + 2] == 0x59
        && bytes[i + 3] == 0x4c && bytes[i + 4] == 0x45
}

fn is_region_at(bytes: &[u8], i: usize) -> (found: bool)
    ensures
        found == region_at(bytes@, i as int),
{
    let len: usize = bytes.len();
    i <= len && len - i >= 6 && bytes[i] == 0x52 && bytes[i + 1] == 0x45 && bytes[i + 2] == 0x47
        && bytes[i + 3] == 0x49 && bytes[i + 4] == 0x4f && bytes[i + 5] == 0x4e
}

/// Whether the text begins with `WEBVTT` and its first line goes on as it
/// may.
pub fn is_well_headed(bytes: &[u8]) -> (ok: bool)
    ensures
        ok == well_headed(bytes@),
{
    let len: usize = bytes.len();
    len >= 6 && bytes[0] == 0x57 && bytes[1] == 0x45 && bytes[2] == 0x42 && bytes[3] == 0x56
        && bytes[4] == 0x54 && bytes[5] == 0x54 && (len == 6 || bytes[6] == 0x0a || bytes[6]
        == 0x20 || bytes[6] == 0x09)
}

proof fn lemma_line_end(bytes: Seq<u8>, from: int)
    requires
        0 <= from <= bytes.len(),
    ensures
        from <= line_end(bytes, from) <= bytes.len(),
        forall|k: int| from <= k < line_end(bytes, from) ==> bytes[k] != 0x0a,
        line_end(bytes, from) < bytes.len() ==> bytes[line_end(bytes, from)] == 0x0a,
    decreases bytes.len() - from,
{
    if from < bytes.len() && bytes[from] != 0x0a {
        lemma_line_end(bytes, from + 1);
    }
}

/// Where the line that holds place `from` ends.
fn find_line_end(bytes: &[u8], from: usize) -> (end: usize)
    requires
        from <= bytes@.len(),
    ensures
        end == line_end(bytes@, from as int),
        from <= end <= bytes@.len(),
        forall|k: int| from <= k < end ==> bytes@[k] != 0x0a,
        end < bytes@.len() ==> bytes@[end as int] == 0x0a,
{
    let len: usize = bytes.len();
    let mut end: usize = from;
    while end < len && bytes[end] != 0x0a
        invariant
            len == bytes@.len(),
            from <= end <= len,
            line_end(bytes@, from as int) == line_end(bytes@, end as int),
        decreases len - end,
    {
        end = end + 1;
    }
    proof {
        lemma_line_end(bytes@, from as int);
    }
    end
}

/// Whether the stretch from `from` up to `to` holds `-->`.
fn has_arrow(bytes: &[u8], from: usize, to: usize) -> (found: bool)
    requires
        from <= to <= bytes@.len(),
    ensures
        found == holds_arrow(bytes@, from as int, to as int),
{
    let mut j: usize = from;
    while to - j >= 3
        invariant
            from <= j <= to <= bytes@.len(),
            forall|k: int| from <= k < j ==> !arrow_at(bytes@, k),
        decreases to - j,
    {
        if bytes[j] == 0x2d && bytes[j + 1] == 0x2d && bytes[j + 2] == 0x3e {
            assert(arrow_at(bytes@, j as int));
            return true;
        }
        j = j + 1;
    }
    false
}

/// Whether no more than `MAX_DIGITS` digits stand in a row anywhere in the
/// line from `from` to `to`.
fn has_short_numbers(bytes: &[u8], from: usize, to: usize) -> (ok: bool)
    requires
        0 < from <= to <= bytes@.len(),
        bytes@[from - 1] == 0x0a,
    ensures
        ok == digits_within(bytes@, from as int, to as int),
{
    let mut run: usize = 0;
    let mut j: usize = from;
    while j < to
        invariant
            0 < from <= j <= to <= bytes@.len(),
            run == digits_before(bytes@, j as int),
            run <= MAX_DIGITS,
            forall|k: int| from <= k <= j ==> #[trigger] digits_before(bytes@, k) <= MAX_DIGITS,
        decreases to - j,
    {
        let byte: u8 = bytes[j];
        if 0x30 <= byte && byte <= 0x39 {
            run = run + 1;
            if run > MAX_DIGITS {
                assert(digits_before(bytes@, j + 1) == run);
                return false;
            }
        } else {
            run = 0;
        }
        j = j + 1;
    }
    true
}

/// Whether the parser can take the block that begins at place `start`.
fn is_block_supported(bytes: &[u8], start: usize) -> (ok: bool)
    requires
        block_start_at(bytes@, start as int),
    ensures
        ok == block_supported(bytes@, start as int),
{
    let len: usize = bytes.len();
    let end: usize = find_line_end(bytes, start);
    if has_arrow(bytes, start, end) {
        return has_short_numbers(bytes, start, end);
    }
    if end >= len {
        return true;
    }
    let next: usize = end + 1;
    let next_end: usize = find_line_end(bytes, next);
    if has_arrow(bytes, next, next_end) {
        has_short_numbers(bytes, next, next_end)
    } else if next_end == next {
        true
    } else {
        !is_style_at(bytes, start) && !is_region_at(bytes, start)
    }
}

/// Whether the parser can take every block of the text.
pub fn is_body_supported(bytes: &[u8]) -> (ok: bool)
    ensures
        ok == body_supported(bytes@),
{
    let len: usize = bytes.len();
    let header_end: usize = find_line_end(bytes, 0);
    if header_end >= len {
        return true;
    }
    let mut line: usize = header_end + 1;
    let mut after_gap: bool = true;
    while line < len
        invariant
            len == bytes@.len(),
            header_end == line_end(bytes@, 0),
            header_end < line <= len,
            bytes@[line - 1] == 0x0a,
            after_gap == (header_end == line - 1 || (line >= 2 && bytes@[line - 2] == 0x0a)),
            forall|start: int|
                start < line && #[trigger] block_start_at(bytes@, start) ==> block_supported(
                    bytes@,
                    start,
                ),
        decreases len - line,
    {
        let end: usize = find_line_end(bytes, line);
        if end > line && after_gap {
            assert(block_start_at(bytes@, line as int));
            if !is_block_supported(bytes, line) {
                return false;
            }
        }
        if end >= len {
            return true;
        }
        after_gap = end == line;
        line = end + 1;
    }
    true
}

/// The cue that block `index` of the file stands for, or what is wrong with
/// the block.
fn cue_from_block(file: &webvtt::File, index: usize) -> (outcome: Result<Cue, LoadError>)
    requires
        index < file_blocks(*file).len(),
    ensures
        match outcome {
            Ok(cue) => block_fault(file_blocks(*file)[index as int], index) is None && cue@
                == cue_of(file_blocks(*file)[index as int]),
            Err(error) => block_fault(file_blocks(*file)[index as int], index) == Some(error),
        },
{
    let start: u128 = block_start(file, index);
    let end: u128 = block_end(file, index);
    if start > u64::MAX as u128 || end > u64::MAX as u128 {
        return Err(LoadError::TimeOutOfRange { index });
    }
    let text: String = block_text(file, index);
    match Cue::new(start as u64, end as u64, text) {
        Some(cue) => Ok(cue),
        None => Err(LoadError::Inverted { index }),
    }
}

/// The script that a parsed file gives: one cue for each of its blocks, in
/// order. A file without blocks gives no script, and neither does one with
/// a block whose times do not fit the clock or whose end lies before its
/// start; the error names the first such block.
pub fn cues_from_file(file: &webvtt::File) -> (outcome: Result<CueList, LoadError>)
    ensures
        is_script_of(file_blocks(*file), outcome_view(outcome)),
{
    let ghost blocks = file_blocks(*file);
    let count: usize = block_count(file);
    if count == 0 {
        return Err(LoadError::NoCues);
    }
    let first = match cue_from_block(file, 0) {
        Ok(cue) => cue,
        Err(error) => {
            return Err(error);
        },
    };
    let mut list = CueList::new(first);
    let mut i: usize = 1;
    while i < count
        invariant
            blocks == file_blocks(*file),
            count == blocks.len(),
            1 <= i <= count,
            list@.len() == i,
            forall|j: int|
                0 <= j < i ==> block_fault(#[trigger] blocks[j], j as usize) is None && list@[j]
                    == cue_of(blocks[j]),
        decreases count - i,
    {
        match cue_from_block(file, i) {
            Ok(cue) => {
                list = list.with(cue);
            },
            Err(error) => {
                return Err(error);
            },
        }
        i = i + 1;
    }
    Ok(list)
}

/// Loads a script from the text of a WebVTT file.
pub fn load_cues(text: &str) -> (outcome: Result<CueList, LoadError>)
    ensures
        is_loaded(text@, outcome_view(outcome)),
{
    let stripped = strip_bom(text);
    let bytes = stripped.as_bytes();
    if is_well_headed(bytes) && !is_body_supported(bytes) {
        return Err(LoadError::Unsupported);
    }
    match parse_file(stripped) {
        Ok(file) => cues_from_file(&file),
        Err(error) => match error {
            webvtt::Error::NoMagic => Err(LoadError::NoMagic),
            webvtt::Error::BadHeader | webvtt::Error::UnexpectedEof => {
                // A fault in the first line is never reported as a text cut short.
                assert(error is BadHeader);
                Err(LoadError::BadHeader)
            },
        },
    }
}

} // verus!
