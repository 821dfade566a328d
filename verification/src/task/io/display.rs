//! Text lines for the text display.

use vstd::prelude::*;

use vstd::string::StrSliceExecFns;

verus! {

/// Lines the display has.
pub const DISPLAY_LINES: usize = 14;

/// Bytes a line may have.
pub const MAX_LINE_LEN: usize = 26;

/// Weight of a text.
#[derive(Debug, Clone, Copy, PartialEq, Eq, Structural)]
pub enum TextStyle {
    /// Normal weight.
    Normal,
    /// Bold.
    Bold,
}

/// `heapless::String`: a string with a fixed capacity in bytes.
#[verifier::external_type_specification]
#[verifier::external_body]
pub struct ExHeaplessString<const N: usize>(heapless::String<N>);

/// Bytes a text has room for before it is put on a line.
pub const TEXT_LEN: usize = 20;

/// The characters a text holds.
pub uninterp spec fn text_of(text: heapless::String<TEXT_LEN>) -> Seq<char>;

/// The characters a line holds.
pub uninterp spec fn line_of(line: heapless::String<MAX_LINE_LEN>) -> Seq<char>;

/// The bytes a character takes in UTF-8.
pub open spec fn byte_len(c: char) -> int {
    let code = c as int;
    if code < 0x80 {
        1
    } else if code < 0x800 {
        2
    } else if code < 0x10000 {
        3
    } else {
        4
    }
}

/// The bytes a text takes in UTF-8.
pub open spec fn bytes_of(text: Seq<char>) -> int
    decreases text.len(),
{
    if text.len() == 0 {
        0
    } else {
        bytes_of(text.drop_last()) + byte_len(text.last())
    }
}

/// `heapless::String::new`: an empty text.
#[verifier::external_body]
fn text_new() -> (text: heapless::String<TEXT_LEN>)
    ensures
        text_of(text) == Seq::<char>::empty(),
{
    heapless::String::new()
}

/// `heapless::String::push`: the character joins the text where its bytes fit behind
/// those it holds; otherwise the text stays as it is and the call fails.
#[verifier::external_body]
fn text_push(text: &mut heapless::String<TEXT_LEN>, c: char) -> (pushed: Result<(), ()>)
    ensures
        (if bytes_of(text_of(*old(text))) + byte_len(c) > TEXT_LEN {
            pushed == Err::<(), ()>(()) && text_of(*final(text)) == text_of(*old(text))
        } else {
            pushed == Ok::<(), ()>(()) && text_of(*final(text)) == text_of(*old(text)).push(c)
        }),
{
    text.push(c)
}

/// `heapless::String::try_from`: the line with the characters of a text, where its
/// bytes fit; otherwise the call fails.
#[verifier::external_body]
fn line_from(text: &heapless::String<TEXT_LEN>) -> (line: Result<
    heapless::String<MAX_LINE_LEN>,
    (),
>)
    ensures
        match line {
            Ok(line) => bytes_of(text_of(*text)) <= MAX_LINE_LEN && line_of(line) == text_of(*text),
            Err(_) => bytes_of(text_of(*text)) > MAX_LINE_LEN,
        },
{
    heapless::String::try_from(text.as_str())
}

/// An action of the display.
pub enum DisplayAction {
    /// Show a text on a line, in bold.
    ShowText(heapless::String<MAX_LINE_LEN>, u8),
    /// Show a text on a line in a style.
    ShowTextStyled(heapless::String<MAX_LINE_LEN>, u8, TextStyle),
    /// Show all lines at once.
    ShowLines([heapless::String<MAX_LINE_LEN>; DISPLAY_LINES]),
    /// Clear the display.
    Clear,
}

/// How many leading characters of a message fit into a text.
pub open spec fn fitting(text: Seq<char>, from: int) -> int
    decreases text.len() - from,
{
    if from >= text.len() {
        text.len() as int
    } else if bytes_of(text.take(from)) + byte_len(text[from]) > TEXT_LEN {
        from
    } else {
        fitting(text, from + 1)
    }
}

/// The action that shows a text on a line.
fn on_line(text: heapless::String<TEXT_LEN>, line: u8) -> (action: DisplayAction)
    requires
        bytes_of(text_of(text)) <= TEXT_LEN,
    ensures
        action matches DisplayAction::ShowText(shown, at) && at == line && line_of(shown)
            == text_of(text),
{
    DisplayAction::ShowText(line_from(&text).unwrap(), line)
}

/// The action that shows a message on a line: as many of its leading characters as fit
/// into a text.
pub fn show_line(line: u8, msg: &str) -> (action: DisplayAction)
    ensures
        action matches DisplayAction::ShowText(shown, at) && at == line && line_of(shown)
            == msg@.take(fitting(msg@, 0)),
{
    let mut shown = text_new();
    let len = msg.unicode_len();
    let mut i: usize = 0;
    assert(msg@.take(0) =~= Seq::<char>::empty());
    while i < len
        invariant
            i <= len,
            len == msg@.len(),
            text_of(shown) == msg@.take(i as int),
            bytes_of(msg@.take(i as int)) <= TEXT_LEN,
            fitting(msg@, 0) == fitting(msg@, i as int),
        decreases len - i,
    {
        let c = msg.get_char(i);
        if text_push(&mut shown, c).is_err() {
            assert(fitting(msg@, i as int) == i);
            return on_line(shown, line);
        }
        assert(msg@.take(i as int).push(msg@[i as int]) =~= msg@.take(i + 1));
        assert(msg@.take(i + 1).drop_last() =~= msg@.take(i as int));
        i = i + 1;
    }
    assert(fitting(msg@, len as int) == len);
    on_line(shown, line)
}

/// A shown text never exceeds its bytes, and a message that fits is shown whole.
pub proof fn law_line_fits(text: Seq<char>, from: int)
    requires
        0 <= from <= text.len(),
        bytes_of(text.take(from)) <= TEXT_LEN,
    ensures
        from <= fitting(text, from) <= text.len(),
        bytes_of(text.take(fitting(text, from))) <= TEXT_LEN,
        bytes_of(text) <= TEXT_LEN ==> fitting(text, from) == text.len(),
    decreases text.len() - from,
{
    if from < text.len() {
        assert(text.take(from + 1).drop_last() =~= text.take(from));
        assert(text.take(from + 1).last() == text[from]);
        lemma_bytes_grow(text, from + 1);
        if bytes_of(text.take(from)) + byte_len(text[from]) <= TEXT_LEN {
            law_line_fits(text, from + 1);
        }
    }
}

/// A longer prefix takes no fewer bytes.
proof fn lemma_bytes_grow(text: Seq<char>, from: int)
    requires
        0 <= from <= text.len(),
    ensures
        bytes_of(text.take(from)) <= bytes_of(text),
    decreases text.len() - from,
{
    if from < text.len() {
        lemma_bytes_grow(text, from + 1);
        assert(text.take(from + 1).drop_last() =~= text.take(from));
        assert(text.take(from + 1).last() == text[from]);
    } else {
        assert(text.take(from) =~= text);
    }
}

/// A line shows as much of a text as twenty bytes hold: what is shown fits, and one
/// character more would not.
pub proof fn law_line_shows_what_twenty_bytes_hold(line: u8, msg: &str, action: DisplayAction)
    requires
        call_ensures(show_line, (line, msg), action),
    ensures
        action matches DisplayAction::ShowText(shown, at) && {
            let count = line_of(shown).len() as int;
            &&& at == line
            &&& 0 <= count <= msg@.len()
            &&& line_of(shown) == msg@.take(count)
            &&& bytes_of(msg@.take(count)) <= 20
            &&& count < msg@.len() ==> bytes_of(msg@.take(count)) + byte_len(msg@[count]) > 20
        },
{
    assert(msg@.take(0) =~= Seq::<char>::empty());
    lemma_fitting_is_most(msg@, 0);
}

/// As many characters fit as the bytes allow, and no more.
proof fn lemma_fitting_is_most(text: Seq<char>, from: int)
    requires
        0 <= from <= text.len(),
        bytes_of(text.take(from)) <= TEXT_LEN,
    ensures
        from <= fitting(text, from) <= text.len(),
        bytes_of(text.take(fitting(text, from))) <= TEXT_LEN,
        fitting(text, from) < text.len() ==> bytes_of(text.take(fitting(text, from))) + byte_len(
            text[fitting(text, from)],
        ) > TEXT_LEN,
    decreases text.len() - from,
{
    if from < text.len() && bytes_of(text.take(from)) + byte_len(text[from]) <= TEXT_LEN {
        assert(text.take(from + 1).drop_last() =~= text.take(from));
        lemma_fitting_is_most(text, from + 1);
    }
}

} // verus!
