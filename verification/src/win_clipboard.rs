//! Clipboard access where there is no native clipboard to speak of: reads find
//! nothing, writes succeed without effect.

use vstd::prelude::*;

verus! {

/// A bitmap with its size in pixels.
pub struct ImageData {
    pub width: usize,
    pub height: usize,
    pub bytes: Vec<u8>,
}

/// The raw bytes of a clipboard format that goes by a registered name.
#[derive(Clone, Debug, PartialEq, Eq)]
pub struct NamedClipboardFormat {
    pub name: String,
    pub data: Vec<u8>,
}

/// The running number that stands for the clipboard's change count.
pub struct ClipboardSequence {
    next: u32,
}

impl ClipboardSequence {
    /// The number that is handed out next.
    pub closed spec fn upcoming(self) -> u32 {
        self.next
    }

    /// A sequence that starts at one.
    pub fn new() -> (res: ClipboardSequence)
        ensures
            res.upcoming() == 1,
    {
        ClipboardSequence { next: 1 }
    }
}

/// The number after `n`; the largest is followed by zero.
pub open spec fn successor(n: u32) -> u32 {
    if n == u32::MAX {
        0
    } else {
        (n + 1) as u32
    }
}

/// Hands out the next number.
pub fn get_clipboard_sequence_number(sequence: &mut ClipboardSequence) -> (res: u32)
    ensures
        res == old(sequence).upcoming(),
        final(sequence).upcoming() == successor(res),
{
    let current: u32 = sequence.next;
    if current == u32::MAX {
        sequence.next = 0;
    } else {
        sequence.next = current + 1;
    }
    current
}

/// Two numbers handed out one after the other differ, so every look at the
/// clipboard counts as a change.
pub proof fn lemma_sequence_numbers_change(n: u32)
    ensures
        successor(n) != n,
{
}

/// There is never an image.
pub fn get_clipboard_image() -> (res: Option<ImageData>)
    ensures
        res is None,
{
    None
}

/// There are never files.
pub fn get_clipboard_files() -> (res: Option<Vec<String>>)
    ensures
        res is None,
{
    None
}

/// No named format is ever present.
pub fn get_clipboard_raw_format(_name: &str) -> (res: Option<Vec<u8>>)
    ensures
        res is None,
{
    None
}

/// Accepts any list of files.
pub fn set_clipboard_files(_paths: Vec<String>) -> (res: Result<(), String>)
    ensures
        res is Ok,
{
    Ok(())
}

/// Accepts any text.
pub fn set_clipboard_text_and_html(_text: &str, _html: &str) -> (res: Result<(), String>)
    ensures
        res is Ok,
{
    Ok(())
}

/// Accepts any image and reports no file for it.
pub fn set_clipboard_image_with_formats(
    _data: ImageData,
    _gif_data: Option<&[u8]>,
    _png_data: Option<&[u8]>,
    _file_path: Option<&str>,
) -> (res: Result<Option<String>, String>)
    ensures
        res == Ok::<Option<String>, String>(None),
{
    Ok(None)
}

} // verus!
