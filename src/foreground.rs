use vstd::prelude::*;
use crate::text::{decode_utf16_lossy, option_string_view, trim_whitespace, trimmed, utf16_lossy};

verus! {

/// How many UTF-16 code units of a window title are read; a longer title is cut.
pub const TITLE_BUFFER_LEN: usize = 512;

/// What the native, read-only query for the focused window reported.
pub enum ForegroundQuery {
    /// The platform has no native query.
    Unsupported,
    /// No window has the input focus.
    NoWindow,
    /// The focused window's text was copied into `buffer`; `copied` is the count
    /// of code units that the query reported.
    WindowText { buffer: Vec<u16>, copied: i32 },
}

/// The code units of the title that were copied, never more than the buffer holds.
pub open spec fn copied_units(buffer: Seq<u16>, copied: int) -> Seq<u16> {
    if copied <= 0 {
        Seq::empty()
    } else if copied >= buffer.len() {
        buffer
    } else {
        buffer.take(copied)
    }
}

/// The title of a window whose text was copied: absent when nothing was copied or
/// only whitespace was, else the decoded text without surrounding whitespace.
pub open spec fn title_from_text(buffer: Seq<u16>, copied: int) -> Option<Seq<char>> {
    let t = trimmed(utf16_lossy(copied_units(buffer, copied)));
    if copied <= 0 || t.len() == 0 {
        None
    } else {
        Some(t)
    }
}

pub open spec fn foreground_title(q: ForegroundQuery) -> Option<Seq<char>> {
    match q {
        ForegroundQuery::WindowText { buffer, copied } => title_from_text(buffer@, copied as int),
        _ => None,
    }
}

/// The title of the window that has the input focus, from what the native query
/// reported; absent where there is none to give, and never a failure.
pub fn foreground_window_title(q: &ForegroundQuery) -> (r: Option<String>)
    ensures
        option_string_view(r) == foreground_title(*q),
        *q is Unsupported ==> r is None,
        *q is NoWindow ==> r is None,
{
    match q {
        ForegroundQuery::Unsupported => None,
        ForegroundQuery::NoWindow => None,
        ForegroundQuery::WindowText { buffer, copied } => {
            if *copied <= 0 {
                return None;
            }
            let n: usize = if (*copied as usize) < buffer.len() {
                *copied as usize
            } else {
                buffer.len()
            };
            let mut units: Vec<u16> = Vec::new();
            let mut i: usize = 0;
            while i < n
                invariant
                    n <= buffer@.len(),
                    i <= n,
                    units@ == buffer@.take(i as int),
                decreases n - i,
            {
                units.push(buffer[i]);
                i = i + 1;
                assert(units@ =~= buffer@.take(i as int));
            }
            assert(units@ =~= copied_units(buffer@, *copied as int));
            let text = decode_utf16_lossy(units.as_slice());
            let t = trim_whitespace(text.as_str());
            if t.is_empty() {
                None
            } else {
                Some(t.to_owned())
            }
        },
    }
}

} // verus!
