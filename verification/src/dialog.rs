use vstd::prelude::*;

use crate::keys::{Key, KeyPress};

verus! {

/// Where a modal dialog box goes on the terminal.
#[derive(Debug, Clone, Copy, PartialEq, Eq, Structural)]
pub struct DialogLayout {
    /// The box's width, border included.
    pub width: u16,
    /// The box's height, border included.
    pub height: u16,
    /// The box's left column.
    pub left: u16,
    /// The box's top row.
    pub top: u16,
    /// The column where the title starts.
    pub title_col: u16,
    /// The row of the first entry.
    pub first_item_row: u16,
}

/// The two kinds of dialog box.
#[derive(Debug, Clone, Copy, PartialEq, Eq, Structural)]
pub enum DialogKind {
    /// A box of text lines that a single key closes.
    Message,
    /// A box of entries to choose from.
    Choice,
}

/// The rows of a box other than its entries: border, title, and for a
/// message box an empty row before the lines.
pub open spec fn spec_frame_rows(kind: DialogKind) -> int {
    match kind {
        DialogKind::Message => 5,
        DialogKind::Choice => 4,
    }
}

/// The layout of a box 50 columns wide with `n_items` entries and a title of
/// `title_len` bytes, centred on a terminal of `cols` columns and `rows`
/// rows (at the top left when the terminal is smaller than the box).
pub open spec fn spec_dialog_layout(kind: DialogKind, cols: u16, rows: u16, n_items: u16, title_len: u16) -> DialogLayout {
    let width: int = 50;
    let height: int = n_items + spec_frame_rows(kind);
    let left: int = if cols >= width { (cols - width) / 2 } else { 0 };
    let top: int = if rows >= height { (rows - height) / 2 } else { 0 };
    let title_col: int = left + (if width >= title_len { (width - title_len) / 2 } else { 0 });
    let first_item_row: int = top + spec_frame_rows(kind) - 2;
    DialogLayout {
        width: width as u16,
        height: height as u16,
        left: left as u16,
        top: top as u16,
        title_col: title_col as u16,
        first_item_row: first_item_row as u16,
    }
}

/// The layout of a dialog box.
pub fn dialog_layout(kind: DialogKind, cols: u16, rows: u16, n_items: u16, title_len: u16) -> (l: DialogLayout)
    requires
        n_items + spec_frame_rows(kind) <= u16::MAX,
    ensures
        l == spec_dialog_layout(kind, cols, rows, n_items, title_len),
{
    let width: u16 = 50;
    let frame: u16 = match kind {
        DialogKind::Message => 5,
        DialogKind::Choice => 4,
    };
    let height: u16 = n_items + frame;
    let left: u16 = cols.saturating_sub(width) / 2;
    let top: u16 = rows.saturating_sub(height) / 2;
    let title_col: u16 = left + width.saturating_sub(title_len) / 2;
    let first_item_row: u16 = top + frame - 2;
    DialogLayout { width, height, left, top, title_col, first_item_row }
}

/// A box that fits on the terminal lies wholly on it, centred, with its
/// entries inside its border.
pub proof fn lemma_dialog_fits(kind: DialogKind, cols: u16, rows: u16, n_items: u16, title_len: u16)
    requires
        n_items + spec_frame_rows(kind) <= u16::MAX,
        cols >= 50,
        rows >= n_items + spec_frame_rows(kind),
    ensures
        ({
            let l = spec_dialog_layout(kind, cols, rows, n_items, title_len);
            &&& l.left + l.width <= cols
            &&& l.top + l.height <= rows
            &&& cols - (l.left + l.width) - l.left <= 1
            &&& rows - (l.top + l.height) - l.top <= 1
            &&& l.top < l.first_item_row
            &&& l.first_item_row + n_items < l.top + l.height
            &&& l.left <= l.title_col
        }),
{
}

/// What a key does in a choice box.
#[derive(Debug, Clone, Copy, PartialEq, Eq, Structural)]
pub enum ChoiceStep {
    /// The selection moved to this entry.
    Move(usize),
    /// The box closes with this entry chosen.
    Chosen(usize),
    /// The box closes with no entry to give back (an empty box left with Esc).
    Cancelled,
    /// Nothing happens.
    Stay,
}

/// What a key does in a choice box with `n` entries and entry `sel`
/// selected: Up and Down move within the entries; Enter and Esc close the
/// box with the selected entry. An empty box has no entry: Enter does
/// nothing there and Esc closes it with none.
pub open spec fn spec_choice_step(sel: int, n: int, key: Key) -> ChoiceStep {
    match key {
        Key::Up => if sel > 0 { ChoiceStep::Move((sel - 1) as usize) } else { ChoiceStep::Stay },
        Key::Down => if sel + 1 < n { ChoiceStep::Move((sel + 1) as usize) } else { ChoiceStep::Stay },
        Key::Enter => if sel < n { ChoiceStep::Chosen(sel as usize) } else { ChoiceStep::Stay },
        Key::Esc => if sel < n { ChoiceStep::Chosen(sel as usize) } else { ChoiceStep::Cancelled },
        _ => ChoiceStep::Stay,
    }
}

/// What a key does in a choice box with `n` entries and entry `sel`
/// selected (entry 0 when the box is empty).
pub fn choice_step(sel: usize, n: usize, key: Key) -> (r: ChoiceStep)
    requires
        sel < n || sel == 0,
    ensures
        r == spec_choice_step(sel as int, n as int, key),
{
    match key {
        Key::Up => if sel > 0 { ChoiceStep::Move(sel - 1) } else { ChoiceStep::Stay },
        Key::Down => if sel + 1 < n { ChoiceStep::Move(sel + 1) } else { ChoiceStep::Stay },
        Key::Enter => if sel < n { ChoiceStep::Chosen(sel) } else { ChoiceStep::Stay },
        Key::Esc => if sel < n { ChoiceStep::Chosen(sel) } else { ChoiceStep::Cancelled },
        _ => ChoiceStep::Stay,
    }
}

/// A choice box's selection always stays on one of its entries, every entry
/// it gives back is one of its entries, and only an empty box closes without
/// one.
pub proof fn lemma_choice_in_range(sel: int, n: int, key: Key)
    requires
        0 <= sel,
        sel < n || sel == 0,
        0 <= n <= usize::MAX,
    ensures
        spec_choice_step(sel, n, key) matches ChoiceStep::Move(m) ==> m < n,
        spec_choice_step(sel, n, key) matches ChoiceStep::Chosen(i) ==> i < n && i == sel,
        spec_choice_step(sel, n, key) == ChoiceStep::Cancelled <==> (key == Key::Esc && n == 0),
        n > 0 && (key == Key::Enter || key == Key::Esc) ==> spec_choice_step(sel, n, key) == ChoiceStep::Chosen(sel as usize),
{
}

/// Whether a keyboard event closes a message box whose closing key is
/// `close_key`: a press of that key.
pub open spec fn spec_message_closes(ev: KeyPress, close_key: Key) -> bool {
    ev.is_press && ev.key == close_key
}

/// Whether a keyboard event closes a message box.
pub fn message_closes(ev: KeyPress, close_key: Key) -> (r: bool)
    ensures
        r == spec_message_closes(ev, close_key),
{
    ev.is_press && ev.key == close_key
}

} // verus!
