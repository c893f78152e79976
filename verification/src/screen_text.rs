use vstd::prelude::*;

use crate::text::{concat_str, decimal, decimal_string, on_off, owned, spec_on_off, views};

verus! {

/// The key hints under a menu's header: the main menu (1) says Esc quits,
/// the settings screens (2) offer D to restore defaults, and the sound file
/// chooser (any other number) offers R to play a file. Each ends with the
/// menu sound setting.
pub open spec fn spec_command_hints(screen: u8, menu_sound_enabled: bool) -> Seq<char> {
    let keys = if screen == 1 {
        "←↑↓→ (muovi), ↵ (seleziona), ESC (esci), S (suono "@
    } else if screen == 2 {
        "←↑↓→ (muovi), ↵ (seleziona), ESC (indietro), D (ripristina default), S (suono "@
    } else {
        "←↑↓→ (muovi), ↵ (seleziona), ESC (indietro), R (riproduci), S (suono "@
    };
    keys + spec_on_off(menu_sound_enabled) + ")\r\n\r\n"@
}

/// The key hints under a menu's header.
pub fn command_hints(screen: u8, menu_sound_enabled: bool) -> (r: String)
    ensures
        r@ == spec_command_hints(screen, menu_sound_enabled),
{
    let keys = if screen == 1 {
        "←↑↓→ (muovi), ↵ (seleziona), ESC (esci), S (suono "
    } else if screen == 2 {
        "←↑↓→ (muovi), ↵ (seleziona), ESC (indietro), D (ripristina default), S (suono "
    } else {
        "←↑↓→ (muovi), ↵ (seleziona), ESC (indietro), R (riproduci), S (suono "
    };
    let mut r = concat_str(keys, on_off(menu_sound_enabled));
    r.append(")\r\n\r\n");
    r
}

/// How a menu row is drawn: a pointing hand before the selected row, three
/// spaces before the others.
pub open spec fn spec_menu_row(item: Seq<char>, selected: bool) -> Seq<char> {
    (if selected { "\u{1F449} "@ } else { "   "@ }) + item
}

/// How a menu row is drawn.
pub fn menu_row(item: &str, selected: bool) -> (r: String)
    ensures
        r@ == spec_menu_row(item@, selected),
{
    if selected {
        concat_str("\u{1F449} ", item)
    } else {
        concat_str("   ", item)
    }
}

/// The line with a menu's title.
pub open spec fn spec_menu_title_line(title: Seq<char>) -> Seq<char> {
    "--- "@ + title + " ---\r\n\r\n"@
}

/// The line with a menu's title.
pub fn menu_title_line(title: &str) -> (r: String)
    ensures
        r@ == spec_menu_title_line(title@),
{
    let mut r = concat_str("--- ", title);
    r.append(" ---\r\n\r\n");
    r
}

/// The terminal row of menu entry `index`, for a menu whose entries start at
/// row `start`; the index is taken modulo 2^16, as a cast to `u16` does.
pub fn menu_entry_row(start: u16, index: usize) -> (r: u16)
    requires
        start + index % 65536 <= u16::MAX,
    ensures
        r == start + index % 65536,
{
    let i: u16 = #[verifier::truncate] (index as u16);
    assert(i == index % 65536) by (bit_vector)
        requires
            i == #[verifier::truncate] (index as u16);
    start + i
}

/// The banner at the top of every menu, with the program's version, authors
/// and website.
pub open spec fn spec_app_header(version: Seq<char>, authors: Seq<char>, homepage: Seq<char>) -> Seq<char> {
    "###############################################\r\n#                                             #\r\n#     SOLANA JUPITER PRICE MONITOR v"@
        + version + "     #\r\n#    author: "@ + authors + "  #\r\n#   website: "@ + homepage
        + "                 #\r\n#                                             #\r\n###############################################\r\n\n        "@
}

/// The banner at the top of every menu.
pub fn app_header(version: &str, authors: &str, homepage: &str) -> (r: String)
    ensures
        r@ == spec_app_header(version@, authors@, homepage@),
{
    let mut r = concat_str(
        "###############################################\r\n#                                             #\r\n#     SOLANA JUPITER PRICE MONITOR v",
        version,
    );
    r.append("     #\r\n#    author: ");
    r.append(authors);
    r.append("  #\r\n#   website: ");
    r.append(homepage);
    r.append("                 #\r\n#                                             #\r\n###############################################\r\n\n        ");
    r
}

/// The lines of the monitor's settings box: the interval, the token, the
/// quantity, the minimum and maximum prices, then the rise threshold under
/// the label "Ribasso %" and the fall threshold under "Rialzo %" (the labels
/// read the other way round from the values, as the program shows them),
/// an empty line and the closing key.
pub open spec fn spec_parameter_lines(
    interval_secs: u64,
    symbol: Seq<char>,
    quantity: u32,
    min_price: Seq<char>,
    max_price: Seq<char>,
    up_perc: Seq<char>,
    down_perc: Seq<char>,
) -> Seq<Seq<char>> {
    seq![
        "Intervallo di monitoraggio (s): "@ + decimal(interval_secs as nat),
        "Token: "@ + symbol,
        "Quantità: "@ + decimal(quantity as nat),
        "Prezzo minimo: "@ + min_price,
        "Prezzo massimo: "@ + max_price,
        "Ribasso %: "@ + up_perc,
        "Rialzo %: "@ + down_perc,
        ""@,
        "F2: indietro"@,
    ]
}

/// The lines of the monitor's settings box. The thresholds are passed as
/// text: they are floating-point numbers, which this library does not
/// format.
pub fn parameter_lines(
    interval_secs: u64,
    symbol: &str,
    quantity: u32,
    min_price: &str,
    max_price: &str,
    up_perc: &str,
    down_perc: &str,
) -> (r: Vec<String>)
    ensures
        views(r@) == spec_parameter_lines(interval_secs, symbol@, quantity, min_price@, max_price@, up_perc@, down_perc@),
{
    let interval = decimal_string(interval_secs);
    let q = decimal_string(quantity as u64);
    let r = vec![
        concat_str("Intervallo di monitoraggio (s): ", interval.as_str()),
        concat_str("Token: ", symbol),
        concat_str("Quantità: ", q.as_str()),
        concat_str("Prezzo minimo: ", min_price),
        concat_str("Prezzo massimo: ", max_price),
        concat_str("Ribasso %: ", up_perc),
        concat_str("Rialzo %: ", down_perc),
        owned(""),
        owned("F2: indietro"),
    ];
    proof {
        reveal_strlit("");
    }
    assert(views(r@) =~= spec_parameter_lines(interval_secs, symbol@, quantity, min_price@, max_price@, up_perc@, down_perc@));
    r
}

/// The dots that the waiting animation shows at frame `frame`.
pub open spec fn spec_spinner_dots(frame: nat) -> Seq<char> {
    let k = frame % 4;
    if k == 0 {
        "   "@
    } else if k == 1 {
        ".  "@
    } else if k == 2 {
        ".. "@
    } else {
        "..."@
    }
}

/// The line that the waiting animation draws at frame `frame`: back to the
/// start of the line, the message, and zero to three dots.
pub fn spinner_line(message: &str, frame: usize) -> (r: String)
    ensures
        r@ == "\r"@ + message@ + spec_spinner_dots(frame as nat),
{
    let frames: [&str; 4] = ["   ", ".  ", ".. ", "..."];
    let mut r = concat_str("\r", message);
    let dots = frames[frame % 4];
    r.append(dots);
    r
}

/// The line that replaces the waiting animation when the wait is over.
pub fn spinner_done_line(message: &str) -> (r: String)
    ensures
        r@ == "\r"@ + message@ + "... completato!    \r"@,
{
    let mut r = concat_str("\r", message);
    r.append("... completato!    \r");
    r
}

/// The PowerShell command that shows a desktop notification with a title and
/// a message.
pub open spec fn spec_notification_command(title: Seq<char>, message: Seq<char>) -> Seq<char> {
    "Import-Module BurntToast; New-BurntToastNotification -Text \""@ + title + "\", \""@ + message + "\""@
}

/// The PowerShell command that shows a desktop notification.
pub fn notification_command(title: &str, message: &str) -> (r: String)
    ensures
        r@ == spec_notification_command(title@, message@),
{
    let mut r = concat_str("Import-Module BurntToast; New-BurntToastNotification -Text \"", title);
    r.append("\", \"");
    r.append(message);
    r.append("\"");
    r
}

} // verus!
