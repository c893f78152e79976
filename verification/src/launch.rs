use vstd::prelude::*;

use crate::audio::{is_falling, spec_audio_file, audio_file, AudioKind};
use crate::options::{Options, OptionsView};
use crate::text::{all_digits, concat_str, owned, views};
use crate::tokens::TokenInfo;

verus! {

/// The page that monitoring opens for a token: launch style 1 opens the swap
/// page from the token's sell address to its buy address; every other style
/// opens the token's own page.
pub open spec fn spec_launch_url(launch_type: u8, token: TokenInfo) -> Seq<char> {
    if launch_type == 1 {
        "https://jup.ag/swap?sell="@ + token.sell_addr@ + "&buy="@ + token.buy_addr@
    } else {
        "https://jup.ag/tokens/"@ + token.mint_addr@
    }
}

/// The page that monitoring opens for a token.
pub fn launch_url(launch_type: u8, token: &TokenInfo) -> (r: String)
    ensures
        r@ == spec_launch_url(launch_type, *token),
{
    if launch_type == 1 {
        let mut r = concat_str("https://jup.ag/swap?sell=", token.sell_addr.as_str());
        r.append("&buy=");
        r.append(token.buy_addr.as_str());
        r
    } else {
        concat_str("https://jup.ag/tokens/", token.mint_addr.as_str())
    }
}

/// Which page monitoring drives: the swap page (launch style 1) or the
/// token's own page (every other style).
#[derive(Debug, Clone, Copy, PartialEq, Eq, Structural)]
pub enum MonitorPage {
    Swap,
    Token,
}

/// How monitoring starts: whether a log file is written, and which page it
/// drives.
#[derive(Debug, Clone, Copy, PartialEq, Eq, Structural)]
pub struct LaunchPlan {
    pub logging: bool,
    pub page: MonitorPage,
}

/// How monitoring starts under settings `o` and launch style `launch_type`.
pub open spec fn spec_launch_plan(o: OptionsView, launch_type: u8) -> LaunchPlan {
    LaunchPlan {
        logging: o.logs_enabled,
        page: if launch_type == 1 { MonitorPage::Swap } else { MonitorPage::Token },
    }
}

/// How monitoring starts: a logger when logs are on, and the page of the
/// launch style.
pub fn launch_plan(o: &Options, launch_type: u8) -> (p: LaunchPlan)
    ensures
        p == spec_launch_plan(o@, launch_type),
{
    let page = if launch_type == 1 { MonitorPage::Swap } else { MonitorPage::Token };
    LaunchPlan { logging: o.logs_enabled, page }
}

/// The name under which an alert's sound is loaded.
pub open spec fn spec_asset_key(kind: AudioKind) -> Seq<char> {
    match kind {
        AudioKind::Min => "min_price"@,
        AudioKind::Max => "max_price"@,
        AudioKind::DownPerc => "down_price_perc"@,
        AudioKind::UpPerc => "up_price_perc"@,
    }
}

/// The file that an alert's sound is loaded from when monitoring starts: the
/// empty path when the alert has no sound file, else the file in the folder
/// of falling or rising price sounds.
pub open spec fn spec_asset_path(o: OptionsView, kind: AudioKind) -> Seq<char> {
    let name = spec_audio_file(o, kind);
    if name.len() == 0 {
        Seq::empty()
    } else if is_falling(kind) {
        "./audio/monitor/min/"@ + name
    } else {
        "./audio/monitor/max/"@ + name
    }
}

/// The alerts in the order in which their sounds are loaded.
pub open spec fn spec_alert_order() -> Seq<AudioKind> {
    seq![AudioKind::Min, AudioKind::Max, AudioKind::DownPerc, AudioKind::UpPerc]
}

/// The sounds to load when monitoring starts: for each alert, in the order
/// minimum, maximum, fall, rise, the name to load it under and the file to
/// load it from (empty when the alert has no sound).
pub fn monitor_audio_assets(options: &Options) -> (r: Vec<(String, String)>)
    ensures
        r@.len() == 4,
        forall|i: int| 0 <= i < 4 ==> {
            &&& (#[trigger] r@[i]).0@ == spec_asset_key(spec_alert_order()[i])
            &&& r@[i].1@ == spec_asset_path(options@, spec_alert_order()[i])
        },
{
    let mut r: Vec<(String, String)> = Vec::new();
    r.push(asset_for(options, AudioKind::Min));
    r.push(asset_for(options, AudioKind::Max));
    r.push(asset_for(options, AudioKind::DownPerc));
    r.push(asset_for(options, AudioKind::UpPerc));
    r
}

/// The name and file of one alert's sound.
fn asset_for(options: &Options, kind: AudioKind) -> (r: (String, String))
    ensures
        r.0@ == spec_asset_key(kind),
        r.1@ == spec_asset_path(options@, kind),
{
    let key = match kind {
        AudioKind::Min => owned("min_price"),
        AudioKind::Max => owned("max_price"),
        AudioKind::DownPerc => owned("down_price_perc"),
        AudioKind::UpPerc => owned("up_price_perc"),
    };
    let name = audio_file(options, kind);
    let path = if name.as_str().is_empty() {
        let e = String::new();
        e
    } else {
        match kind {
            AudioKind::Min | AudioKind::DownPerc => concat_str("./audio/monitor/min/", name.as_str()),
            _ => concat_str("./audio/monitor/max/", name.as_str()),
        }
    };
    (key, path)
}

/// What setting a sound asset from a path does: an empty path unloads the
/// sound, any other path loads it from there.
#[derive(Debug, Clone, Copy, PartialEq, Eq, Structural)]
pub enum AssetChange {
    Load,
    Unload,
}

/// What setting a sound asset from `path` does.
pub fn asset_change(path: &str) -> (r: AssetChange)
    ensures
        r == (if path@.len() == 0 { AssetChange::Unload } else { AssetChange::Load }),
{
    if path.is_empty() {
        AssetChange::Unload
    } else {
        AssetChange::Load
    }
}

/// The name of a log file written at the time whose formatted stamp is
/// `stamp`.
pub open spec fn spec_log_file_name(stamp: Seq<char>) -> Seq<char> {
    "log_"@ + stamp + ".txt"@
}

/// The name of a log file: `log_`, the time stamp, and `.txt`.
pub fn log_file_name(stamp: &str) -> (r: String)
    ensures
        r@ == spec_log_file_name(stamp@),
{
    let mut r = concat_str("log_", stamp);
    r.append(".txt");
    r
}

/// How chrono writes a year with `%Y`: four digits for the years 0 to 9999
/// (zero-padded), else a sign followed by at least four digits.
pub open spec fn is_year_text(y: Seq<char>) -> bool {
    ||| y.len() == 4 && all_digits(y)
    ||| y.len() >= 5 && (y[0] == '+' || y[0] == '-') && all_digits(y.drop_first())
}

/// Whether `s` has the shape of a local time written as `%d%m%Y_%H%M%S`:
/// two digits each for the day and the month, the year, `_`, and two digits
/// each for the hour, the minute and the second.
pub open spec fn is_log_stamp(s: Seq<char>) -> bool {
    &&& s.len() >= 15
    &&& all_digits(s.subrange(0, 4))
    &&& is_year_text(s.subrange(4, s.len() - 7))
    &&& s[s.len() - 7] == '_'
    &&& all_digits(s.subrange(s.len() - 6, s.len() as int))
}

/// The current local date and time written with the log file format
/// `%d%m%Y_%H%M%S` (day, month, year, `_`, hour, minute, second).
///
/// Trusted: calls `chrono::Local::now`, then `chrono::DateTime::format` on
/// its result, and writes that to a string. The contract admits only that
/// format, which chrono accepts (an invalid format makes the writing panic).
/// Its result is stated by shape alone, as chrono writes these fields: the
/// day, month, hour, minute and second as two zero-padded digits, the year
/// as four digits or a sign and at least four digits. Which digits they are
/// depends on the clock and is not stated.
#[verifier::external_body]
fn local_time_text(fmt: &str) -> (r: String)
    requires
        fmt@ == "%d%m%Y_%H%M%S"@,
    ensures
        is_log_stamp(r@),
{
    chrono::Local::now().format(fmt).to_string()
}

/// The name of a new log file: `log_`, the current local time as
/// `%d%m%Y_%H%M%S`, and `.txt`.
pub fn make_log_filename() -> (r: String)
    ensures
        exists|stamp: Seq<char>| is_log_stamp(stamp) && r@ == spec_log_file_name(stamp),
{
    let stamp = local_time_text("%d%m%Y_%H%M%S");
    let r = log_file_name(stamp.as_str());
    assert(is_log_stamp(stamp@) && r@ == spec_log_file_name(stamp@));
    r
}

/// The file that a logger writes: the name given, or else a new
/// time-stamped name.
pub fn chosen_log_file_name(name: Option<&str>) -> (r: String)
    ensures
        match name {
            Some(n) => r@ == n@,
            None => exists|stamp: Seq<char>| is_log_stamp(stamp) && r@ == spec_log_file_name(stamp),
        },
{
    match name {
        Some(n) => owned(n),
        None => make_log_filename(),
    }
}

} // verus!
