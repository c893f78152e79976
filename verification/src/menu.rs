use vstd::prelude::*;

use crate::audio::{
    spec_audio_file, spec_audio_file_items, spec_initial_audio_selection, set_audio_file,
    spec_set_audio_file, AudioKind,
};
use crate::keys::{is_letter_key, letter_key, Key, KeyPress};
use crate::options::{spec_reset_fields, FieldGroup, Options, OptionsView, Platform};
use crate::text::{
    concat_str, decimal, decimal_string, digits_value, lemma_first_match_exists, lemma_parse_decimal_round_trip, owned, parse_unsigned, position_of, spec_parse_unsigned,
    spec_yes_no, views, yes_no,
};
use crate::view_type::{spec_next_view, spec_view_label};

verus! {

/// The screens of the menu.
#[derive(Debug, Clone, Copy, PartialEq, Eq, Structural)]
pub enum MenuScreen {
    /// The main menu: start, settings, quit.
    Main,
    /// The settings menu: sound settings, monitoring settings, back.
    Options,
    /// The sound settings.
    Audio,
    /// The monitoring settings.
    Monitoring,
    /// The token chooser.
    Token,
    /// The sound file chooser for one alert.
    AudioFile(AudioKind),
}

/// A setting that the monitoring screen asks the user to type.
#[derive(Debug, Clone, Copy, PartialEq, Eq, Structural)]
pub enum PromptField {
    ChromePath,
    Interval,
    Quantity,
    MinPrice,
    MaxPrice,
    DownPerc,
    UpPerc,
}

/// What the program does after a key on a menu screen. Where the settings
/// change, `menu_step` has already changed them.
#[derive(Debug, Clone, Copy, PartialEq, Eq, Structural)]
pub enum MenuAction {
    /// The event was not a key press: nothing happens.
    Ignore,
    /// The key does nothing on this screen.
    Nothing,
    /// The selection moved from row `old` to row `new`: the move sound plays
    /// and both rows are drawn again.
    Moved { old: usize, new: usize },
    /// The menu sound was switched: the settings are saved, the click plays
    /// if the sound is now on, and the key hints are drawn again.
    ToggledMenuSound,
    /// Leave this screen (on the main screen: leave the program), after the
    /// click sound when `click` holds.
    Back { click: bool },
    /// Start monitoring, after the click sound.
    Launch,
    /// Open the settings menu, after the click sound.
    OpenOptions,
    /// Open the sound settings, after the click sound.
    OpenAudio,
    /// Open the monitoring settings, after the click sound.
    OpenMonitoring,
    /// The click sound plays and nothing else happens.
    Clicked,
    /// Open the sound file chooser for an alert, after the click sound.
    PickAudioFile(AudioKind),
    /// Open the token chooser, after the click sound.
    PickToken,
    /// Ask the user to type a setting.
    Prompt(PromptField),
    /// The selected row's setting changed: the row is drawn again, the click
    /// plays and the settings are saved.
    SettingToggled,
    /// The screen's settings were put back to their defaults: the click
    /// plays, the screen is drawn again and the settings are saved.
    DefaultsRestored,
    /// The chooser's selected entry became the setting: the click plays, the
    /// settings are saved and the chooser closes.
    Chosen,
    /// Play the selected sound file.
    Preview,
}

/// The alert whose sound file row `row` of the sound settings shows.
pub open spec fn spec_audio_row_kind(row: int) -> AudioKind {
    if row == 1 {
        AudioKind::Min
    } else if row == 2 {
        AudioKind::Max
    } else if row == 3 {
        AudioKind::DownPerc
    } else {
        AudioKind::UpPerc
    }
}

/// What Enter does on row `sel` of a screen with entries `items`: the new
/// settings and the action.
pub open spec fn spec_activate(screen: MenuScreen, items: Seq<Seq<char>>, sel: int, o: OptionsView) -> (OptionsView, MenuAction) {
    let last = sel == items.len() - 1;
    match screen {
        MenuScreen::Main => if sel == 0 {
            (o, MenuAction::Launch)
        } else if sel == 1 {
            (o, MenuAction::OpenOptions)
        } else if sel == 2 {
            (o, MenuAction::Back { click: true })
        } else {
            (o, MenuAction::Clicked)
        },
        MenuScreen::Options => if last {
            (o, MenuAction::Back { click: true })
        } else if sel == 0 {
            (o, MenuAction::OpenAudio)
        } else if sel == 1 {
            (o, MenuAction::OpenMonitoring)
        } else {
            (o, MenuAction::Nothing)
        },
        MenuScreen::Audio => if last {
            (o, MenuAction::Back { click: true })
        } else if sel == 0 {
            (OptionsView { sound_enabled: !o.sound_enabled, ..o }, MenuAction::SettingToggled)
        } else if 1 <= sel <= 4 {
            (o, MenuAction::PickAudioFile(spec_audio_row_kind(sel)))
        } else {
            (o, MenuAction::Nothing)
        },
        MenuScreen::Monitoring => if last {
            (o, MenuAction::Back { click: true })
        } else if sel == 0 {
            (o, MenuAction::Prompt(PromptField::ChromePath))
        } else if sel == 1 {
            (OptionsView { view_type: spec_next_view(o.view_type), ..o }, MenuAction::SettingToggled)
        } else if sel == 2 {
            (o, MenuAction::Prompt(PromptField::Interval))
        } else if sel == 3 {
            (OptionsView { logs_enabled: !o.logs_enabled, ..o }, MenuAction::SettingToggled)
        } else if sel == 4 {
            (OptionsView { stop_when_price_reached: !o.stop_when_price_reached, ..o }, MenuAction::SettingToggled)
        } else if sel == 5 {
            (o, MenuAction::PickToken)
        } else if sel == 6 {
            (o, MenuAction::Prompt(PromptField::Quantity))
        } else if sel == 7 {
            (o, MenuAction::Prompt(PromptField::MinPrice))
        } else if sel == 8 {
            (o, MenuAction::Prompt(PromptField::MaxPrice))
        } else if sel == 9 {
            (o, MenuAction::Prompt(PromptField::DownPerc))
        } else if sel == 10 {
            (o, MenuAction::Prompt(PromptField::UpPerc))
        } else {
            (o, MenuAction::Nothing)
        },
        MenuScreen::Token => if last {
            (o, MenuAction::Back { click: true })
        } else {
            (OptionsView { token_id: items[sel], ..o }, MenuAction::Chosen)
        },
        MenuScreen::AudioFile(kind) => if last {
            (o, MenuAction::Back { click: true })
        } else {
            (spec_set_audio_file(o, kind, if sel == 0 { Seq::empty() } else { items[sel] }), MenuAction::Chosen)
        },
    }
}

/// Whether a screen puts its settings back to their defaults on `D`, and
/// which group it resets.
pub open spec fn spec_defaults_group(screen: MenuScreen) -> Option<FieldGroup> {
    match screen {
        MenuScreen::Audio => Some(FieldGroup::Audio),
        MenuScreen::Monitoring => Some(FieldGroup::Monitoring),
        _ => None,
    }
}

/// What a keyboard event does on a menu screen with entries `items` and
/// row `sel` selected: the new selected row, the new settings and the action.
///
/// Up and Down move the selection within the entries; Enter acts on the
/// selected row; `S` switches the menu sound; `D` restores the defaults on
/// the two settings screens; `R` plays the selected file in the sound file
/// chooser; Esc leaves the screen without a click.
pub open spec fn spec_menu_step(
    screen: MenuScreen,
    items: Seq<Seq<char>>,
    sel: int,
    o: OptionsView,
    ev: KeyPress,
    platform: Platform,
) -> (int, OptionsView, MenuAction) {
    if !ev.is_press {
        (sel, o, MenuAction::Ignore)
    } else {
        match ev.key {
            Key::Up => if sel > 0 {
                (sel - 1, o, MenuAction::Moved { old: sel as usize, new: (sel - 1) as usize })
            } else {
                (sel, o, MenuAction::Nothing)
            },
            Key::Down => if sel + 1 < items.len() {
                (sel + 1, o, MenuAction::Moved { old: sel as usize, new: (sel + 1) as usize })
            } else {
                (sel, o, MenuAction::Nothing)
            },
            Key::Enter => {
                let (o2, a) = spec_activate(screen, items, sel, o);
                (sel, o2, a)
            },
            Key::Esc => (sel, o, MenuAction::Back { click: false }),
            Key::Char(_) => if is_letter_key(ev.key, 'd') && spec_defaults_group(screen) is Some {
                (sel, spec_reset_fields(o, spec_defaults_group(screen)->0, platform), MenuAction::DefaultsRestored)
            } else if is_letter_key(ev.key, 's') {
                (sel, OptionsView { menu_sound_enabled: !o.menu_sound_enabled, ..o }, MenuAction::ToggledMenuSound)
            } else if is_letter_key(ev.key, 'r') && screen is AudioFile {
                (sel, o, MenuAction::Preview)
            } else {
                (sel, o, MenuAction::Nothing)
            },
            _ => (sel, o, MenuAction::Nothing),
        }
    }
}

/// Carries out Enter on row `sel`.
fn activate(screen: MenuScreen, items: &Vec<String>, sel: usize, options: &mut Options) -> (a: MenuAction)
    requires
        sel < items.len(),
    ensures
        (final(options)@, a) == spec_activate(screen, views(items@), sel as int, old(options)@),
{
    let last = sel == items.len() - 1;
    match screen {
        MenuScreen::Main => {
            if sel == 0 {
                MenuAction::Launch
            } else if sel == 1 {
                MenuAction::OpenOptions
            } else if sel == 2 {
                MenuAction::Back { click: true }
            } else {
                MenuAction::Clicked
            }
        },
        MenuScreen::Options => {
            if last {
                MenuAction::Back { click: true }
            } else if sel == 0 {
                MenuAction::OpenAudio
            } else if sel == 1 {
                MenuAction::OpenMonitoring
            } else {
                MenuAction::Nothing
            }
        },
        MenuScreen::Audio => {
            if last {
                MenuAction::Back { click: true }
            } else if sel == 0 {
                options.sound_enabled = !options.sound_enabled;
                MenuAction::SettingToggled
            } else if sel == 1 {
                MenuAction::PickAudioFile(AudioKind::Min)
            } else if sel == 2 {
                MenuAction::PickAudioFile(AudioKind::Max)
            } else if sel == 3 {
                MenuAction::PickAudioFile(AudioKind::DownPerc)
            } else if sel == 4 {
                MenuAction::PickAudioFile(AudioKind::UpPerc)
            } else {
                MenuAction::Nothing
            }
        },
        MenuScreen::Monitoring => {
            if last {
                MenuAction::Back { click: true }
            } else if sel == 0 {
                MenuAction::Prompt(PromptField::ChromePath)
            } else if sel == 1 {
                options.view_type = options.view_type.next();
                MenuAction::SettingToggled
            } else if sel == 2 {
                MenuAction::Prompt(PromptField::Interval)
            } else if sel == 3 {
                options.logs_enabled = !options.logs_enabled;
                MenuAction::SettingToggled
            } else if sel == 4 {
                options.stop_when_price_reached = !options.stop_when_price_reached;
                MenuAction::SettingToggled
            } else if sel == 5 {
                MenuAction::PickToken
            } else if sel == 6 {
                MenuAction::Prompt(PromptField::Quantity)
            } else if sel == 7 {
                MenuAction::Prompt(PromptField::MinPrice)
            } else if sel == 8 {
                MenuAction::Prompt(PromptField::MaxPrice)
            } else if sel == 9 {
                MenuAction::Prompt(PromptField::DownPerc)
            } else if sel == 10 {
                MenuAction::Prompt(PromptField::UpPerc)
            } else {
                MenuAction::Nothing
            }
        },
        MenuScreen::Token => {
            if last {
                MenuAction::Back { click: true }
            } else {
                options.token_id = items[sel].clone();
                MenuAction::Chosen
            }
        },
        MenuScreen::AudioFile(kind) => {
            if last {
                MenuAction::Back { click: true }
            } else {
                let name = if sel == 0 { owned("") } else { items[sel].clone() };
                proof {
                    reveal_strlit("");
                }
                set_audio_file(options, kind, name);
                MenuAction::Chosen
            }
        },
    }
}

/// Handles one keyboard event on a menu screen with entries `items`: moves
/// the selection, changes the settings where the key does, and says what the
/// program does next.
pub fn menu_step(
    screen: MenuScreen,
    items: &Vec<String>,
    selected: &mut usize,
    options: &mut Options,
    event: KeyPress,
    platform: Platform,
) -> (a: MenuAction)
    requires
        *old(selected) < items.len(),
    ensures
        (*final(selected) as int, final(options)@, a) == spec_menu_step(
            screen,
            views(items@),
            *old(selected) as int,
            old(options)@,
            event,
            platform,
        ),
{
    if !event.is_press {
        return MenuAction::Ignore;
    }
    let sel = *selected;
    match event.key {
        Key::Up => {
            if sel > 0 {
                *selected = sel - 1;
                MenuAction::Moved { old: sel, new: sel - 1 }
            } else {
                MenuAction::Nothing
            }
        },
        Key::Down => {
            if sel + 1 < items.len() {
                *selected = sel + 1;
                MenuAction::Moved { old: sel, new: sel + 1 }
            } else {
                MenuAction::Nothing
            }
        },
        Key::Enter => activate(screen, items, sel, options),
        Key::Esc => MenuAction::Back { click: false },
        Key::Char(_) => {
            let group = match screen {
                MenuScreen::Audio => Some(FieldGroup::Audio),
                MenuScreen::Monitoring => Some(FieldGroup::Monitoring),
                _ => None,
            };
            let is_file_chooser = match screen {
                MenuScreen::AudioFile(_) => true,
                _ => false,
            };
            if letter_key(event.key, 'd') && group.is_some() {
                options.reset_fields(group.unwrap(), platform);
                MenuAction::DefaultsRestored
            } else if letter_key(event.key, 's') {
                options.menu_sound_enabled = !options.menu_sound_enabled;
                MenuAction::ToggledMenuSound
            } else if letter_key(event.key, 'r') && is_file_chooser {
                MenuAction::Preview
            } else {
                MenuAction::Nothing
            }
        },
        _ => MenuAction::Nothing,
    }
}

/// The main menu's entries.
pub open spec fn spec_main_menu_items() -> Seq<Seq<char>> {
    seq!["Avvia"@, "Opzioni"@, "ESCI"@]
}

/// The main menu's entries: start, settings, quit.
pub fn main_menu_items() -> (r: Vec<String>)
    ensures
        views(r@) == spec_main_menu_items(),
{
    let r = vec![owned("Avvia"), owned("Opzioni"), owned("ESCI")];
    assert(views(r@) =~= spec_main_menu_items());
    r
}

/// The settings menu's entries.
pub open spec fn spec_options_menu_items() -> Seq<Seq<char>> {
    seq!["Audio"@, "Monitoraggio"@, "INDIETRO"@]
}

/// The settings menu's entries: sound, monitoring, back.
pub fn options_menu_items() -> (r: Vec<String>)
    ensures
        views(r@) == spec_options_menu_items(),
{
    let r = vec![owned("Audio"), owned("Monitoraggio"), owned("INDIETRO")];
    assert(views(r@) =~= spec_options_menu_items());
    r
}

/// The sound settings screen's entries for settings `o`.
pub open spec fn spec_audio_menu_items(o: OptionsView) -> Seq<Seq<char>> {
    seq![
        "Abilita suono: "@ + spec_yes_no(o.sound_enabled),
        "Audio prezzo minimo raggiunto: "@ + o.audio_min_price_file_name,
        "Audio prezzo massimo raggiunto: "@ + o.audio_max_price_file_name,
        "Audio percentuale ribasso toccata: "@ + o.audio_down_price_file_name,
        "Audio percentuale rialzo toccata: "@ + o.audio_up_price_file_name,
        "INDIETRO"@,
    ]
}

/// The sound settings screen's entries.
pub fn audio_menu_items(options: &Options) -> (r: Vec<String>)
    ensures
        views(r@) == spec_audio_menu_items(options@),
{
    let r = vec![
        concat_str("Abilita suono: ", yes_no(options.sound_enabled)),
        concat_str("Audio prezzo minimo raggiunto: ", options.audio_min_price_file_name.as_str()),
        concat_str("Audio prezzo massimo raggiunto: ", options.audio_max_price_file_name.as_str()),
        concat_str("Audio percentuale ribasso toccata: ", options.audio_down_price_file_name.as_str()),
        concat_str("Audio percentuale rialzo toccata: ", options.audio_up_price_file_name.as_str()),
        owned("INDIETRO"),
    ];
    assert(views(r@) =~= spec_audio_menu_items(options@));
    r
}

/// The text that row `row` of the sound settings screen shows after its
/// setting changed. It is the row's entry, except that the last sound row
/// reads "raggiunta" where the screen's first drawing reads "toccata".
pub open spec fn spec_audio_row_text(o: OptionsView, row: int) -> Seq<char> {
    if row == 4 {
        "Audio percentuale rialzo raggiunta: "@ + o.audio_up_price_file_name
    } else {
        spec_audio_menu_items(o)[row]
    }
}

/// The text of row `row` of the sound settings screen after its setting
/// changed.
pub fn audio_row_text(options: &Options, row: usize) -> (r: String)
    requires
        row < 5,
    ensures
        r@ == spec_audio_row_text(options@, row as int),
{
    if row == 0 {
        concat_str("Abilita suono: ", yes_no(options.sound_enabled))
    } else if row == 1 {
        concat_str("Audio prezzo minimo raggiunto: ", options.audio_min_price_file_name.as_str())
    } else if row == 2 {
        concat_str("Audio prezzo massimo raggiunto: ", options.audio_max_price_file_name.as_str())
    } else if row == 3 {
        concat_str("Audio percentuale ribasso toccata: ", options.audio_down_price_file_name.as_str())
    } else {
        concat_str("Audio percentuale rialzo raggiunta: ", options.audio_up_price_file_name.as_str())
    }
}

/// The monitoring settings screen's entries for settings `o`, the current
/// token's symbol and the four price thresholds as they are written out.
pub open spec fn spec_monitoring_menu_items(
    o: OptionsView,
    symbol: Seq<char>,
    min_price: Seq<char>,
    max_price: Seq<char>,
    down_perc: Seq<char>,
    up_perc: Seq<char>,
) -> Seq<Seq<char>> {
    seq![
        "Percorso Chrome o Chromium: "@ + o.chrome_path,
        "Visualizzazione: "@ + spec_view_label(o.view_type, o.locale),
        "Intervallo di monitoraggio (s): "@ + decimal(o.monitoring_interval_secs as nat),
        "Abilita logs: "@ + spec_yes_no(o.logs_enabled),
        "Interrompi a prezzo minimo o massimo: "@ + spec_yes_no(o.stop_when_price_reached),
        "Token: "@ + symbol,
        "Quantità: "@ + decimal(o.token_quantity as nat),
        "Prezzo minimo: "@ + min_price,
        "Prezzo massimo: "@ + max_price,
        "Ribasso %: "@ + down_perc,
        "Rialzo %: "@ + up_perc,
        "INDIETRO"@,
    ]
}

/// The monitoring settings screen's entries. The thresholds are passed as
/// text: they are floating-point numbers, which this library does not
/// format.
pub fn monitoring_menu_items(
    options: &Options,
    symbol: &str,
    min_price: &str,
    max_price: &str,
    down_perc: &str,
    up_perc: &str,
) -> (r: Vec<String>)
    ensures
        views(r@) == spec_monitoring_menu_items(options@, symbol@, min_price@, max_price@, down_perc@, up_perc@),
{
    let interval = decimal_string(options.monitoring_interval_secs);
    let quantity = decimal_string(options.token_quantity as u64);
    let r = vec![
        concat_str("Percorso Chrome o Chromium: ", options.chrome_path.as_str()),
        concat_str("Visualizzazione: ", options.view_type.label(options.locale.as_str())),
        concat_str("Intervallo di monitoraggio (s): ", interval.as_str()),
        concat_str("Abilita logs: ", yes_no(options.logs_enabled)),
        concat_str("Interrompi a prezzo minimo o massimo: ", yes_no(options.stop_when_price_reached)),
        concat_str("Token: ", symbol),
        concat_str("Quantità: ", quantity.as_str()),
        concat_str("Prezzo minimo: ", min_price),
        concat_str("Prezzo massimo: ", max_price),
        concat_str("Ribasso %: ", down_perc),
        concat_str("Rialzo %: ", up_perc),
        owned("INDIETRO"),
    ];
    assert(views(r@) =~= spec_monitoring_menu_items(options@, symbol@, min_price@, max_price@, down_perc@, up_perc@));
    r
}

/// The token chooser's entries for token identifiers `ids`: the
/// identifiers, then `INDIETRO`.
pub open spec fn spec_token_menu_items(ids: Seq<Seq<char>>) -> Seq<Seq<char>> {
    ids.push("INDIETRO"@)
}

/// The token chooser's entries.
pub fn token_menu_items(ids: &Vec<String>) -> (r: Vec<String>)
    ensures
        views(r@) == spec_token_menu_items(views(ids@)),
{
    let mut r = ids.clone();
    assert(views(r@) =~= views(ids@));
    r.push(owned("INDIETRO"));
    assert(views(r@) =~= views(ids@).push("INDIETRO"@));
    r
}

/// The row that the token chooser selects first: the first identifier equal
/// to the current token, or the first row.
pub open spec fn spec_initial_token_selection(ids: Seq<Seq<char>>, current: Seq<char>) -> int {
    if exists|k: int| 0 <= k < ids.len() && ids[k] == current {
        choose|k: int| 0 <= k < ids.len() && ids[k] == current && forall|j: int| 0 <= j < k ==> ids[j] != current
    } else {
        0
    }
}

/// The row that the token chooser selects first.
pub fn initial_token_selection(ids: &Vec<String>, current: &str) -> (r: usize)
    ensures
        r as int == spec_initial_token_selection(views(ids@), current@),
{
    match position_of(ids, current) {
        Some(k) => {
            proof {
                let v = views(ids@);
                assert(0 <= k < v.len() && v[k as int] == current@);
                let c = choose|m: int| 0 <= m < v.len() && v[m] == current@ && forall|j: int| 0 <= j < m ==> v[j] != current@;
                if c < k {
                    assert(v[c] != current@);
                } else if c > k {
                    assert(v[k as int] != current@);
                }
            }
            k
        },
        None => {
            proof {
                let v = views(ids@);
                assert forall|k: int| 0 <= k < v.len() implies v[k] != current@ by {
                    assert(v[k] == ids@[k]@);
                }
            }
            0
        },
    }
}

/// The question asked for a setting that the user types.
pub open spec fn spec_prompt_text(field: PromptField) -> Seq<char> {
    match field {
        PromptField::ChromePath => "Inserisci percorso: "@,
        PromptField::Interval => "Inserisci intervallo di monitoraggio (s): "@,
        PromptField::Quantity => "Inserisci quantità: "@,
        PromptField::MinPrice => "Inserisci prezzo minimo: "@,
        PromptField::MaxPrice => "Inserisci prezzo massimo: "@,
        PromptField::DownPerc => "Inserisci ribasso %: "@,
        PromptField::UpPerc => "Inserisci rialzo %: "@,
    }
}

/// The question asked for a setting that the user types.
pub fn prompt_text(field: PromptField) -> (r: &'static str)
    ensures
        r@ == spec_prompt_text(field),
{
    match field {
        PromptField::ChromePath => "Inserisci percorso: ",
        PromptField::Interval => "Inserisci intervallo di monitoraggio (s): ",
        PromptField::Quantity => "Inserisci quantità: ",
        PromptField::MinPrice => "Inserisci prezzo minimo: ",
        PromptField::MaxPrice => "Inserisci prezzo massimo: ",
        PromptField::DownPerc => "Inserisci ribasso %: ",
        PromptField::UpPerc => "Inserisci rialzo %: ",
    }
}

/// Whether a prompted setting is one of the four price thresholds.
pub open spec fn is_price_field(field: PromptField) -> bool {
    match field {
        PromptField::MinPrice | PromptField::MaxPrice | PromptField::DownPerc | PromptField::UpPerc => true,
        _ => false,
    }
}

/// The settings after the user typed `answer` for a setting that is not a
/// price threshold, and whether the answer was taken: any text for the
/// browser path, an unsigned number that fits for the interval (64 bits) and
/// the quantity (32 bits). A refused answer leaves the settings unchanged.
pub open spec fn spec_apply_text_answer(o: OptionsView, field: PromptField, answer: Seq<char>) -> (OptionsView, bool) {
    match field {
        PromptField::ChromePath => (OptionsView { chrome_path: answer, ..o }, true),
        PromptField::Interval => match spec_parse_unsigned(answer, u64::MAX as nat) {
            Some(v) => (OptionsView { monitoring_interval_secs: v as u64, ..o }, true),
            None => (o, false),
        },
        PromptField::Quantity => match spec_parse_unsigned(answer, u32::MAX as nat) {
            Some(v) => (OptionsView { token_quantity: v as u32, ..o }, true),
            None => (o, false),
        },
        _ => (o, false),
    }
}

/// Takes the user's answer for a typed setting that is not a price
/// threshold; says whether it was taken.
pub fn apply_text_answer(options: &mut Options, field: PromptField, answer: &str) -> (taken: bool)
    ensures
        (final(options)@, taken) == spec_apply_text_answer(old(options)@, field, answer@),
{
    match field {
        PromptField::ChromePath => {
            options.chrome_path = owned(answer);
            true
        },
        PromptField::Interval => match parse_unsigned(answer, u64::MAX) {
            Some(v) => {
                options.monitoring_interval_secs = v;
                true
            },
            None => false,
        },
        PromptField::Quantity => match parse_unsigned(answer, u32::MAX as u64) {
            Some(v) => {
                options.token_quantity = v as u32;
                true
            },
            None => false,
        },
        _ => false,
    }
}

/// The settings with a price threshold set to the `f32` whose bit pattern is
/// `bits`; a field that is not a threshold leaves them unchanged.
pub open spec fn spec_set_price(o: OptionsView, field: PromptField, bits: u32) -> OptionsView {
    match field {
        PromptField::MinPrice => OptionsView { min_price_bits: bits, ..o },
        PromptField::MaxPrice => OptionsView { max_price_bits: bits, ..o },
        PromptField::DownPerc => OptionsView { down_price_perc_bits: bits, ..o },
        PromptField::UpPerc => OptionsView { up_price_perc_bits: bits, ..o },
        _ => o,
    }
}

/// Sets a price threshold to the `f32` whose bit pattern is `bits`; says
/// whether `field` is a threshold.
pub fn set_price_bits(options: &mut Options, field: PromptField, bits: u32) -> (taken: bool)
    ensures
        final(options)@ == spec_set_price(old(options)@, field, bits),
        taken == is_price_field(field),
{
    match field {
        PromptField::MinPrice => {
            options.min_price_bits = bits;
            true
        },
        PromptField::MaxPrice => {
            options.max_price_bits = bits;
            true
        },
        PromptField::DownPerc => {
            options.down_price_perc_bits = bits;
            true
        },
        PromptField::UpPerc => {
            options.up_price_perc_bits = bits;
            true
        },
        _ => false,
    }
}

/// A key press never moves the selection off the screen's entries.
pub proof fn lemma_menu_selection_in_range(
    screen: MenuScreen,
    items: Seq<Seq<char>>,
    sel: int,
    o: OptionsView,
    ev: KeyPress,
    platform: Platform,
)
    requires
        0 <= sel < items.len(),
    ensures
        0 <= spec_menu_step(screen, items, sel, o, ev, platform).0 < items.len(),
{
}

/// Up followed by Down comes back to the same row and leaves the settings
/// alone; so does Down followed by Up.
pub proof fn lemma_up_down_inverse(
    screen: MenuScreen,
    items: Seq<Seq<char>>,
    sel: int,
    o: OptionsView,
    platform: Platform,
)
    requires
        0 <= sel < items.len(),
    ensures
        sel > 0 ==> {
            let up = spec_menu_step(screen, items, sel, o, KeyPress { key: Key::Up, is_press: true }, platform);
            let down = spec_menu_step(screen, items, up.0, up.1, KeyPress { key: Key::Down, is_press: true }, platform);
            down.0 == sel && down.1 == o
        },
        sel + 1 < items.len() ==> {
            let down = spec_menu_step(screen, items, sel, o, KeyPress { key: Key::Down, is_press: true }, platform);
            let up = spec_menu_step(screen, items, down.0, down.1, KeyPress { key: Key::Up, is_press: true }, platform);
            up.0 == sel && up.1 == o
        },
{
}

/// Pressing `S` twice on any screen leaves the settings as they were.
pub proof fn lemma_sound_key_twice(
    screen: MenuScreen,
    items: Seq<Seq<char>>,
    sel: int,
    o: OptionsView,
    c: char,
    platform: Platform,
)
    requires
        0 <= sel < items.len(),
        is_letter_key(Key::Char(c), 's'),
    ensures
        ({
            let ev = KeyPress { key: Key::Char(c), is_press: true };
            let once = spec_menu_step(screen, items, sel, o, ev, platform);
            let twice = spec_menu_step(screen, items, once.0, once.1, ev, platform);
            &&& once.2 == MenuAction::ToggledMenuSound
            &&& once.1.menu_sound_enabled != o.menu_sound_enabled
            &&& twice.0 == sel
            &&& twice.1 == o
        }),
{
    let ev = KeyPress { key: Key::Char(c), is_press: true };
    let once = spec_menu_step(screen, items, sel, o, ev, platform);
    assert(spec_menu_step(screen, items, once.0, once.1, ev, platform).1 =~= o);
}

/// Confirming the token that the token chooser selects first keeps the
/// current token, when the current token is listed.
pub proof fn lemma_token_choice_keeps_current(ids: Seq<Seq<char>>, o: OptionsView, platform: Platform)
    requires
        exists|k: int| 0 <= k < ids.len() && ids[k] == o.token_id,
    ensures
        ({
            let items = spec_token_menu_items(ids);
            let sel = spec_initial_token_selection(ids, o.token_id);
            let r = spec_menu_step(MenuScreen::Token, items, sel, o, KeyPress { key: Key::Enter, is_press: true }, platform);
            &&& 0 <= sel < ids.len()
            &&& r.2 == MenuAction::Chosen
            &&& r.1 == o
        }),
{
    let items = spec_token_menu_items(ids);
    let k = choose|k: int| 0 <= k < ids.len() && ids[k] == o.token_id;
    lemma_first_match_exists(ids, o.token_id, k, ids.len() as int);
    let sel = spec_initial_token_selection(ids, o.token_id);
    assert(items[sel] == ids[sel]);
    assert(OptionsView { token_id: items[sel], ..o } =~= o);
}

/// Confirming the entry that the sound file chooser selects first keeps the
/// alert's sound file, when that file is empty or is listed (and is not
/// literally named `(nessuno)`, the entry for no sound).
pub proof fn lemma_audio_choice_keeps_current(files: Seq<Seq<char>>, kind: AudioKind, o: OptionsView, platform: Platform)
    requires
        files.len() > 0,
        spec_audio_file(o, kind) != "(nessuno)"@,
        spec_audio_file(o, kind).len() == 0 || exists|k: int| 0 <= k < files.len() && files[k] == spec_audio_file(o, kind),
    ensures
        ({
            let items = spec_audio_file_items(files)->0;
            let sel = spec_initial_audio_selection(items, spec_audio_file(o, kind));
            let r = spec_menu_step(MenuScreen::AudioFile(kind), items, sel, o, KeyPress { key: Key::Enter, is_press: true }, platform);
            &&& 0 <= sel < items.len() - 1
            &&& r.2 == MenuAction::Chosen
            &&& r.1 == o
        }),
{
    let items = spec_audio_file_items(files)->0;
    let cur = spec_audio_file(o, kind);
    let sel = spec_initial_audio_selection(items, cur);
    assert(items == seq!["(nessuno)"@] + files + seq!["INDIETRO"@]);
    assert(items.len() == files.len() + 2);
    let chosen = if sel == 0 { Seq::<char>::empty() } else { items[sel] };
    if cur.len() == 0 {
        assert(sel == 0);
        assert(cur =~= chosen);
    } else {
        let k = choose|k: int| 0 <= k < files.len() && files[k] == cur;
        assert(items[k + 1] == files[k]);
        lemma_first_match_exists(items, cur, k + 1, items.len() - 1);
        assert(items[0] == "(nessuno)"@);
        assert(sel != 0);
        assert(items[sel] == cur);
    }
    assert(spec_set_audio_file(o, kind, chosen) =~= o);
    let r = spec_menu_step(MenuScreen::AudioFile(kind), items, sel, o, KeyPress { key: Key::Enter, is_press: true }, platform);
    assert(r.1 == spec_activate(MenuScreen::AudioFile(kind), items, sel, o).0);
}

/// Esc leaves every menu screen without a click, and changes neither the
/// selected row nor the settings.
pub proof fn lemma_esc_leaves_unchanged(
    screen: MenuScreen,
    items: Seq<Seq<char>>,
    sel: int,
    o: OptionsView,
    platform: Platform,
)
    ensures
        spec_menu_step(screen, items, sel, o, KeyPress { key: Key::Esc, is_press: true }, platform)
            == (sel, o, MenuAction::Back { click: false }),
{
}

/// In the token chooser only Enter can change the token: every other event,
/// Esc among them, keeps the token that was set.
pub proof fn lemma_token_changes_only_on_enter(
    items: Seq<Seq<char>>,
    sel: int,
    o: OptionsView,
    ev: KeyPress,
    platform: Platform,
)
    requires
        !(ev.is_press && ev.key == Key::Enter),
    ensures
        spec_menu_step(MenuScreen::Token, items, sel, o, ev, platform).1.token_id == o.token_id,
{
}

/// Typing the decimal form of any 32-bit number as the quantity sets the
/// quantity to that number, and typing that of any 64-bit number as the
/// interval sets the interval to it; nothing else changes.
pub proof fn lemma_typed_numbers_taken(o: OptionsView, quantity: u32, secs: u64)
    ensures
        spec_apply_text_answer(o, PromptField::Quantity, decimal(quantity as nat))
            == (OptionsView { token_quantity: quantity, ..o }, true),
        spec_apply_text_answer(o, PromptField::Interval, decimal(secs as nat))
            == (OptionsView { monitoring_interval_secs: secs, ..o }, true),
{
    lemma_parse_decimal_round_trip(quantity as nat, 0xffff_ffff);
    lemma_parse_decimal_round_trip(secs as nat, 0xffff_ffff_ffff_ffff);
}

/// A quantity typed as ASCII digits is taken exactly when the number they
/// spell fits in 32 bits, and then becomes the quantity; a refused answer
/// leaves the settings as they were.
pub proof fn lemma_quantity_digits(o: OptionsView, answer: Seq<char>)
    requires
        answer.len() > 0,
        forall|i: int| 0 <= i < answer.len() ==> '0' <= #[trigger] answer[i] <= '9',
    ensures
        spec_apply_text_answer(o, PromptField::Quantity, answer).1 <==> digits_value(answer) <= 0xffff_ffff,
        digits_value(answer) <= 0xffff_ffff ==> spec_apply_text_answer(o, PromptField::Quantity, answer).0
            == (OptionsView { token_quantity: digits_value(answer) as u32, ..o }),
        !spec_apply_text_answer(o, PromptField::Quantity, answer).1 ==> spec_apply_text_answer(
            o,
            PromptField::Quantity,
            answer,
        ).0 == o,
{
    assert(answer[0] != '+');
}

} // verus!
