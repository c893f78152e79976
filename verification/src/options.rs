use vstd::prelude::*;

use crate::text::{contains_seq, contains_str, lowercase_of, owned, to_lowercase};
use crate::view_type::ViewType;

verus! {

/// The operating-system family the program runs on; it decides the default
/// browser path.
#[derive(Debug, Clone, Copy, PartialEq, Eq, Structural)]
pub enum Platform {
    Windows,
    Other,
}

/// The monitor's settings, as stored in its JSON configuration file.
///
/// The four price thresholds are floating-point numbers in the file; here each
/// is held as the bit pattern of its `f32` value (`f32::to_bits`), which the
/// settings logic only copies and resets.
pub struct Options {
    pub locale: String,
    pub view_type: ViewType,
    pub logs_enabled: bool,
    pub log_file_name: String,
    pub stop_when_price_reached: bool,
    pub menu_sound_enabled: bool,
    pub sound_enabled: bool,
    pub audio_min_price_file_name: String,
    pub audio_max_price_file_name: String,
    pub audio_down_price_file_name: String,
    pub audio_up_price_file_name: String,
    pub chrome_path: String,
    pub url: String,
    pub update_element: String,
    pub input_element: String,
    pub output_element: String,
    pub token_id: String,
    pub token_quantity: u32,
    pub datetime_format: String,
    pub monitoring_interval_secs: u64,
    pub response_timeout_secs: u64,
    pub min_price_bits: u32,
    pub max_price_bits: u32,
    pub down_price_perc_bits: u32,
    pub up_price_perc_bits: u32,
}

/// The mathematical value of an [`Options`]: every string by its characters.
#[verifier::ext_equal]
pub struct OptionsView {
    pub locale: Seq<char>,
    pub view_type: ViewType,
    pub logs_enabled: bool,
    pub log_file_name: Seq<char>,
    pub stop_when_price_reached: bool,
    pub menu_sound_enabled: bool,
    pub sound_enabled: bool,
    pub audio_min_price_file_name: Seq<char>,
    pub audio_max_price_file_name: Seq<char>,
    pub audio_down_price_file_name: Seq<char>,
    pub audio_up_price_file_name: Seq<char>,
    pub chrome_path: Seq<char>,
    pub url: Seq<char>,
    pub update_element: Seq<char>,
    pub input_element: Seq<char>,
    pub output_element: Seq<char>,
    pub token_id: Seq<char>,
    pub token_quantity: u32,
    pub datetime_format: Seq<char>,
    pub monitoring_interval_secs: u64,
    pub response_timeout_secs: u64,
    pub min_price_bits: u32,
    pub max_price_bits: u32,
    pub down_price_perc_bits: u32,
    pub up_price_perc_bits: u32,
}

impl View for Options {
    type V = OptionsView;

    open spec fn view(&self) -> OptionsView {
        OptionsView {
            locale: self.locale@,
            view_type: self.view_type,
            logs_enabled: self.logs_enabled,
            log_file_name: self.log_file_name@,
            stop_when_price_reached: self.stop_when_price_reached,
            menu_sound_enabled: self.menu_sound_enabled,
            sound_enabled: self.sound_enabled,
            audio_min_price_file_name: self.audio_min_price_file_name@,
            audio_max_price_file_name: self.audio_max_price_file_name@,
            audio_down_price_file_name: self.audio_down_price_file_name@,
            audio_up_price_file_name: self.audio_up_price_file_name@,
            chrome_path: self.chrome_path@,
            url: self.url@,
            update_element: self.update_element@,
            input_element: self.input_element@,
            output_element: self.output_element@,
            token_id: self.token_id@,
            token_quantity: self.token_quantity,
            datetime_format: self.datetime_format@,
            monitoring_interval_secs: self.monitoring_interval_secs,
            response_timeout_secs: self.response_timeout_secs,
            min_price_bits: self.min_price_bits,
            max_price_bits: self.max_price_bits,
            down_price_perc_bits: self.down_price_perc_bits,
            up_price_perc_bits: self.up_price_perc_bits,
        }
    }
}

/// The default browser executable for a platform.
pub open spec fn spec_default_chrome_path(platform: Platform) -> Seq<char> {
    match platform {
        Platform::Windows => "C:\\Program Files\\Google\\Chrome\\Application\\chrome.exe"@,
        Platform::Other => "/usr/bin/google-chrome"@,
    }
}

/// The page that launch style 2 monitors by default.
pub open spec fn spec_token_page_url() -> Seq<char> {
    "https://jup.ag/tokens/So11111111111111111111111111111111111111112"@
}

/// The default settings. Launch style 2 watches a token page and reads its
/// price from the page's elements; every other style uses the swap page.
pub open spec fn spec_default_options(launch_type: u8, platform: Platform) -> OptionsView {
    OptionsView {
        locale: "it"@,
        view_type: ViewType::FIXED,
        logs_enabled: true,
        log_file_name: "log_1.txt"@,
        stop_when_price_reached: true,
        menu_sound_enabled: true,
        sound_enabled: true,
        audio_min_price_file_name: "fail_5.wav"@,
        audio_max_price_file_name: "win_4.wav"@,
        audio_down_price_file_name: "fail_7.wav"@,
        audio_up_price_file_name: "win_1.wav"@,
        chrome_path: spec_default_chrome_path(platform),
        url: if launch_type == 2 {
            spec_token_page_url()
        } else {
            "https://jup.ag/swap?sell=:sell_addr&buy=:buy_addr"@
        },
        update_element: if launch_type == 2 {
            ".flex.size-7.cursor-pointer.items-center.justify-center.rounded-full.border.border-neutral-800.text-neutral-500.hover\\:bg-neutral-800.hover\\:text-neutral-300"@
        } else {
            ".outline-none.flex.size-7.cursor-pointer.items-center.justify-center.rounded-full.text-neutral-500.hover\\:bg-neutral-800.hover\\:text-neutral-300"@
        },
        input_element: if launch_type == 2 {
            ".flex.shrink-0.items-center.overflow-hidden.py-2\\.5.pr-2\\.5 > .flex.flex-1.justify-between.gap-2\\.5.overflow-hidden > .flex.shrink-0.flex-col.items-end.justify-center.gap-0\\.5 > .relative.inline-flex.items-center.rounded-sm.leading-none.tracking-tight > span"@
        } else {
            "input[name=fromValue]"@
        },
        output_element: if launch_type == 2 {
            ".flex.flex-1.justify-between.overflow-hidden > .flex.shrink-0.flex-col.items-end.gap-1 > .relative.inline-flex.items-center.rounded-sm.leading-none > span"@
        } else {
            "input[name=toValue]"@
        },
        token_id: "SOL"@,
        token_quantity: 1,
        datetime_format: "%d-%m-%Y %H:%M:%S"@,
        monitoring_interval_secs: 1,
        response_timeout_secs: 2,
        min_price_bits: 0,
        max_price_bits: 0,
        down_price_perc_bits: 0,
        up_price_perc_bits: 0,
    }
}

/// The two groups of settings that a settings screen can put back to their
/// defaults.
#[derive(Debug, Clone, Copy, PartialEq, Eq, Structural)]
pub enum FieldGroup {
    /// The sound switch and the four alert sound files.
    Audio,
    /// The browser path, the view, the interval, the switches, the token, the
    /// quantity and the four price thresholds.
    Monitoring,
}

/// The launch style that a configuration file name selects, given the name in
/// lowercase: 2 when it contains `config-2`, 1 otherwise.
pub open spec fn spec_launch_type_of_lowercase(lower: Seq<char>) -> u8 {
    if contains_seq(lower, "config-2"@) {
        2
    } else {
        1
    }
}

/// The launch style that a configuration file name selects.
pub open spec fn spec_launch_type_of_file_name(name: Seq<char>) -> u8 {
    spec_launch_type_of_lowercase(lowercase_of(name))
}

/// `o` with the settings of `group` taken from the default settings.
pub open spec fn spec_reset_fields(o: OptionsView, group: FieldGroup, platform: Platform) -> OptionsView {
    let d = spec_default_options(1, platform);
    match group {
        FieldGroup::Audio => OptionsView {
            sound_enabled: d.sound_enabled,
            audio_min_price_file_name: d.audio_min_price_file_name,
            audio_max_price_file_name: d.audio_max_price_file_name,
            audio_down_price_file_name: d.audio_down_price_file_name,
            audio_up_price_file_name: d.audio_up_price_file_name,
            ..o
        },
        FieldGroup::Monitoring => OptionsView {
            chrome_path: d.chrome_path,
            view_type: d.view_type,
            monitoring_interval_secs: d.monitoring_interval_secs,
            logs_enabled: d.logs_enabled,
            stop_when_price_reached: d.stop_when_price_reached,
            token_id: d.token_id,
            token_quantity: d.token_quantity,
            min_price_bits: d.min_price_bits,
            max_price_bits: d.max_price_bits,
            down_price_perc_bits: d.down_price_perc_bits,
            up_price_perc_bits: d.up_price_perc_bits,
            ..o
        },
    }
}

/// The launch style for a configuration file name already in lowercase: 2
/// when it contains `config-2`, 1 otherwise.
pub fn launch_type_for_lowercase_name(lower: &str) -> (r: u8)
    ensures
        r == spec_launch_type_of_lowercase(lower@),
{
    if contains_str(lower, "config-2") {
        2
    } else {
        1
    }
}

/// The launch style that a configuration file name selects: 2 when its
/// lowercase form contains `config-2`, 1 otherwise.
pub fn launch_type_for_file_name(name: &str) -> (r: u8)
    ensures
        r == spec_launch_type_of_file_name(name@),
{
    let lower = to_lowercase(name);
    launch_type_for_lowercase_name(lower.as_str())
}

impl Options {
    /// The default settings (the swap-page style).
    pub fn defaults(platform: Platform) -> (o: Options)
        ensures
            o@ == spec_default_options(1, platform),
    {
        Options::default_for(1, platform)
    }

    /// The default settings for a launch style: style 2 gets the token-page
    /// defaults, every other value the swap-page defaults.
    pub fn default_for(launch_type: u8, platform: Platform) -> (o: Options)
        ensures
            o@ == spec_default_options(launch_type, platform),
    {
        let chrome_path = match platform {
            Platform::Windows => owned("C:\\Program Files\\Google\\Chrome\\Application\\chrome.exe"),
            Platform::Other => owned("/usr/bin/google-chrome"),
        };
        let (url, update_element, input_element, output_element) = if launch_type == 2 {
            (
                owned("https://jup.ag/tokens/So11111111111111111111111111111111111111112"),
                owned(".flex.size-7.cursor-pointer.items-center.justify-center.rounded-full.border.border-neutral-800.text-neutral-500.hover\\:bg-neutral-800.hover\\:text-neutral-300"),
                owned(".flex.shrink-0.items-center.overflow-hidden.py-2\\.5.pr-2\\.5 > .flex.flex-1.justify-between.gap-2\\.5.overflow-hidden > .flex.shrink-0.flex-col.items-end.justify-center.gap-0\\.5 > .relative.inline-flex.items-center.rounded-sm.leading-none.tracking-tight > span"),
                owned(".flex.flex-1.justify-between.overflow-hidden > .flex.shrink-0.flex-col.items-end.gap-1 > .relative.inline-flex.items-center.rounded-sm.leading-none > span"),
            )
        } else {
            (
                owned("https://jup.ag/swap?sell=:sell_addr&buy=:buy_addr"),
                owned(".outline-none.flex.size-7.cursor-pointer.items-center.justify-center.rounded-full.text-neutral-500.hover\\:bg-neutral-800.hover\\:text-neutral-300"),
                owned("input[name=fromValue]"),
                owned("input[name=toValue]"),
            )
        };
        let o = Options {
            locale: owned("it"),
            view_type: ViewType::FIXED,
            logs_enabled: true,
            log_file_name: owned("log_1.txt"),
            stop_when_price_reached: true,
            menu_sound_enabled: true,
            sound_enabled: true,
            audio_min_price_file_name: owned("fail_5.wav"),
            audio_max_price_file_name: owned("win_4.wav"),
            audio_down_price_file_name: owned("fail_7.wav"),
            audio_up_price_file_name: owned("win_1.wav"),
            chrome_path,
            url,
            update_element,
            input_element,
            output_element,
            token_id: owned("SOL"),
            token_quantity: 1,
            datetime_format: owned("%d-%m-%Y %H:%M:%S"),
            monitoring_interval_secs: 1,
            response_timeout_secs: 2,
            min_price_bits: 0,
            max_price_bits: 0,
            down_price_perc_bits: 0,
            up_price_perc_bits: 0,
        };
        o
    }

    /// The default settings for the launch style that a configuration file
    /// name selects; these are the settings written when the file is missing
    /// or unreadable.
    pub fn default_for_file_name(file_name: &str, platform: Platform) -> (o: Options)
        ensures
            o@ == spec_default_options(spec_launch_type_of_file_name(file_name@), platform),
    {
        let launch_type = launch_type_for_file_name(file_name);
        Options::default_for(launch_type, platform)
    }

    /// The settings in force after reading the configuration file: what was
    /// read when the file could be read and parsed, else the swap-page
    /// defaults, whatever the file is called.
    pub fn resolve_loaded(parsed: Option<Options>, platform: Platform) -> (o: Options)
        ensures
            match parsed {
                Some(p) => o == p,
                None => o@ == spec_default_options(1, platform),
            },
    {
        match parsed {
            Some(p) => p,
            None => Options::defaults(platform),
        }
    }

    /// Puts the settings of `group` back to their defaults and keeps every
    /// other setting.
    pub fn reset_fields(&mut self, group: FieldGroup, platform: Platform)
        ensures
            final(self)@ == spec_reset_fields(old(self)@, group, platform),
    {
        let d = Options::defaults(platform);
        match group {
            FieldGroup::Audio => {
                self.sound_enabled = d.sound_enabled;
                self.audio_min_price_file_name = d.audio_min_price_file_name;
                self.audio_max_price_file_name = d.audio_max_price_file_name;
                self.audio_down_price_file_name = d.audio_down_price_file_name;
                self.audio_up_price_file_name = d.audio_up_price_file_name;
            },
            FieldGroup::Monitoring => {
                self.chrome_path = d.chrome_path;
                self.view_type = d.view_type;
                self.monitoring_interval_secs = d.monitoring_interval_secs;
                self.logs_enabled = d.logs_enabled;
                self.stop_when_price_reached = d.stop_when_price_reached;
                self.token_id = d.token_id;
                self.token_quantity = d.token_quantity;
                self.min_price_bits = d.min_price_bits;
                self.max_price_bits = d.max_price_bits;
                self.view_type = d.view_type;
                self.down_price_perc_bits = d.down_price_perc_bits;
                self.up_price_perc_bits = d.up_price_perc_bits;
            },
        }
    }
}

/// Putting a group back to its defaults twice is the same as doing it once,
/// and it leaves the settings of the other group as they were.
pub proof fn lemma_reset_fields_idempotent(o: OptionsView, group: FieldGroup, platform: Platform)
    ensures
        spec_reset_fields(spec_reset_fields(o, group, platform), group, platform)
            == spec_reset_fields(o, group, platform),
        group == FieldGroup::Audio ==> {
            let r = spec_reset_fields(o, group, platform);
            &&& r.chrome_path == o.chrome_path
            &&& r.view_type == o.view_type
            &&& r.token_id == o.token_id
            &&& r.min_price_bits == o.min_price_bits
            &&& r.menu_sound_enabled == o.menu_sound_enabled
        },
        group == FieldGroup::Monitoring ==> {
            let r = spec_reset_fields(o, group, platform);
            &&& r.sound_enabled == o.sound_enabled
            &&& r.audio_min_price_file_name == o.audio_min_price_file_name
            &&& r.menu_sound_enabled == o.menu_sound_enabled
            &&& r.url == o.url
        },
{
    assert(spec_reset_fields(spec_reset_fields(o, group, platform), group, platform)
        =~= spec_reset_fields(o, group, platform));
}

/// Every launch style other than 2 gets the same defaults as style 1, and
/// the two families of defaults differ only in the page and its elements.
pub proof fn lemma_default_styles(launch_type: u8, platform: Platform)
    ensures
        launch_type != 2 ==> spec_default_options(launch_type, platform) == spec_default_options(1, platform),
        spec_default_options(2, platform) == (OptionsView {
            url: spec_default_options(2, platform).url,
            update_element: spec_default_options(2, platform).update_element,
            input_element: spec_default_options(2, platform).input_element,
            output_element: spec_default_options(2, platform).output_element,
            ..spec_default_options(1, platform)
        }),
{
}

/// The defaults of the swap-page style are unchanged by putting any group back
/// to its defaults.
pub proof fn lemma_defaults_are_reset_fixpoint(group: FieldGroup, platform: Platform)
    ensures
        spec_reset_fields(spec_default_options(1, platform), group, platform)
            == spec_default_options(1, platform),
{
    assert(spec_reset_fields(spec_default_options(1, platform), group, platform)
        =~= spec_default_options(1, platform));
}

} // verus!
