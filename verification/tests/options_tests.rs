use price_monitor::config_run::ConfigRun;
use price_monitor::options::{
    launch_type_for_file_name, launch_type_for_lowercase_name, FieldGroup, Options, Platform,
};
use price_monitor::view_type::ViewType;

fn check_common_defaults(o: &Options) {
    assert_eq!(o.locale, "it");
    assert_eq!(o.view_type, ViewType::FIXED);
    assert!(o.logs_enabled);
    assert_eq!(o.log_file_name, "log_1.txt");
    assert!(o.stop_when_price_reached);
    assert!(o.menu_sound_enabled);
    assert!(o.sound_enabled);
    assert_eq!(o.audio_min_price_file_name, "fail_5.wav");
    assert_eq!(o.audio_max_price_file_name, "win_4.wav");
    assert_eq!(o.audio_down_price_file_name, "fail_7.wav");
    assert_eq!(o.audio_up_price_file_name, "win_1.wav");
    assert_eq!(o.token_id, "SOL");
    assert_eq!(o.token_quantity, 1);
    assert_eq!(o.datetime_format, "%d-%m-%Y %H:%M:%S");
    assert_eq!(o.monitoring_interval_secs, 1);
    assert_eq!(o.response_timeout_secs, 2);
    assert_eq!(f32::from_bits(o.min_price_bits), 0.0);
    assert_eq!(f32::from_bits(o.max_price_bits), 0.0);
    assert_eq!(f32::from_bits(o.down_price_perc_bits), 0.0);
    assert_eq!(f32::from_bits(o.up_price_perc_bits), 0.0);
}

#[test]
fn swap_page_defaults() {
    let o = Options::defaults(Platform::Other);
    check_common_defaults(&o);
    assert_eq!(o.chrome_path, "/usr/bin/google-chrome");
    assert_eq!(o.url, "https://jup.ag/swap?sell=:sell_addr&buy=:buy_addr");
    assert_eq!(o.input_element, "input[name=fromValue]");
    assert_eq!(o.output_element, "input[name=toValue]");
    assert_eq!(
        o.update_element,
        ".outline-none.flex.size-7.cursor-pointer.items-center.justify-center.rounded-full.text-neutral-500.hover\\:bg-neutral-800.hover\\:text-neutral-300"
    );
}

#[test]
fn token_page_defaults() {
    let o = Options::default_for(2, Platform::Windows);
    check_common_defaults(&o);
    assert_eq!(o.chrome_path, r"C:\Program Files\Google\Chrome\Application\chrome.exe");
    assert_eq!(o.url, "https://jup.ag/tokens/So11111111111111111111111111111111111111112");
    assert!(o.output_element.ends_with("leading-none > span"));
    assert!(o.update_element.starts_with(".flex.size-7"));
}

#[test]
fn default_for_other_styles_is_the_swap_page() {
    for t in [0u8, 1, 3, 255] {
        let o = Options::default_for(t, Platform::Other);
        assert_eq!(o.url, "https://jup.ag/swap?sell=:sell_addr&buy=:buy_addr");
    }
}

#[test]
fn launch_type_from_file_name() {
    assert_eq!(launch_type_for_file_name("config-2.json"), 2);
    assert_eq!(launch_type_for_file_name("CONFIG-2.JSON"), 2);
    assert_eq!(launch_type_for_file_name("my-Config-2-copy.json"), 2);
    assert_eq!(launch_type_for_file_name("config-1.json"), 1);
    assert_eq!(launch_type_for_file_name("config2.json"), 1);
    assert_eq!(launch_type_for_file_name(""), 1);
    assert_eq!(launch_type_for_lowercase_name("config-2"), 2);
    assert_eq!(launch_type_for_lowercase_name("CONFIG-2"), 1);
}

#[test]
fn loaded_options_win_over_defaults() {
    let mut read = Options::defaults(Platform::Other);
    read.token_id = "BTC".to_string();
    let o = Options::resolve_loaded(Some(read), Platform::Other);
    assert_eq!(o.token_id, "BTC");
    assert_eq!(o.url, "https://jup.ag/swap?sell=:sell_addr&buy=:buy_addr");
}

#[test]
fn unreadable_options_give_the_swap_page_defaults() {
    let o = Options::resolve_loaded(None, Platform::Other);
    assert_eq!(o.url, "https://jup.ag/swap?sell=:sell_addr&buy=:buy_addr");
    assert_eq!(o.input_element, "input[name=fromValue]");
    let o = Options::resolve_loaded(None, Platform::Windows);
    assert_eq!(o.url, "https://jup.ag/swap?sell=:sell_addr&buy=:buy_addr");
}

#[test]
fn written_defaults_follow_the_file_name() {
    let o = Options::default_for_file_name("Config-2.json", Platform::Windows);
    assert_eq!(o.url, "https://jup.ag/tokens/So11111111111111111111111111111111111111112");
    let o = Options::default_for_file_name("config-1.json", Platform::Other);
    assert_eq!(o.url, "https://jup.ag/swap?sell=:sell_addr&buy=:buy_addr");
}

fn changed() -> Options {
    let mut o = Options::default_for(2, Platform::Other);
    o.locale = "en".to_string();
    o.view_type = ViewType::SEQUENTIAL;
    o.logs_enabled = false;
    o.stop_when_price_reached = false;
    o.menu_sound_enabled = false;
    o.sound_enabled = false;
    o.audio_min_price_file_name = "a.wav".to_string();
    o.audio_max_price_file_name = "b.wav".to_string();
    o.audio_down_price_file_name = "".to_string();
    o.audio_up_price_file_name = "d.wav".to_string();
    o.chrome_path = "/opt/chrome".to_string();
    o.token_id = "BTC".to_string();
    o.token_quantity = 5;
    o.monitoring_interval_secs = 30;
    o.min_price_bits = 1.5f32.to_bits();
    o.max_price_bits = 2.5f32.to_bits();
    o.down_price_perc_bits = 0.5f32.to_bits();
    o.up_price_perc_bits = 0.75f32.to_bits();
    o
}

#[test]
fn reset_audio_fields_only() {
    let mut o = changed();
    o.reset_fields(FieldGroup::Audio, Platform::Other);
    assert!(o.sound_enabled);
    assert_eq!(o.audio_min_price_file_name, "fail_5.wav");
    assert_eq!(o.audio_max_price_file_name, "win_4.wav");
    assert_eq!(o.audio_down_price_file_name, "fail_7.wav");
    assert_eq!(o.audio_up_price_file_name, "win_1.wav");
    assert_eq!(o.chrome_path, "/opt/chrome");
    assert_eq!(o.token_id, "BTC");
    assert!(!o.menu_sound_enabled);
    assert_eq!(o.locale, "en");
    assert_eq!(o.min_price_bits, 1.5f32.to_bits());
}

#[test]
fn reset_monitoring_fields_only() {
    let mut o = changed();
    o.reset_fields(FieldGroup::Monitoring, Platform::Other);
    assert_eq!(o.chrome_path, "/usr/bin/google-chrome");
    assert_eq!(o.view_type, ViewType::FIXED);
    assert_eq!(o.monitoring_interval_secs, 1);
    assert!(o.logs_enabled);
    assert!(o.stop_when_price_reached);
    assert_eq!(o.token_id, "SOL");
    assert_eq!(o.token_quantity, 1);
    assert_eq!(o.min_price_bits, 0);
    assert_eq!(o.max_price_bits, 0);
    assert_eq!(o.down_price_perc_bits, 0);
    assert_eq!(o.up_price_perc_bits, 0);
    assert!(!o.sound_enabled);
    assert_eq!(o.audio_min_price_file_name, "a.wav");
    assert_eq!(o.url, "https://jup.ag/tokens/So11111111111111111111111111111111111111112");
    assert_eq!(o.locale, "en");
}

#[test]
fn reset_twice_is_reset_once() {
    for g in [FieldGroup::Audio, FieldGroup::Monitoring] {
        let mut a = changed();
        a.reset_fields(g, Platform::Windows);
        let once_path = a.chrome_path.clone();
        let once_files = a.audio_min_price_file_name.clone();
        a.reset_fields(g, Platform::Windows);
        assert_eq!(a.chrome_path, once_path);
        assert_eq!(a.audio_min_price_file_name, once_files);
    }
}

#[test]
fn run_config_defaults() {
    let c = ConfigRun::default();
    assert_eq!(c.config_file_name, "config-2.json");
    assert_eq!(c.launch_type, 2);
    let c = ConfigRun::resolve_loaded(None);
    assert_eq!(c.config_file_name, "config-2.json");
    assert_eq!(c.launch_type, 2);
    let c = ConfigRun::resolve_loaded(Some(ConfigRun { config_file_name: "config-1.json".into(), launch_type: 1 }));
    assert_eq!(c.config_file_name, "config-1.json");
    assert_eq!(c.launch_type, 1);
}
