use price_monitor::audio::AudioKind;
use price_monitor::keys::{Key, KeyPress};
use price_monitor::menu::{
    apply_text_answer, audio_menu_items, audio_row_text, initial_token_selection, main_menu_items,
    menu_step, monitoring_menu_items, options_menu_items, prompt_text, set_price_bits,
    token_menu_items, MenuAction, MenuScreen, PromptField,
};
use price_monitor::options::{Options, Platform};
use price_monitor::view_type::ViewType;

fn press(key: Key) -> KeyPress {
    KeyPress { key, is_press: true }
}

fn opts() -> Options {
    Options::defaults(Platform::Other)
}

#[test]
fn main_menu_navigation_and_choices() {
    let items = main_menu_items();
    assert_eq!(items, vec!["Avvia", "Opzioni", "ESCI"]);
    let mut o = opts();
    let mut sel = 0usize;
    assert_eq!(menu_step(MenuScreen::Main, &items, &mut sel, &mut o, press(Key::Up), Platform::Other), MenuAction::Nothing);
    assert_eq!(sel, 0);
    assert_eq!(menu_step(MenuScreen::Main, &items, &mut sel, &mut o, press(Key::Down), Platform::Other), MenuAction::Moved { old: 0, new: 1 });
    assert_eq!(sel, 1);
    assert_eq!(menu_step(MenuScreen::Main, &items, &mut sel, &mut o, press(Key::Enter), Platform::Other), MenuAction::OpenOptions);
    assert_eq!(menu_step(MenuScreen::Main, &items, &mut sel, &mut o, press(Key::Down), Platform::Other), MenuAction::Moved { old: 1, new: 2 });
    assert_eq!(menu_step(MenuScreen::Main, &items, &mut sel, &mut o, press(Key::Down), Platform::Other), MenuAction::Nothing);
    assert_eq!(sel, 2);
    assert_eq!(menu_step(MenuScreen::Main, &items, &mut sel, &mut o, press(Key::Enter), Platform::Other), MenuAction::Back { click: true });
    sel = 0;
    assert_eq!(menu_step(MenuScreen::Main, &items, &mut sel, &mut o, press(Key::Enter), Platform::Other), MenuAction::Launch);
    assert_eq!(menu_step(MenuScreen::Main, &items, &mut sel, &mut o, press(Key::Esc), Platform::Other), MenuAction::Back { click: false });
}

#[test]
fn key_releases_are_ignored() {
    let items = main_menu_items();
    let mut o = opts();
    let mut sel = 1usize;
    let ev = KeyPress { key: Key::Down, is_press: false };
    assert_eq!(menu_step(MenuScreen::Main, &items, &mut sel, &mut o, ev, Platform::Other), MenuAction::Ignore);
    assert_eq!(sel, 1);
}

#[test]
fn sound_key_twice_restores_menu_sound() {
    let items = options_menu_items();
    let mut o = opts();
    let mut sel = 0usize;
    for c in ['s', 'S'] {
        let before = o.menu_sound_enabled;
        assert_eq!(menu_step(MenuScreen::Options, &items, &mut sel, &mut o, press(Key::Char(c)), Platform::Other), MenuAction::ToggledMenuSound);
        assert_eq!(o.menu_sound_enabled, !before);
    }
    assert!(o.menu_sound_enabled);
}

#[test]
fn up_then_down_returns() {
    let items = options_menu_items();
    let mut o = opts();
    let mut sel = 1usize;
    menu_step(MenuScreen::Options, &items, &mut sel, &mut o, press(Key::Up), Platform::Other);
    assert_eq!(sel, 0);
    menu_step(MenuScreen::Options, &items, &mut sel, &mut o, press(Key::Down), Platform::Other);
    assert_eq!(sel, 1);
}

#[test]
fn options_menu_choices() {
    let items = options_menu_items();
    assert_eq!(items, vec!["Audio", "Monitoraggio", "INDIETRO"]);
    let mut o = opts();
    for (i, want) in [(0usize, MenuAction::OpenAudio), (1, MenuAction::OpenMonitoring), (2, MenuAction::Back { click: true })] {
        let mut sel = i;
        assert_eq!(menu_step(MenuScreen::Options, &items, &mut sel, &mut o, press(Key::Enter), Platform::Other), want);
    }
    let mut sel = 0usize;
    assert_eq!(menu_step(MenuScreen::Options, &items, &mut sel, &mut o, press(Key::Char('d')), Platform::Other), MenuAction::Nothing);
    assert_eq!(menu_step(MenuScreen::Options, &items, &mut sel, &mut o, press(Key::Char('r')), Platform::Other), MenuAction::Nothing);
}

#[test]
fn audio_menu_rows() {
    let mut o = opts();
    let items = audio_menu_items(&o);
    assert_eq!(items, vec![
        "Abilita suono: Si",
        "Audio prezzo minimo raggiunto: fail_5.wav",
        "Audio prezzo massimo raggiunto: win_4.wav",
        "Audio percentuale ribasso toccata: fail_7.wav",
        "Audio percentuale rialzo toccata: win_1.wav",
        "INDIETRO",
    ]);
    let mut sel = 0usize;
    assert_eq!(menu_step(MenuScreen::Audio, &items, &mut sel, &mut o, press(Key::Enter), Platform::Other), MenuAction::SettingToggled);
    assert!(!o.sound_enabled);
    assert_eq!(audio_row_text(&o, 0), "Abilita suono: No");
    assert_eq!(audio_row_text(&o, 4), "Audio percentuale rialzo raggiunta: win_1.wav");
    for (i, k) in [(1usize, AudioKind::Min), (2, AudioKind::Max), (3, AudioKind::DownPerc), (4, AudioKind::UpPerc)] {
        let mut sel = i;
        assert_eq!(menu_step(MenuScreen::Audio, &items, &mut sel, &mut o, press(Key::Enter), Platform::Other), MenuAction::PickAudioFile(k));
    }
    o.audio_min_price_file_name = "x.wav".to_string();
    let mut sel = 2usize;
    assert_eq!(menu_step(MenuScreen::Audio, &items, &mut sel, &mut o, press(Key::Char('D')), Platform::Other), MenuAction::DefaultsRestored);
    assert!(o.sound_enabled);
    assert_eq!(o.audio_min_price_file_name, "fail_5.wav");
    let mut sel = 5usize;
    assert_eq!(menu_step(MenuScreen::Audio, &items, &mut sel, &mut o, press(Key::Enter), Platform::Other), MenuAction::Back { click: true });
}

#[test]
fn monitoring_menu_rows() {
    let mut o = opts();
    let items = monitoring_menu_items(&o, "SOL", "0", "0", "0", "0");
    assert_eq!(items, vec![
        "Percorso Chrome o Chromium: /usr/bin/google-chrome",
        "Visualizzazione: Fissa",
        "Intervallo di monitoraggio (s): 1",
        "Abilita logs: Si",
        "Interrompi a prezzo minimo o massimo: Si",
        "Token: SOL",
        "Quantità: 1",
        "Prezzo minimo: 0",
        "Prezzo massimo: 0",
        "Ribasso %: 0",
        "Rialzo %: 0",
        "INDIETRO",
    ]);
    let expected = [
        (0usize, MenuAction::Prompt(PromptField::ChromePath)),
        (2, MenuAction::Prompt(PromptField::Interval)),
        (5, MenuAction::PickToken),
        (6, MenuAction::Prompt(PromptField::Quantity)),
        (7, MenuAction::Prompt(PromptField::MinPrice)),
        (8, MenuAction::Prompt(PromptField::MaxPrice)),
        (9, MenuAction::Prompt(PromptField::DownPerc)),
        (10, MenuAction::Prompt(PromptField::UpPerc)),
        (11, MenuAction::Back { click: true }),
    ];
    for (i, want) in expected {
        let mut sel = i;
        assert_eq!(menu_step(MenuScreen::Monitoring, &items, &mut sel, &mut o, press(Key::Enter), Platform::Other), want);
    }
    let mut sel = 1usize;
    assert_eq!(menu_step(MenuScreen::Monitoring, &items, &mut sel, &mut o, press(Key::Enter), Platform::Other), MenuAction::SettingToggled);
    assert_eq!(o.view_type, ViewType::SEQUENTIAL);
    let mut sel = 3usize;
    menu_step(MenuScreen::Monitoring, &items, &mut sel, &mut o, press(Key::Enter), Platform::Other);
    assert!(!o.logs_enabled);
    let mut sel = 4usize;
    menu_step(MenuScreen::Monitoring, &items, &mut sel, &mut o, press(Key::Enter), Platform::Other);
    assert!(!o.stop_when_price_reached);
    let items = monitoring_menu_items(&o, "BTC", "1.5", "2", "0.5", "3");
    assert_eq!(items[1], "Visualizzazione: Fissa".replace("Fissa", "Sequenziale"));
    assert_eq!(items[3], "Abilita logs: No");
    assert_eq!(items[4], "Interrompi a prezzo minimo o massimo: No");
    assert_eq!(items[5], "Token: BTC");
    assert_eq!(items[7], "Prezzo minimo: 1.5");
    o.token_id = "BTC".to_string();
    let mut sel = 0usize;
    assert_eq!(menu_step(MenuScreen::Monitoring, &items, &mut sel, &mut o, press(Key::Char('d')), Platform::Other), MenuAction::DefaultsRestored);
    assert_eq!(o.view_type, ViewType::FIXED);
    assert!(o.logs_enabled);
    assert_eq!(o.token_id, "SOL");
}

#[test]
fn token_chooser() {
    let ids = vec!["bonk".to_string(), "btc".to_string(), "sol".to_string()];
    let items = token_menu_items(&ids);
    assert_eq!(items, vec!["bonk", "btc", "sol", "INDIETRO"]);
    assert_eq!(initial_token_selection(&ids, "btc"), 1);
    assert_eq!(initial_token_selection(&ids, "eth"), 0);
    let mut o = opts();
    o.token_id = "btc".to_string();
    let mut sel = initial_token_selection(&ids, "btc");
    assert_eq!(menu_step(MenuScreen::Token, &items, &mut sel, &mut o, press(Key::Enter), Platform::Other), MenuAction::Chosen);
    assert_eq!(o.token_id, "btc");
    let mut sel = 2usize;
    menu_step(MenuScreen::Token, &items, &mut sel, &mut o, press(Key::Enter), Platform::Other);
    assert_eq!(o.token_id, "sol");
    let mut sel = 3usize;
    assert_eq!(menu_step(MenuScreen::Token, &items, &mut sel, &mut o, press(Key::Enter), Platform::Other), MenuAction::Back { click: true });
    assert_eq!(o.token_id, "sol");
}

#[test]
fn audio_file_chooser() {
    let items = vec!["(nessuno)".to_string(), "a.wav".to_string(), "b.wav".to_string(), "INDIETRO".to_string()];
    let mut o = opts();
    let mut sel = 2usize;
    assert_eq!(menu_step(MenuScreen::AudioFile(AudioKind::Max), &items, &mut sel, &mut o, press(Key::Char('R')), Platform::Other), MenuAction::Preview);
    assert_eq!(menu_step(MenuScreen::AudioFile(AudioKind::Max), &items, &mut sel, &mut o, press(Key::Enter), Platform::Other), MenuAction::Chosen);
    assert_eq!(o.audio_max_price_file_name, "b.wav");
    let mut sel = 0usize;
    menu_step(MenuScreen::AudioFile(AudioKind::DownPerc), &items, &mut sel, &mut o, press(Key::Enter), Platform::Other);
    assert_eq!(o.audio_down_price_file_name, "");
    let mut sel = 3usize;
    assert_eq!(menu_step(MenuScreen::AudioFile(AudioKind::Min), &items, &mut sel, &mut o, press(Key::Enter), Platform::Other), MenuAction::Back { click: true });
    assert_eq!(o.audio_min_price_file_name, "fail_5.wav");
}

#[test]
fn typed_answers() {
    let mut o = opts();
    assert!(apply_text_answer(&mut o, PromptField::ChromePath, "/opt/chromium"));
    assert_eq!(o.chrome_path, "/opt/chromium");
    assert!(apply_text_answer(&mut o, PromptField::Interval, "15"));
    assert_eq!(o.monitoring_interval_secs, 15);
    assert!(!apply_text_answer(&mut o, PromptField::Interval, "quindici"));
    assert_eq!(o.monitoring_interval_secs, 15);
    assert!(apply_text_answer(&mut o, PromptField::Quantity, "+3"));
    assert_eq!(o.token_quantity, 3);
    assert!(!apply_text_answer(&mut o, PromptField::Quantity, "4294967296"));
    assert_eq!(o.token_quantity, 3);
    assert!(!apply_text_answer(&mut o, PromptField::MinPrice, "1.5"));
    assert_eq!(o.min_price_bits, 0);
    assert!(set_price_bits(&mut o, PromptField::MinPrice, 1.5f32.to_bits()));
    assert_eq!(f32::from_bits(o.min_price_bits), 1.5);
    assert!(set_price_bits(&mut o, PromptField::UpPerc, 2.0f32.to_bits()));
    assert_eq!(f32::from_bits(o.up_price_perc_bits), 2.0);
    assert!(!set_price_bits(&mut o, PromptField::Quantity, 7));
    assert_eq!(o.token_quantity, 3);
    assert_eq!(prompt_text(PromptField::ChromePath), "Inserisci percorso: ");
    assert_eq!(prompt_text(PromptField::Quantity), "Inserisci quantità: ");
    assert_eq!(prompt_text(PromptField::UpPerc), "Inserisci rialzo %: ");
}
