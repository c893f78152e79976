use price_monitor::keys::{Key, KeyPress};
use price_monitor::monitor::{
    clean_price_text, forwarded_key, monitor_command_lines, output_text_script, quit_answer,
    sound_hint_line, value_attribute, MonitorCommand, MonitorState, ValueAttribute,
};
use price_monitor::options::{Options, Platform};
use price_monitor::view_type::ViewType;

fn press(key: Key) -> KeyPress {
    KeyPress { key, is_press: true }
}

#[test]
fn fresh_state() {
    let s = MonitorState::new();
    assert!(s.is_first_output);
    assert!(!s.is_paused);
    assert_eq!(s.prev_value_bits, None);
    assert_eq!(f32::from_bits(s.total_perc_diff_bits), 0.0);
    assert_eq!(f32::from_bits(s.min_price_reached_bits), 0.0);
    assert_eq!(f32::from_bits(s.max_price_reached_bits), 0.0);
}

#[test]
fn keys_passed_to_the_monitor() {
    assert_eq!(forwarded_key(press(Key::Esc)), Some(Key::Esc));
    assert_eq!(forwarded_key(press(Key::F(1))), Some(Key::F(1)));
    assert_eq!(forwarded_key(press(Key::F(2))), Some(Key::F(2)));
    assert_eq!(forwarded_key(press(Key::F(3))), None);
    assert_eq!(forwarded_key(press(Key::Char('P'))), Some(Key::Char('p')));
    for c in ['p', 'c', 'r', 's', 'v'] {
        assert_eq!(forwarded_key(press(Key::Char(c))), Some(Key::Char(c)));
        assert_eq!(forwarded_key(press(Key::Char(c.to_ascii_uppercase()))), Some(Key::Char(c)));
    }
    assert_eq!(forwarded_key(press(Key::Char('x'))), None);
    assert_eq!(forwarded_key(press(Key::Enter)), None);
    assert_eq!(forwarded_key(KeyPress { key: Key::Esc, is_press: false }), None);
}

#[test]
fn monitor_key_effects() {
    let mut o = Options::defaults(Platform::Other);
    let mut s = MonitorState::new();
    s.is_first_output = false;
    assert_eq!(s.handle_key(&mut o, Key::Esc), MonitorCommand::AskQuit);
    assert_eq!(s.handle_key(&mut o, Key::F(1)), MonitorCommand::ShowCommands);
    assert!(s.is_first_output);
    s.is_first_output = false;
    assert_eq!(s.handle_key(&mut o, Key::F(2)), MonitorCommand::ShowParameters);
    assert!(s.is_first_output);
    assert_eq!(s.handle_key(&mut o, Key::Char('p')), MonitorCommand::PauseToggled(true));
    assert!(s.is_paused);
    assert_eq!(s.handle_key(&mut o, Key::Char('p')), MonitorCommand::PauseToggled(false));
    assert!(!s.is_paused);
    assert_eq!(s.handle_key(&mut o, Key::Char('c')), MonitorCommand::ClearScreen);
    assert_eq!(s.handle_key(&mut o, Key::Char('s')), MonitorCommand::SoundToggled { redraw_line: true });
    assert!(!o.sound_enabled);
    assert_eq!(s.handle_key(&mut o, Key::Char('v')), MonitorCommand::ViewChanged);
    assert_eq!(o.view_type, ViewType::SEQUENTIAL);
    assert_eq!(s.handle_key(&mut o, Key::Char('s')), MonitorCommand::SoundToggled { redraw_line: false });
    assert!(o.sound_enabled);
    s.prev_value_bits = Some(3.0f32.to_bits());
    s.is_paused = true;
    assert_eq!(s.handle_key(&mut o, Key::Char('r')), MonitorCommand::Reset);
    assert_eq!(s.prev_value_bits, None);
    assert!(!s.is_paused);
    assert!(s.is_first_output);
    assert_eq!(s.handle_key(&mut o, Key::Char('x')), MonitorCommand::Nothing);
    assert_eq!(s.handle_key(&mut o, Key::F(3)), MonitorCommand::Nothing);
}

#[test]
fn quit_answers() {
    assert_eq!(quit_answer(Key::Char('s')), Some(true));
    assert_eq!(quit_answer(Key::Char('S')), Some(true));
    assert_eq!(quit_answer(Key::Char('n')), Some(false));
    assert_eq!(quit_answer(Key::Char('N')), Some(false));
    assert_eq!(quit_answer(Key::Char('y')), None);
    assert_eq!(quit_answer(Key::Enter), None);
}

#[test]
fn price_text_cleaning() {
    assert_eq!(clean_price_text("1,234"), "1.234");
    assert_eq!(clean_price_text("$ 172.45"), "172.45");
    assert_eq!(clean_price_text("1\u{00A0}234,5 USDC"), "1234.5");
    assert_eq!(clean_price_text("-0,5%"), "-0.5");
    assert_eq!(clean_price_text("abc"), "");
    assert_eq!(clean_price_text(""), "");
    assert_eq!(clean_price_text("١٢٣"), "");
    let once = clean_price_text("$1,5 €");
    assert_eq!(clean_price_text(&once), once);
}

#[test]
fn value_attribute_lookup() {
    let v = |xs: &[&str]| xs.iter().map(|s| s.to_string()).collect::<Vec<String>>();
    match value_attribute(&v(&["name", "toValue", "value", "172,3"])) {
        ValueAttribute::Found(s) => assert_eq!(s, "172,3"),
        other => panic!("{other:?}"),
    }
    match value_attribute(&v(&["value", "1", "value", "2"])) {
        ValueAttribute::Found(s) => assert_eq!(s, "1"),
        other => panic!("{other:?}"),
    }
    assert!(matches!(value_attribute(&v(&["name", "value"])), ValueAttribute::NoValue));
    assert!(matches!(value_attribute(&v(&["name", "x"])), ValueAttribute::Missing));
    assert!(matches!(value_attribute(&v(&[])), ValueAttribute::Missing));
}

#[test]
fn monitor_texts() {
    let script = output_text_script("span.price");
    let expected = format!(
        r#"
              (() => {{
                const el = document.querySelector("{sel}");
                if (!el) return "";
                const txt = el.innerText.trim();
                return txt;
              }})()
            "#,
        sel = "span.price"
    );
    assert_eq!(script, expected);
    assert_eq!(sound_hint_line(true), "(F1: visualizza comandi, Suono: On)\r\n");
    assert_eq!(sound_hint_line(false), "(F1: visualizza comandi, Suono: Off)\r\n");
    let lines = monitor_command_lines();
    assert_eq!(lines.len(), 9);
    assert_eq!(lines[0], " F2: parametri impostati");
    assert_eq!(lines[7], "");
    assert_eq!(lines[8], " F1: indietro/comandi");
}
