use vstd::prelude::*;

use crate::keys::{is_letter_key, letter_key, Key, KeyPress};
use crate::options::{Options, OptionsView};
use crate::text::{concat_str, is_digit, on_off, push_char, spec_on_off, str_eq, views};
use crate::view_type::{spec_next_view, ViewType};

verus! {

/// What the monitor keeps between two price readings.
///
/// The previous price and the price statistics are floating-point numbers;
/// each is held as the bit pattern of its `f32` value (`f32::to_bits`).
pub struct MonitorState {
    pub is_first_output: bool,
    pub is_paused: bool,
    pub prev_value_bits: Option<u32>,
    pub total_perc_diff_bits: u32,
    pub min_price_reached_bits: u32,
    pub max_price_reached_bits: u32,
}

/// The state at the start of monitoring: nothing shown yet, not paused, no
/// previous price, and all statistics at zero.
pub open spec fn spec_fresh_state(s: MonitorState) -> bool {
    &&& s.is_first_output
    &&& !s.is_paused
    &&& s.prev_value_bits is None
    &&& s.total_perc_diff_bits == 0
    &&& s.min_price_reached_bits == 0
    &&& s.max_price_reached_bits == 0
}

impl MonitorState {
    /// The state at the start of monitoring.
    pub fn new() -> (s: MonitorState)
        ensures
            spec_fresh_state(s),
    {
        MonitorState {
            is_first_output: true,
            is_paused: false,
            prev_value_bits: None,
            total_perc_diff_bits: 0,
            min_price_reached_bits: 0,
            max_price_reached_bits: 0,
        }
    }
}

/// The key that the keyboard reader passes on to the monitor, if any: Esc, F1
/// and F2 as they are, and the letters P, C, R, S and V in lowercase; only
/// key presses count.
pub open spec fn spec_forwarded_key(ev: KeyPress) -> Option<Key> {
    if !ev.is_press {
        None
    } else {
        match ev.key {
            Key::Esc => Some(Key::Esc),
            Key::F(n) => if n == 1 || n == 2 { Some(Key::F(n)) } else { None },
            Key::Char(_) => if is_letter_key(ev.key, 'p') {
                Some(Key::Char('p'))
            } else if is_letter_key(ev.key, 'c') {
                Some(Key::Char('c'))
            } else if is_letter_key(ev.key, 'r') {
                Some(Key::Char('r'))
            } else if is_letter_key(ev.key, 's') {
                Some(Key::Char('s'))
            } else if is_letter_key(ev.key, 'v') {
                Some(Key::Char('v'))
            } else {
                None
            },
            _ => None,
        }
    }
}

/// The key that the keyboard reader passes on to the monitor, if any.
pub fn forwarded_key(ev: KeyPress) -> (r: Option<Key>)
    ensures
        r == spec_forwarded_key(ev),
{
    if !ev.is_press {
        return None;
    }
    match ev.key {
        Key::Esc => Some(Key::Esc),
        Key::F(n) => if n == 1 || n == 2 { Some(Key::F(n)) } else { None },
        Key::Char(_) => {
            if letter_key(ev.key, 'p') {
                Some(Key::Char('p'))
            } else if letter_key(ev.key, 'c') {
                Some(Key::Char('c'))
            } else if letter_key(ev.key, 'r') {
                Some(Key::Char('r'))
            } else if letter_key(ev.key, 's') {
                Some(Key::Char('s'))
            } else if letter_key(ev.key, 'v') {
                Some(Key::Char('v'))
            } else {
                None
            }
        },
        _ => None,
    }
}

/// What the monitor does after a key that it was passed.
#[derive(Debug, Clone, Copy, PartialEq, Eq, Structural)]
pub enum MonitorCommand {
    /// Esc: ask whether to stop monitoring.
    AskQuit,
    /// F1: show the list of keys.
    ShowCommands,
    /// F2: show the settings in use.
    ShowParameters,
    /// P: monitoring is now paused (`true`) or running again (`false`).
    PauseToggled(bool),
    /// C: clear the screen.
    ClearScreen,
    /// R: the statistics were reset.
    Reset,
    /// S: the alert sound was switched; the fixed view's sound line is drawn
    /// again when `redraw_line` holds.
    SoundToggled { redraw_line: bool },
    /// V: the view changed; the screen is cleared.
    ViewChanged,
    /// Any other key.
    Nothing,
}

/// What a key passed to the monitor does: the new state, the new settings
/// and the command.
pub open spec fn spec_monitor_key(s: MonitorState, o: OptionsView, key: Key) -> (MonitorState, OptionsView, MonitorCommand) {
    match key {
        Key::Esc => (s, o, MonitorCommand::AskQuit),
        Key::F(n) => if n == 1 {
            (MonitorState { is_first_output: true, ..s }, o, MonitorCommand::ShowCommands)
        } else if n == 2 {
            (MonitorState { is_first_output: true, ..s }, o, MonitorCommand::ShowParameters)
        } else {
            (s, o, MonitorCommand::Nothing)
        },
        Key::Char(c) => if c == 'p' {
            (MonitorState { is_paused: !s.is_paused, ..s }, o, MonitorCommand::PauseToggled(!s.is_paused))
        } else if c == 'c' {
            (s, o, MonitorCommand::ClearScreen)
        } else if c == 'r' {
            (MonitorState {
                is_first_output: true,
                is_paused: false,
                prev_value_bits: None,
                total_perc_diff_bits: 0,
                min_price_reached_bits: 0,
                max_price_reached_bits: 0,
            }, o, MonitorCommand::Reset)
        } else if c == 's' {
            (s, OptionsView { sound_enabled: !o.sound_enabled, ..o },
                MonitorCommand::SoundToggled { redraw_line: o.view_type == ViewType::FIXED })
        } else if c == 'v' {
            (MonitorState { is_first_output: true, ..s }, OptionsView { view_type: spec_next_view(o.view_type), ..o },
                MonitorCommand::ViewChanged)
        } else {
            (s, o, MonitorCommand::Nothing)
        },
        _ => (s, o, MonitorCommand::Nothing),
    }
}

impl MonitorState {
    /// Handles a key passed to the monitor: changes the state and the
    /// settings as the key does and says what the monitor does next.
    pub fn handle_key(&mut self, options: &mut Options, key: Key) -> (c: MonitorCommand)
        ensures
            (*final(self), final(options)@, c) == spec_monitor_key(*old(self), old(options)@, key),
    {
        match key {
            Key::Esc => MonitorCommand::AskQuit,
            Key::F(n) => {
                if n == 1 {
                    self.is_first_output = true;
                    MonitorCommand::ShowCommands
                } else if n == 2 {
                    self.is_first_output = true;
                    MonitorCommand::ShowParameters
                } else {
                    MonitorCommand::Nothing
                }
            },
            Key::Char(c) => {
                if c == 'p' {
                    self.is_paused = !self.is_paused;
                    MonitorCommand::PauseToggled(self.is_paused)
                } else if c == 'c' {
                    MonitorCommand::ClearScreen
                } else if c == 'r' {
                    *self = MonitorState::new();
                    MonitorCommand::Reset
                } else if c == 's' {
                    options.sound_enabled = !options.sound_enabled;
                    let redraw_line = match options.view_type {
                        ViewType::FIXED => true,
                        ViewType::SEQUENTIAL => false,
                    };
                    MonitorCommand::SoundToggled { redraw_line }
                } else if c == 'v' {
                    options.view_type = options.view_type.next();
                    self.is_first_output = true;
                    MonitorCommand::ViewChanged
                } else {
                    MonitorCommand::Nothing
                }
            },
            _ => MonitorCommand::Nothing,
        }
    }
}

/// The answer that a key gives to "stop monitoring? (s/n)": `S` yes, `N` no,
/// any other key no answer.
pub open spec fn spec_quit_answer(key: Key) -> Option<bool> {
    if is_letter_key(key, 's') {
        Some(true)
    } else if is_letter_key(key, 'n') {
        Some(false)
    } else {
        None
    }
}

/// The answer that a key gives to "stop monitoring? (s/n)".
pub fn quit_answer(key: Key) -> (r: Option<bool>)
    ensures
        r == spec_quit_answer(key),
{
    if letter_key(key, 's') {
        Some(true)
    } else if letter_key(key, 'n') {
        Some(false)
    } else {
        None
    }
}

/// What a character of the page's price text becomes: a comma becomes a
/// decimal point; digits, points and minus signs stay; everything else (the
/// no-break space, the dollar sign, letters) is dropped.
pub open spec fn spec_clean_char(c: char) -> Option<char> {
    if c == ',' {
        Some('.')
    } else if is_digit(c) || c == '.' || c == '-' {
        Some(c)
    } else {
        None
    }
}

/// The number text that the price text `s` reduces to.
pub open spec fn spec_clean_price(s: Seq<char>) -> Seq<char>
    decreases s.len(),
{
    if s.len() == 0 {
        s
    } else {
        let rest = spec_clean_price(s.drop_last());
        match spec_clean_char(s.last()) {
            Some(c) => rest.push(c),
            None => rest,
        }
    }
}

/// Reduces the price text read from the page to the characters of a number:
/// commas become points, and only digits, points and minus signs are kept.
pub fn clean_price_text(raw: &str) -> (r: String)
    ensures
        r@ == spec_clean_price(raw@),
{
    let mut r = String::new();
    let it = raw.chars();
    let ghost all = raw@;
    assert(all.take(0) =~= Seq::<char>::empty());
    for c in iter: it
        invariant
            all == raw@,
            iter.seq() == all,
            r@ == spec_clean_price(all.take(iter.index() as int)),
    {
        assert(all.take(iter.index() + 1).drop_last() =~= all.take(iter.index() as int));
        if c == ',' {
            push_char(&mut r, '.');
        } else if ('0' <= c && c <= '9') || c == '.' || c == '-' {
            push_char(&mut r, c);
        }
    }
    assert(all.take(all.len() as int) =~= all);
    r
}

/// Cleaning the price text a second time changes nothing.
pub proof fn lemma_clean_price_idempotent(s: Seq<char>)
    ensures
        spec_clean_price(spec_clean_price(s)) == spec_clean_price(s),
    decreases s.len(),
{
    if s.len() > 0 {
        lemma_clean_price_idempotent(s.drop_last());
        let rest = spec_clean_price(s.drop_last());
        match spec_clean_char(s.last()) {
            Some(c) => {
                assert(rest.push(c).drop_last() =~= rest);
            },
            None => {},
        }
    }
}

/// The cleaned price text holds only digits, points and minus signs, and is
/// no longer than the text read.
pub proof fn lemma_clean_price_charset(s: Seq<char>)
    ensures
        spec_clean_price(s).len() <= s.len(),
        forall|i: int| 0 <= i < spec_clean_price(s).len() ==> {
            let c = #[trigger] spec_clean_price(s)[i];
            is_digit(c) || c == '.' || c == '-'
        },
    decreases s.len(),
{
    if s.len() > 0 {
        lemma_clean_price_charset(s.drop_last());
    }
}

/// What looking up the `value` attribute among an element's attributes
/// (listed as name, value, name, value, ...) finds.
#[derive(Debug)]
pub enum ValueAttribute {
    /// The text after the first entry `value`.
    Found(String),
    /// An entry `value` is the last entry, with nothing after it.
    NoValue,
    /// No entry is `value`.
    Missing,
}

/// The first index of `value` among `attrs`, if any.
pub open spec fn spec_value_index(attrs: Seq<Seq<char>>) -> Option<int> {
    if exists|k: int| 0 <= k < attrs.len() && attrs[k] == "value"@ {
        Some(choose|k: int| 0 <= k < attrs.len() && attrs[k] == "value"@ && forall|j: int| 0 <= j < k ==> attrs[j] != "value"@)
    } else {
        None
    }
}

/// Looks up the text of the `value` attribute: the entry after the first
/// entry `value`.
pub fn value_attribute(attrs: &Vec<String>) -> (r: ValueAttribute)
    ensures
        match spec_value_index(views(attrs@)) {
            Some(k) => if k + 1 < attrs.len() {
                r matches ValueAttribute::Found(v) && v@ == attrs@[k + 1]@
            } else {
                r == ValueAttribute::NoValue
            },
            None => r == ValueAttribute::Missing,
        },
{
    let ghost v = views(attrs@);
    let mut i: usize = 0;
    while i < attrs.len()
        invariant
            i <= attrs.len(),
            v == views(attrs@),
            forall|j: int| 0 <= j < i ==> v[j] != "value"@,
        decreases attrs.len() - i,
    {
        assert(v[i as int] == attrs@[i as int]@);
        if str_eq(attrs[i].as_str(), "value") {
            proof {
                assert(0 <= i < v.len() && v[i as int] == "value"@);
                let c = choose|k: int| 0 <= k < v.len() && v[k] == "value"@ && forall|j: int| 0 <= j < k ==> v[j] != "value"@;
                if c < i {
                    assert(v[c] != "value"@);
                } else if c > i {
                    assert(v[i as int] != "value"@);
                }
            }
            if i + 1 < attrs.len() {
                return ValueAttribute::Found(attrs[i + 1].clone());
            } else {
                return ValueAttribute::NoValue;
            }
        }
        i = i + 1;
    }
    ValueAttribute::Missing
}

/// The script that reads the trimmed text of the element that `selector`
/// selects, or the empty string when there is none.
pub open spec fn spec_output_text_script(selector: Seq<char>) -> Seq<char> {
    "\n              (() => {\n                const el = document.querySelector(\""@ + selector
        + "\");\n                if (!el) return \"\";\n                const txt = el.innerText.trim();\n                return txt;\n              })()\n            "@
}

/// The script that reads the trimmed text of the element that `selector`
/// selects.
pub fn output_text_script(selector: &str) -> (r: String)
    ensures
        r@ == spec_output_text_script(selector@),
{
    let mut r = concat_str("\n              (() => {\n                const el = document.querySelector(\"", selector);
    r.append("\");\n                if (!el) return \"\";\n                const txt = el.innerText.trim();\n                return txt;\n              })()\n            ");
    r
}

/// The fixed view's line that tells the sound setting.
pub open spec fn spec_sound_hint_line(sound_enabled: bool) -> Seq<char> {
    "(F1: visualizza comandi, Suono: "@ + spec_on_off(sound_enabled) + ")\r\n"@
}

/// The fixed view's line that tells the sound setting.
pub fn sound_hint_line(sound_enabled: bool) -> (r: String)
    ensures
        r@ == spec_sound_hint_line(sound_enabled),
{
    let mut r = concat_str("(F1: visualizza comandi, Suono: ", on_off(sound_enabled));
    r.append(")\r\n");
    r
}

/// The lines of the monitor's list of keys.
pub open spec fn spec_monitor_command_lines() -> Seq<Seq<char>> {
    seq![
        " F2: parametri impostati"@,
        "  S: suono On/Off"@,
        "  P: pausa/riprendi"@,
        "  C: pulisci schermata"@,
        "  R: resetta valori"@,
        "  V: cambia visualizzazione"@,
        "ESC: interrompi"@,
        ""@,
        " F1: indietro/comandi"@,
    ]
}

/// The lines of the monitor's list of keys.
pub fn monitor_command_lines() -> (r: Vec<&'static str>)
    ensures
        r@.map_values(|s: &str| s@) == spec_monitor_command_lines(),
{
    let r = vec![
        " F2: parametri impostati",
        "  S: suono On/Off",
        "  P: pausa/riprendi",
        "  C: pulisci schermata",
        "  R: resetta valori",
        "  V: cambia visualizzazione",
        "ESC: interrompi",
        "",
        " F1: indietro/comandi",
    ];
    assert(r@.map_values(|s: &str| s@) =~= spec_monitor_command_lines());
    r
}

/// Reset gives the same state as starting afresh, whatever the state was.
pub proof fn lemma_reset_is_fresh(s: MonitorState, o: OptionsView)
    ensures
        spec_fresh_state(spec_monitor_key(s, o, Key::Char('r')).0),
        spec_monitor_key(s, o, Key::Char('r')).1 == o,
{
}

/// Pausing twice, switching the sound twice, or changing the view twice
/// comes back to the same settings and pause state.
pub proof fn lemma_monitor_toggles_twice(s: MonitorState, o: OptionsView)
    ensures
        ({
            let p1 = spec_monitor_key(s, o, Key::Char('p'));
            let p2 = spec_monitor_key(p1.0, p1.1, Key::Char('p'));
            p2.0 == s && p2.1 == o
        }),
        ({
            let s1 = spec_monitor_key(s, o, Key::Char('s'));
            let s2 = spec_monitor_key(s1.0, s1.1, Key::Char('s'));
            s2.0 == s && s2.1 == o
        }),
        ({
            let v1 = spec_monitor_key(s, o, Key::Char('v'));
            let v2 = spec_monitor_key(v1.0, v1.1, Key::Char('v'));
            v2.1 == o && v2.0.is_first_output
        }),
{
    let s1 = spec_monitor_key(s, o, Key::Char('s'));
    assert(spec_monitor_key(s1.0, s1.1, Key::Char('s')).1 =~= o);
    let v1 = spec_monitor_key(s, o, Key::Char('v'));
    assert(spec_monitor_key(v1.0, v1.1, Key::Char('v')).1 =~= o);
}

/// C only clears the screen: the monitor state and the settings stay
/// exactly as they were.
pub proof fn lemma_clear_keeps_everything(s: MonitorState, o: OptionsView)
    ensures
        spec_monitor_key(s, o, Key::Char('c')) == (s, o, MonitorCommand::ClearScreen),
{
}

/// Only R touches the previous price and the price statistics: every other
/// key keeps them.
pub proof fn lemma_only_reset_clears_statistics(s: MonitorState, o: OptionsView, key: Key)
    requires
        key != Key::Char('r'),
    ensures
        ({
            let t = spec_monitor_key(s, o, key).0;
            &&& t.prev_value_bits == s.prev_value_bits
            &&& t.total_perc_diff_bits == s.total_perc_diff_bits
            &&& t.min_price_reached_bits == s.min_price_reached_bits
            &&& t.max_price_reached_bits == s.max_price_reached_bits
        }),
{
}

/// Cleaning works character by character: the cleaned text of two pieces
/// put together is the two cleaned texts put together.
pub proof fn lemma_clean_price_concat(a: Seq<char>, b: Seq<char>)
    ensures
        spec_clean_price(a + b) == spec_clean_price(a) + spec_clean_price(b),
    decreases b.len(),
{
    if b.len() == 0 {
        assert(a + b =~= a);
        assert(spec_clean_price(b) =~= Seq::<char>::empty());
        assert(spec_clean_price(a) + spec_clean_price(b) =~= spec_clean_price(a));
    } else {
        lemma_clean_price_concat(a, b.drop_last());
        assert((a + b).drop_last() =~= a + b.drop_last());
        assert((a + b).last() == b.last());
        let ra = spec_clean_price(a);
        let rb = spec_clean_price(b.drop_last());
        match spec_clean_char(b.last()) {
            Some(c) => {
                assert((ra + rb).push(c) =~= ra + rb.push(c));
            },
            None => {},
        }
    }
}

/// What cleaning does to one character: an ASCII digit, a point or a minus
/// sign is kept, a comma becomes a point, anything else is dropped.
pub proof fn lemma_clean_price_char(c: char)
    ensures
        ('0' <= c <= '9' || c == '.' || c == '-') ==> spec_clean_price(seq![c]) == seq![c],
        c == ',' ==> spec_clean_price(seq![c]) == seq!['.'],
        !('0' <= c <= '9' || c == '.' || c == '-' || c == ',') ==> spec_clean_price(seq![c]).len() == 0,
{
    assert(seq![c].drop_last() =~= Seq::<char>::empty());
    assert(spec_clean_price(Seq::<char>::empty()) == Seq::<char>::empty());
    assert(seq![c].last() == c);
    assert(Seq::<char>::empty().push(c) =~= seq![c]);
    assert(Seq::<char>::empty().push('.') =~= seq!['.']);
}

/// A price text of ASCII digits, points and minus signs is kept whole.
pub proof fn lemma_clean_price_keeps_number(s: Seq<char>)
    requires
        forall|i: int| 0 <= i < s.len() ==> ('0' <= #[trigger] s[i] <= '9' || s[i] == '.' || s[i] == '-'),
    ensures
        spec_clean_price(s) == s,
    decreases s.len(),
{
    if s.len() > 0 {
        lemma_clean_price_keeps_number(s.drop_last());
        assert(s.drop_last().push(s.last()) =~= s);
    }
}

} // verus!
