use vstd::prelude::*;

use crate::options::{Options, OptionsView};
use crate::text::{chars_of, concat_str, owned, str_eq, views};

verus! {

/// The four price alerts that can each have a sound file.
#[derive(Debug, Clone, Copy, PartialEq, Eq, Structural)]
pub enum AudioKind {
    /// The price fell below the minimum price.
    Min,
    /// The price rose above the maximum price.
    Max,
    /// The price fell by the configured percentage.
    DownPerc,
    /// The price rose by the configured percentage.
    UpPerc,
}

/// Whether the alert's sound files live in the folder of falling-price
/// sounds (`min`) rather than rising-price sounds (`max`).
pub open spec fn is_falling(kind: AudioKind) -> bool {
    kind == AudioKind::Min || kind == AudioKind::DownPerc
}

/// The folder that the file chooser lists for an alert.
pub open spec fn spec_audio_dir(kind: AudioKind) -> Seq<char> {
    if is_falling(kind) {
        "audio/monitor/min"@
    } else {
        "audio/monitor/max"@
    }
}

/// The sound file name that the settings give an alert.
pub open spec fn spec_audio_file(o: OptionsView, kind: AudioKind) -> Seq<char> {
    match kind {
        AudioKind::Min => o.audio_min_price_file_name,
        AudioKind::Max => o.audio_max_price_file_name,
        AudioKind::DownPerc => o.audio_down_price_file_name,
        AudioKind::UpPerc => o.audio_up_price_file_name,
    }
}

/// The settings `o` with the sound file of an alert set to `name`.
pub open spec fn spec_set_audio_file(o: OptionsView, kind: AudioKind, name: Seq<char>) -> OptionsView {
    match kind {
        AudioKind::Min => OptionsView { audio_min_price_file_name: name, ..o },
        AudioKind::Max => OptionsView { audio_max_price_file_name: name, ..o },
        AudioKind::DownPerc => OptionsView { audio_down_price_file_name: name, ..o },
        AudioKind::UpPerc => OptionsView { audio_up_price_file_name: name, ..o },
    }
}

/// The two kinds of sound the program plays: price alerts and menu clicks,
/// each switched on and off by a setting of its own.
#[derive(Debug, Clone, Copy, PartialEq, Eq, Structural)]
pub enum SoundChannel {
    /// Price alerts, switched by `sound_enabled`.
    Alert,
    /// Menu moves and clicks, switched by `menu_sound_enabled`.
    Menu,
}

/// Whether a sound of `channel` is played: its setting is on and the sound
/// was loaded.
pub open spec fn spec_sound_plays(o: OptionsView, channel: SoundChannel, loaded: bool) -> bool {
    loaded && match channel {
        SoundChannel::Alert => o.sound_enabled,
        SoundChannel::Menu => o.menu_sound_enabled,
    }
}

/// Whether a sound of `channel` is played, given whether it was loaded.
pub fn sound_plays(o: &Options, channel: SoundChannel, loaded: bool) -> (r: bool)
    ensures
        r == spec_sound_plays(o@, channel, loaded),
{
    let enabled = match channel {
        SoundChannel::Alert => o.sound_enabled,
        SoundChannel::Menu => o.menu_sound_enabled,
    };
    enabled && loaded
}

/// The folder that the file chooser lists for an alert.
pub fn audio_dir(kind: AudioKind) -> (r: &'static str)
    ensures
        r@ == spec_audio_dir(kind),
{
    match kind {
        AudioKind::Min | AudioKind::DownPerc => "audio/monitor/min",
        _ => "audio/monitor/max",
    }
}

/// The file that the chooser plays for entry `name` of an alert's folder.
pub fn audio_preview_path(kind: AudioKind, name: &str) -> (r: String)
    ensures
        r@ == spec_audio_dir(kind) + "/"@ + name@,
{
    let mut r = concat_str(audio_dir(kind), "/");
    r.append(name);
    r
}

/// The sound file name that the settings give an alert.
pub fn audio_file<'a>(options: &'a Options, kind: AudioKind) -> (r: &'a String)
    ensures
        r@ == spec_audio_file(options@, kind),
{
    match kind {
        AudioKind::Min => &options.audio_min_price_file_name,
        AudioKind::Max => &options.audio_max_price_file_name,
        AudioKind::DownPerc => &options.audio_down_price_file_name,
        AudioKind::UpPerc => &options.audio_up_price_file_name,
    }
}

/// Sets the sound file of an alert.
pub fn set_audio_file(options: &mut Options, kind: AudioKind, name: String)
    ensures
        final(options)@ == spec_set_audio_file(old(options)@, kind, name@),
{
    match kind {
        AudioKind::Min => options.audio_min_price_file_name = name,
        AudioKind::Max => options.audio_max_price_file_name = name,
        AudioKind::DownPerc => options.audio_down_price_file_name = name,
        AudioKind::UpPerc => options.audio_up_price_file_name = name,
    }
}

/// Whether `path::Path::extension` of a file called `name` is `wav`: the name
/// ends in `.wav` and has at least one character before that dot.
pub open spec fn is_wav_name(name: Seq<char>) -> bool {
    name.len() > 4 && name.subrange(name.len() - 4, name.len() as int) == ".wav"@
}

/// The names in `s` that are `.wav` files, in order.
pub open spec fn keep_wav(s: Seq<Seq<char>>) -> Seq<Seq<char>>
    decreases s.len(),
{
    if s.len() == 0 {
        s
    } else {
        let rest = keep_wav(s.drop_last());
        if is_wav_name(s.last()) {
            rest.push(s.last())
        } else {
            rest
        }
    }
}

/// Filtering works name by name: the `.wav` files of two lists put
/// together are those of the first list followed by those of the second.
pub proof fn lemma_keep_wav_concat(a: Seq<Seq<char>>, b: Seq<Seq<char>>)
    ensures
        keep_wav(a + b) == keep_wav(a) + keep_wav(b),
    decreases b.len(),
{
    if b.len() == 0 {
        assert(a + b =~= a);
        assert(keep_wav(a) + keep_wav(b) =~= keep_wav(a));
    } else {
        lemma_keep_wav_concat(a, b.drop_last());
        assert((a + b).drop_last() =~= a + b.drop_last());
        assert((a + b).last() == b.last());
        let ra = keep_wav(a);
        let rb = keep_wav(b.drop_last());
        if is_wav_name(b.last()) {
            assert((ra + rb).push(b.last()) =~= ra + rb.push(b.last()));
        }
    }
}

/// A single name is kept exactly when it is a `.wav` file name.
pub proof fn lemma_keep_wav_single(name: Seq<char>)
    ensures
        keep_wav(seq![name]) == (if name.len() > 4 && name.subrange(name.len() - 4, name.len() as int) == ".wav"@ {
            seq![name]
        } else {
            Seq::<Seq<char>>::empty()
        }),
{
    assert(seq![name].drop_last() =~= Seq::<Seq<char>>::empty());
    assert(keep_wav(Seq::<Seq<char>>::empty()) == Seq::<Seq<char>>::empty());
    assert(seq![name].last() == name);
    assert(Seq::<Seq<char>>::empty().push(name) =~= seq![name]);
}

/// A list of `.wav` file names is kept whole, in its order.
pub proof fn lemma_keep_wav_all(s: Seq<Seq<char>>)
    requires
        forall|i: int| 0 <= i < s.len() ==> is_wav_name(#[trigger] s[i]),
    ensures
        keep_wav(s) == s,
    decreases s.len(),
{
    if s.len() > 0 {
        lemma_keep_wav_all(s.drop_last());
        assert(s.drop_last().push(s.last()) =~= s);
    }
}

/// Every name kept is a `.wav` file name.
pub proof fn lemma_keep_wav_only_wav(s: Seq<Seq<char>>)
    ensures
        forall|i: int| 0 <= i < keep_wav(s).len() ==> is_wav_name(#[trigger] keep_wav(s)[i]),
    decreases s.len(),
{
    if s.len() > 0 {
        lemma_keep_wav_only_wav(s.drop_last());
        let rest = keep_wav(s.drop_last());
        if is_wav_name(s.last()) {
            assert forall|i: int| 0 <= i < rest.push(s.last()).len() implies is_wav_name(
                #[trigger] rest.push(s.last())[i],
            ) by {
                if i < rest.len() {
                    assert(rest.push(s.last())[i] == rest[i]);
                }
            }
        }
    }
}

/// Whether a file called `name` has the extension `wav`.
pub fn is_wav_file_name(name: &str) -> (r: bool)
    ensures
        r == is_wav_name(name@),
{
    let cs = chars_of(name);
    let n = cs.len();
    if n <= 4 {
        return false;
    }
    let r = cs[n - 4] == '.' && cs[n - 3] == 'w' && cs[n - 2] == 'a' && cs[n - 1] == 'v';
    proof {
        reveal_strlit(".wav");
        if r {
            assert(name@.subrange(n - 4, n as int) =~= ".wav"@);
        } else {
            if name@.subrange(n - 4, n as int) == ".wav"@ {
                assert(name@.subrange(n - 4, n as int)[0] == name@[n - 4]);
                assert(name@.subrange(n - 4, n as int)[1] == name@[n - 3]);
                assert(name@.subrange(n - 4, n as int)[2] == name@[n - 2]);
                assert(name@.subrange(n - 4, n as int)[3] == name@[n - 1]);
            }
        }
    }
    r
}

/// The `.wav` files among the names of the regular files of a folder, in
/// the order given.
pub fn wav_files(names: Vec<String>) -> (r: Vec<String>)
    ensures
        views(r@) == keep_wav(views(names@)),
{
    let mut r: Vec<String> = Vec::new();
    let mut i: usize = 0;
    while i < names.len()
        invariant
            i <= names.len(),
            views(r@) == keep_wav(views(names@).take(i as int)),
        decreases names.len() - i,
    {
        let ghost before = views(r@);
        assert(views(names@).take(i + 1).drop_last() =~= views(names@).take(i as int));
        assert(views(names@).take(i + 1).last() == names@[i as int]@);
        if is_wav_file_name(names[i].as_str()) {
            r.push(names[i].clone());
            assert(views(r@) =~= before.push(names@[i as int]@));
        }
        i = i + 1;
    }
    assert(views(names@).take(names.len() as int) =~= views(names@));
    r
}

/// The file chooser's entries for the files `files`: `(nessuno)` (no sound),
/// the files, and `INDIETRO` (back); `None` when there are no files, since
/// the chooser is then not shown.
pub open spec fn spec_audio_file_items(files: Seq<Seq<char>>) -> Option<Seq<Seq<char>>> {
    if files.len() == 0 {
        None
    } else {
        Some(seq!["(nessuno)"@] + files + seq!["INDIETRO"@])
    }
}

/// The file chooser's entries for the files `files`.
pub fn audio_file_items(files: Vec<String>) -> (r: Option<Vec<String>>)
    ensures
        match spec_audio_file_items(views(files@)) {
            Some(items) => r is Some && views(r->0@) == items,
            None => r is None,
        },
{
    if files.len() == 0 {
        return None;
    }
    let mut items: Vec<String> = Vec::new();
    items.push(owned("(nessuno)"));
    let mut i: usize = 0;
    while i < files.len()
        invariant
            i <= files.len(),
            views(items@) == seq!["(nessuno)"@] + views(files@).take(i as int),
        decreases files.len() - i,
    {
        let ghost before = views(items@);
        items.push(files[i].clone());
        assert(views(items@) =~= before.push(files@[i as int]@));
        assert(views(files@).take(i + 1) =~= views(files@).take(i as int).push(files@[i as int]@));
        i = i + 1;
    }
    let ghost before = views(items@);
    items.push(owned("INDIETRO"));
    assert(views(items@) =~= before.push("INDIETRO"@));
    assert(views(files@).take(files.len() as int) =~= views(files@));
    assert(views(items@) =~= seq!["(nessuno)"@] + views(files@) + seq!["INDIETRO"@]);
    Some(items)
}

/// The entry that the file chooser selects first: the first entry other than
/// the last that names the current file, or the first entry when the current
/// file is empty or not listed.
pub open spec fn spec_initial_audio_selection(items: Seq<Seq<char>>, current: Seq<char>) -> int {
    if current.len() == 0 {
        0
    } else if exists|k: int| 0 <= k < items.len() - 1 && items[k] == current {
        choose|k: int| 0 <= k < items.len() - 1 && items[k] == current && forall|j: int| 0 <= j < k ==> items[j] != current
    } else {
        0
    }
}

/// The entry that the file chooser selects first for an alert whose current
/// file is `current`.
pub fn initial_audio_selection(items: &Vec<String>, current: &str) -> (r: usize)
    ensures
        r as int == spec_initial_audio_selection(views(items@), current@),
{
    let ghost v = views(items@);
    if current.is_empty() {
        return 0;
    }
    let mut k: usize = 0;
    while k + 1 < items.len()
        invariant
            k + 1 <= items.len() || k == 0,
            v == views(items@),
            current@.len() != 0,
            forall|j: int| 0 <= j < k ==> v[j] != current@,
        decreases items.len() - k,
    {
        assert(v[k as int] == items@[k as int]@);
        if str_eq(items[k].as_str(), current) {
            proof {
                assert(0 <= k < v.len() - 1 && v[k as int] == current@);
                let c = choose|m: int| 0 <= m < v.len() - 1 && v[m] == current@ && forall|j: int| 0 <= j < m ==> v[j] != current@;
                if c < k {
                    assert(v[c] != current@);
                } else if c > k {
                    assert(v[k as int] != current@);
                }
            }
            return k;
        }
        k = k + 1;
    }
    0
}

} // verus!
