use vstd::prelude::*;
use vstd::string::*;

use crate::text::{trim, trim_str};

verus! {

/// Samples per second of the built-in alarm sound.
pub const SAMPLE_RATE: u32 = 44_100;

/// The two bytes of `x` in little-endian order.
pub open spec fn le16(x: nat) -> Seq<u8> {
    seq![(x % 256) as u8, ((x / 256) % 256) as u8]
}

/// The four bytes of `x` in little-endian order.
pub open spec fn le32(x: nat) -> Seq<u8> {
    seq![
        (x % 256) as u8,
        ((x / 256) % 256) as u8,
        ((x / 65536) % 256) as u8,
        ((x / 16777216) % 256) as u8,
    ]
}

/// A RIFF/WAVE file holding `pcm` as 16-bit mono PCM at 44.1 kHz: the 44-byte header
/// ("RIFF", size, "WAVE", a 16-byte "fmt " chunk, "data", size) and then the samples.
pub open spec fn wav_bytes(pcm: Seq<u8>) -> Seq<u8> {
    seq![82u8, 73, 70, 70] + le32((36 + pcm.len()) as nat) + seq![87u8, 65, 86, 69]
        + seq![102u8, 109, 116, 32] + le32(16) + le16(1) + le16(1) + le32(SAMPLE_RATE as nat)
        + le32(SAMPLE_RATE as nat * 2) + le16(2) + le16(16) + seq![100u8, 97, 116, 97] + le32(
        pcm.len(),
    ) + pcm
}

fn push_le16(out: &mut Vec<u8>, x: u16)
    ensures
        final(out)@ == old(out)@ + le16(x as nat),
{
    out.push((x % 256) as u8);
    out.push(((x / 256) % 256) as u8);
    assert(final(out)@ =~= old(out)@ + le16(x as nat));
}

fn push_le32(out: &mut Vec<u8>, x: u32)
    ensures
        final(out)@ == old(out)@ + le32(x as nat),
{
    out.push((x % 256) as u8);
    out.push(((x / 256) % 256) as u8);
    out.push(((x / 65536) % 256) as u8);
    out.push(((x / 16777216) % 256) as u8);
    assert(final(out)@ =~= old(out)@ + le32(x as nat));
}

fn push_tag(out: &mut Vec<u8>, a: u8, b: u8, c: u8, d: u8)
    ensures
        final(out)@ == old(out)@ + seq![a, b, c, d],
{
    out.push(a);
    out.push(b);
    out.push(c);
    out.push(d);
    assert(final(out)@ =~= old(out)@ + seq![a, b, c, d]);
}

/// The WAV file of 16-bit mono PCM samples at 44.1 kHz, given as little-endian bytes.
pub fn pcm16_mono_wav(pcm: &Vec<u8>) -> (out: Vec<u8>)
    requires
        pcm@.len() + 36 <= u32::MAX,
    ensures
        out@ == wav_bytes(pcm@),
{
    let data_len = pcm.len() as u32;
    let mut out: Vec<u8> = Vec::new();
    push_tag(&mut out, 82, 73, 70, 70);
    push_le32(&mut out, 36 + data_len);
    push_tag(&mut out, 87, 65, 86, 69);
    push_tag(&mut out, 102, 109, 116, 32);
    push_le32(&mut out, 16);
    push_le16(&mut out, 1);
    push_le16(&mut out, 1);
    push_le32(&mut out, SAMPLE_RATE);
    push_le32(&mut out, SAMPLE_RATE * 2);
    push_le16(&mut out, 2);
    push_le16(&mut out, 16);
    push_tag(&mut out, 100, 97, 116, 97);
    push_le32(&mut out, data_len);
    let ghost header = out@;
    let n = pcm.len();
    let mut i: usize = 0;
    while i < n
        invariant
            n == pcm@.len(),
            i <= n,
            out@ == header + pcm@.take(i as int),
        decreases n - i,
    {
        out.push(pcm[i]);
        assert(pcm@.take(i + 1) =~= pcm@.take(i as int).push(pcm@[i as int]));
        assert(out@ =~= header + pcm@.take(i + 1));
        i = i + 1;
    }
    assert(pcm@.take(n as int) =~= pcm@);
    assert(out@ =~= wav_bytes(pcm@));
    out
}

/// The texts of a list of strings.
pub open spec fn string_texts(v: Seq<String>) -> Seq<Seq<char>> {
    v.map_values(|s: String| s@)
}

/// A program to run and its arguments.
#[derive(Debug)]
pub struct ExternalCommand {
    pub program: String,
    pub args: Vec<String>,
}

impl ExternalCommand {
    /// The program and the arguments as text.
    pub open spec fn text(&self) -> (Seq<char>, Seq<Seq<char>>) {
        (self.program@, string_texts(self.args@))
    }
}

/// The texts of a list of commands.
pub open spec fn commands_text(v: Seq<ExternalCommand>) -> Seq<(Seq<char>, Seq<Seq<char>>)> {
    v.map_values(|c: ExternalCommand| c.text())
}

/// The players tried, in order, to play the sound file at `path`, with their arguments.
pub open spec fn player_commands_of(path: Seq<char>) -> Seq<(Seq<char>, Seq<Seq<char>>)> {
    seq![
        ("mpv"@, seq!["--no-video"@, "--really-quiet"@, "--audio-display=no"@, path]),
        ("pw-play"@, seq![path]),
        ("paplay"@, seq![path]),
        ("ffplay"@, seq!["-nodisp"@, "-autoexit"@, "-loglevel"@, "quiet"@, path]),
        ("ffplay"@, seq!["-nodisp"@, "-autoexit"@, path]),
        ("aplay"@, seq!["-q"@, path]),
    ]
}

/// The file pickers tried, in order, to choose an alarm sound, with their arguments.
pub open spec fn picker_commands_of() -> Seq<(Seq<char>, Seq<Seq<char>>)> {
    seq![
        ("zenity"@, seq![
            "--file-selection"@,
            "--title=Choose alarm sound"@,
            "--file-filter=Audio files | *.wav *.mp3 *.ogg *.oga *.flac *.m4a *.aac"@,
        ]),
        ("yad"@, seq![
            "--file"@,
            "--title=Choose alarm sound"@,
            "--file-filter=Audio | *.wav *.mp3 *.ogg *.oga *.flac"@,
        ]),
        ("kdialog"@, seq!["--getopenfilename"@, "."@, "*.wav *.mp3 *.ogg *.oga *.flac"@]),
    ]
}

/// The desktop notification for `title` and `body`.
pub open spec fn notify_command_of(title: Seq<char>, body: Seq<char>) -> (Seq<char>, Seq<Seq<char>>) {
    ("notify-send"@, seq!["--urgency=critical"@, "--app-name=Alarum"@, title, body])
}

fn push_arg(args: &mut Vec<String>, a: &str)
    ensures
        string_texts(final(args)@) == string_texts(old(args)@).push(a@),
{
    args.push(String::from_str(a));
    assert(string_texts(final(args)@) =~= string_texts(old(args)@).push(a@));
}

fn no_args() -> (v: Vec<String>)
    ensures
        string_texts(v@) == Seq::<Seq<char>>::empty(),
{
    let v: Vec<String> = Vec::new();
    assert(string_texts(v@) =~= Seq::<Seq<char>>::empty());
    v
}

fn no_commands() -> (v: Vec<ExternalCommand>)
    ensures
        commands_text(v@) == Seq::<(Seq<char>, Seq<Seq<char>>)>::empty(),
{
    let v: Vec<ExternalCommand> = Vec::new();
    assert(commands_text(v@) =~= Seq::<(Seq<char>, Seq<Seq<char>>)>::empty());
    v
}

fn command(program: &str, args: Vec<String>) -> (c: ExternalCommand)
    ensures
        c.program@ == program@,
        c.args == args,
{
    ExternalCommand { program: String::from_str(program), args }
}

fn push_command(v: &mut Vec<ExternalCommand>, c: ExternalCommand)
    ensures
        commands_text(final(v)@) == commands_text(old(v)@).push(c.text()),
{
    v.push(c);
    assert(commands_text(final(v)@) =~= commands_text(old(v)@).push(c.text()));
}

/// Builds a command from literal parts.
fn make_command(program: &str, args: &[&str]) -> (c: ExternalCommand)
    ensures
        c.text() == (program@, args@.map_values(|a: &str| a@)),
{
    let mut v = no_args();
    let n = args.len();
    let mut i: usize = 0;
    while i < n
        invariant
            n == args@.len(),
            i <= n,
            string_texts(v@) == args@.take(i as int).map_values(|a: &str| a@),
        decreases n - i,
    {
        push_arg(&mut v, args[i]);
        assert(args@.take(i + 1).map_values(|a: &str| a@) =~= args@.take(i as int).map_values(
            |a: &str| a@,
        ).push(args@[i as int]@));
        i = i + 1;
    }
    assert(args@.take(n as int) =~= args@);
    command(program, v)
}

/// The players to try, in order, to play the sound file at `path`.
pub fn player_commands(path: &str) -> (r: Vec<ExternalCommand>)
    ensures
        commands_text(r@) == player_commands_of(path@),
{
    let mut v = no_commands();
    let c = make_command("mpv", &["--no-video", "--really-quiet", "--audio-display=no", path]);
    assert(c.text().1 =~= player_commands_of(path@)[0].1);
    push_command(&mut v, c);
    let c = make_command("pw-play", &[path]);
    assert(c.text().1 =~= player_commands_of(path@)[1].1);
    push_command(&mut v, c);
    let c = make_command("paplay", &[path]);
    assert(c.text().1 =~= player_commands_of(path@)[2].1);
    push_command(&mut v, c);
    let c = make_command("ffplay", &["-nodisp", "-autoexit", "-loglevel", "quiet", path]);
    assert(c.text().1 =~= player_commands_of(path@)[3].1);
    push_command(&mut v, c);
    let c = make_command("ffplay", &["-nodisp", "-autoexit", path]);
    assert(c.text().1 =~= player_commands_of(path@)[4].1);
    push_command(&mut v, c);
    let c = make_command("aplay", &["-q", path]);
    assert(c.text().1 =~= player_commands_of(path@)[5].1);
    push_command(&mut v, c);
    assert(commands_text(v@) =~= player_commands_of(path@));
    v
}

/// The file pickers to try, in order, to choose an alarm sound.
pub fn picker_commands() -> (r: Vec<ExternalCommand>)
    ensures
        commands_text(r@) == picker_commands_of(),
{
    let mut v = no_commands();
    let c = make_command(
        "zenity",
        &[
            "--file-selection",
            "--title=Choose alarm sound",
            "--file-filter=Audio files | *.wav *.mp3 *.ogg *.oga *.flac *.m4a *.aac",
        ],
    );
    assert(c.text().1 =~= picker_commands_of()[0].1);
    push_command(&mut v, c);
    let c = make_command(
        "yad",
        &["--file", "--title=Choose alarm sound", "--file-filter=Audio | *.wav *.mp3 *.ogg *.oga *.flac"],
    );
    assert(c.text().1 =~= picker_commands_of()[1].1);
    push_command(&mut v, c);
    let c = make_command("kdialog", &["--getopenfilename", ".", "*.wav *.mp3 *.ogg *.oga *.flac"]);
    assert(c.text().1 =~= picker_commands_of()[2].1);
    push_command(&mut v, c);
    assert(commands_text(v@) =~= picker_commands_of());
    v
}

/// The desktop notification for `title` and `body`.
pub fn notify_command(title: &str, body: &str) -> (r: ExternalCommand)
    ensures
        r.text() == notify_command_of(title@, body@),
{
    let mut a = no_args();
    push_arg(&mut a, "--urgency=critical");
    push_arg(&mut a, "--app-name=Alarum");
    push_arg(&mut a, title);
    push_arg(&mut a, body);
    let c = command("notify-send", a);
    assert(c.text().1 =~= notify_command_of(title@, body@).1);
    c
}

/// The file a picker chose, from what it printed: the printed text trimmed, unless that is
/// empty.
pub fn picked_path(printed: &str) -> (r: Option<String>)
    ensures
        trim(printed@).len() == 0 ==> r is None,
        trim(printed@).len() != 0 ==> (r matches Some(p) && p@ == trim(printed@)),
{
    let t = trim_str(printed);
    if t.unicode_len() == 0 {
        None
    } else {
        Some(t.to_owned())
    }
}

/// The file a preview plays for sound setting `sound_path`: the trimmed setting, or the
/// built-in sound (`None`) when it is blank.
pub fn preview_path(sound_path: &str) -> (r: Option<String>)
    ensures
        trim(sound_path@).len() == 0 ==> r is None,
        trim(sound_path@).len() != 0 ==> (r matches Some(p) && p@ == trim(sound_path@)),
{
    picked_path(sound_path)
}

/// The file to play: the requested one when there is one and it is a file, else the
/// built-in sound's file `default`.
pub fn choose_sound_file(requested: Option<String>, requested_is_file: bool, default: String) -> (r: String)
    ensures
        r == (if requested is Some && requested_is_file { requested->0 } else { default }),
{
    match requested {
        Some(p) if requested_is_file => p,
        _ => default,
    }
}

} // verus!
