use alarum::audio::{
    choose_sound_file, notify_command, pcm16_mono_wav, picked_path, picker_commands,
    player_commands, preview_path,
};
use alarum::calendar::Moment;
use alarum::model::{format_datetime, format_next};
use chrono::{DateTime, Local};

#[test]
fn wav_header_is_riff_pcm16_mono() {
    let pcm = vec![1u8, 2, 3, 4];
    let out = pcm16_mono_wav(&pcm);
    let mut expected = Vec::new();
    expected.extend_from_slice(b"RIFF");
    expected.extend_from_slice(&40u32.to_le_bytes());
    expected.extend_from_slice(b"WAVEfmt ");
    expected.extend_from_slice(&16u32.to_le_bytes());
    expected.extend_from_slice(&1u16.to_le_bytes());
    expected.extend_from_slice(&1u16.to_le_bytes());
    expected.extend_from_slice(&44_100u32.to_le_bytes());
    expected.extend_from_slice(&88_200u32.to_le_bytes());
    expected.extend_from_slice(&2u16.to_le_bytes());
    expected.extend_from_slice(&16u16.to_le_bytes());
    expected.extend_from_slice(b"data");
    expected.extend_from_slice(&4u32.to_le_bytes());
    expected.extend_from_slice(&pcm);
    assert_eq!(out, expected);
    assert_eq!(pcm16_mono_wav(&vec![0u8; 211_680]).len(), 44 + 211_680);
}

#[test]
fn player_and_picker_commands() {
    let cmds = player_commands("/a b.wav");
    let progs: Vec<&str> = cmds.iter().map(|c| c.program.as_str()).collect();
    assert_eq!(progs, vec!["mpv", "pw-play", "paplay", "ffplay", "ffplay", "aplay"]);
    assert_eq!(cmds[0].args, vec!["--no-video", "--really-quiet", "--audio-display=no", "/a b.wav"]);
    assert_eq!(cmds[3].args, vec!["-nodisp", "-autoexit", "-loglevel", "quiet", "/a b.wav"]);
    assert_eq!(cmds[5].args, vec!["-q", "/a b.wav"]);
    let pick = picker_commands();
    let progs: Vec<&str> = pick.iter().map(|c| c.program.as_str()).collect();
    assert_eq!(progs, vec!["zenity", "yad", "kdialog"]);
    assert_eq!(pick[2].args, vec!["--getopenfilename", ".", "*.wav *.mp3 *.ogg *.oga *.flac"]);
    let n = notify_command("Alarm", "Tea");
    assert_eq!(n.program, "notify-send");
    assert_eq!(n.args, vec!["--urgency=critical", "--app-name=Alarum", "Alarm", "Tea"]);
}

#[test]
fn chosen_files() {
    assert_eq!(picked_path("  /home/me/bell.ogg\n"), Some("/home/me/bell.ogg".to_string()));
    assert_eq!(picked_path("\n"), None);
    assert_eq!(preview_path(" x.wav "), Some("x.wav".to_string()));
    assert_eq!(preview_path(""), None);
    assert_eq!(choose_sound_file(Some("a".into()), true, "d".into()), "a");
    assert_eq!(choose_sound_file(Some("a".into()), false, "d".into()), "d");
    assert_eq!(choose_sound_file(None, true, "d".into()), "d");
}

#[test]
fn clock_lines_use_chrono_formats() {
    let m = Moment { secs: 1_788_940_815, nanos: 0 };
    let dt = DateTime::from_timestamp(m.secs, 0).unwrap().with_timezone(&Local);
    assert_eq!(format_datetime(m, false), dt.format("%a %b %d   %H:%M:%S").to_string());
    assert_eq!(format_datetime(m, true), dt.format("%a %b %d   %I:%M:%S %p").to_string());
    assert_eq!(format_next(m, false), dt.format("%a %H:%M").to_string());
    assert_eq!(format_next(m, true), dt.format("%a %I:%M %p").to_string());
}

#[test]
fn clock_lines_have_their_documented_shape() {
    let months = ["Jan", "Feb", "Mar", "Apr", "May", "Jun", "Jul", "Aug", "Sep", "Oct", "Nov", "Dec"];
    let days = ["Sun", "Mon", "Tue", "Wed", "Thu", "Fri", "Sat"];
    for secs in [0i64, 1_788_940_815, -1_000_000_000, 4_102_444_799, 1_700_000_000] {
        let m = Moment { secs, nanos: 0 };
        let a = format_datetime(m, false);
        let b = format_datetime(m, true);
        let c = format_next(m, false);
        let d = format_next(m, true);
        assert_eq!((a.len(), b.len(), c.len(), d.len()), (21, 24, 9, 12));
        assert!(days.contains(&&a[0..3]) && months.contains(&&a[4..7]));
        assert_eq!(&a[10..13], "   ");
        assert!(b.ends_with("AM") || b.ends_with("PM"));
        assert!(days.contains(&&d[0..3]) && (d.ends_with(" AM") || d.ends_with(" PM")));
        let h12: u32 = d[4..6].parse().unwrap();
        assert!((1..=12).contains(&h12));
        let h24: u32 = c[4..6].parse().unwrap();
        assert!(h24 <= 23);
    }
}
