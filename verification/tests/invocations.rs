use audioconv::invocation::KaraokeMode;
use audioconv::invocation::karaoke_fast_args;
use audioconv::invocation::needs_output_discovery;
use audioconv::invocation::karaoke_filter;
use audioconv::invocation::encoder_args;
use audioconv::invocation::join_path;
use audioconv::invocation::output_dir_for;
use audioconv::invocation::output_file_name;
use audioconv::invocation::plan_conversion;
use audioconv::invocation::separator_args;
use audioconv::profiles::lookup;
use audioconv::profiles::profiles;

#[test]
fn mid_profile_encoder_args_exactly() {
    let table = profiles();
    let mid = lookup(&table, "mid").unwrap();
    let args = encoder_args("song.wav", &mid, "output/song/song_mid.mp3");
    let expected = vec![
        "-y",
        "-i",
        "song.wav",
        "-c:a",
        "libmp3lame",
        "-b:a",
        "160k",
        "-hide_banner",
        "-loglevel",
        "error",
        "output/song/song_mid.mp3",
    ];
    assert_eq!(args, expected);
}

#[test]
fn mid_profile_has_one_bitrate_and_no_truncation() {
    let table = profiles();
    let mid = lookup(&table, "mid").unwrap();
    let args = encoder_args("song.wav", &mid, "output/song/song_mid.mp3");
    assert_eq!(args.iter().filter(|a| a.as_str() == "160k").count(), 1);
    assert_eq!(args.iter().filter(|a| a.as_str() == "-b:a").count(), 1);
    assert!(!args.iter().any(|a| a.as_str() == "-t"));
}

#[test]
fn preview_profile_includes_fixed_positive_truncation() {
    let table = profiles();
    let preview = lookup(&table, "preview").unwrap();
    let args = encoder_args("x.flac", &preview, "out.mp3");
    let pos = args.iter().position(|a| a.as_str() == "-t").unwrap();
    let seconds: u32 = args[pos + 1].parse().unwrap();
    assert!(seconds > 0);
    assert_eq!(seconds, 40);
}

#[test]
fn karaoke_fast_args_include_filter_graph_verbatim_for_any_input() {
    let filter = "asplit[a][b]; [a]lowpass=f=200[low]; [b]highpass=f=200,pan=mono|c0=c0-c1[high]; [low][high]amix=inputs=2:weights=1 -0.8,volume=1.25";
    assert_eq!(karaoke_filter(), filter);
    for input in ["a.mp3", "some/other 'song'.wav"] {
        let args = karaoke_fast_args(input, "final.mp3");
        assert_eq!(args.iter().filter(|a| a.as_str() == filter).count(), 1);
        assert_eq!(args[4], filter);
    }
}

#[test]
fn karaoke_fast_args_exactly() {
    let args = karaoke_fast_args("in.wav", "out.mp3");
    let expected = vec![
        "-y",
        "-i",
        "in.wav",
        "-af",
        karaoke_filter(),
        "-c:a",
        "libmp3lame",
        "-b:a",
        "320k",
        "-hide_banner",
        "-loglevel",
        "error",
        "out.mp3",
    ];
    assert_eq!(args, expected);
}

#[test]
fn separator_args_exactly() {
    let args = separator_args("in.wav", "output/in");
    let expected = vec![
        "in.wav",
        "--model_name",
        "UVR-MDX-NET-Inst_HQ_3",
        "--output_format",
        "MP3",
        "--output_dir",
        "output/in",
        "--instrumental_only",
    ];
    assert_eq!(args, expected);
}

#[test]
fn output_names_are_deterministic() {
    let table = profiles();
    let mid = lookup(&table, "mid").unwrap();
    assert_eq!(output_file_name("song", &mid), "song_mid.mp3");
    assert_eq!(output_dir_for("song"), "output/song");
    assert_eq!(join_path("output/song", "song_mid.mp3"), "output/song/song_mid.mp3");
}

#[test]
fn plan_for_plain_profile_runs_the_encoder() {
    let table = profiles();
    let mid = lookup(&table, "mid").unwrap();
    let plan = plan_conversion("music/song.wav", &mid, KaraokeMode::FastFilter);
    assert_eq!(plan.out_dir, "output/song");
    assert_eq!(plan.final_name, "song_mid.mp3");
    assert_eq!(plan.final_path, "output/song/song_mid.mp3");
    assert_eq!(plan.invocation.program, "ffmpeg");
    assert_eq!(plan.invocation.args.last().unwrap(), "output/song/song_mid.mp3");
}

#[test]
fn plan_for_karaoke_ai_runs_the_separator() {
    let table = profiles();
    let karaoke = lookup(&table, "karaoke").unwrap();
    let plan = plan_conversion("music/song.wav", &karaoke, KaraokeMode::AiSeparation);
    assert_eq!(plan.invocation.program, "audio-separator");
    assert_eq!(plan.final_name, "song_karaoke.mp3");
    let args = &plan.invocation.args;
    assert!(args.iter().any(|a| a.as_str() == "--instrumental_only"));
    assert_eq!(args[0], "music/song.wav");
    let pos = args.iter().position(|a| a.as_str() == "--output_dir").unwrap();
    assert_eq!(args[pos + 1], "output/song");
}

#[test]
fn only_karaoke_ai_needs_output_discovery() {
    let table = profiles();
    let karaoke = lookup(&table, "karaoke").unwrap();
    let mid = lookup(&table, "mid").unwrap();
    assert!(needs_output_discovery(&karaoke, KaraokeMode::AiSeparation));
    assert!(!needs_output_discovery(&karaoke, KaraokeMode::FastFilter));
    assert!(!needs_output_discovery(&mid, KaraokeMode::AiSeparation));
}

#[test]
fn fast_filtering_is_the_default_karaoke_mode() {
    assert_eq!(KaraokeMode::default(), KaraokeMode::FastFilter);
}

#[test]
fn plan_for_karaoke_fast_runs_the_encoder_with_the_filter() {
    let table = profiles();
    let karaoke = lookup(&table, "karaoke").unwrap();
    let plan = plan_conversion("song.wav", &karaoke, KaraokeMode::FastFilter);
    assert_eq!(plan.invocation.program, "ffmpeg");
    assert!(plan.invocation.args.iter().any(|a| a.as_str() == karaoke_filter()));
}
