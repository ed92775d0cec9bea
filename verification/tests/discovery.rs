use audioconv::discover::locate_ai_output;
use audioconv::outcome::ConvError;
use audioconv::outcome::encoder_outcome;
use audioconv::outcome::failure_outcome;
use audioconv::outcome::rename_outcome;
use audioconv::outcome::success_outcome;

fn listing(names: &[&str]) -> Vec<String> {
    names.iter().map(|n| n.to_string()).collect()
}

#[test]
fn zero_candidates_is_output_not_located() {
    let l = listing(&["notes.txt", "cover.png"]);
    assert_eq!(
        locate_ai_output(&l, "mp3", "song_karaoke.mp3").unwrap_err(),
        ConvError::OutputNotLocated
    );
}

#[test]
fn empty_directory_is_output_not_located() {
    let l = listing(&[]);
    assert_eq!(
        locate_ai_output(&l, "mp3", "song_karaoke.mp3").unwrap_err(),
        ConvError::OutputNotLocated
    );
}

#[test]
fn the_final_name_itself_is_no_candidate() {
    let l = listing(&["song_karaoke.mp3"]);
    assert_eq!(
        locate_ai_output(&l, "mp3", "song_karaoke.mp3").unwrap_err(),
        ConvError::OutputNotLocated
    );
}

#[test]
fn exactly_one_candidate_is_renamed() {
    let l = listing(&["song_(Instrumental)_UVR-MDX-NET-Inst_HQ_3.mp3", "notes.txt"]);
    assert_eq!(
        locate_ai_output(&l, "mp3", "song_karaoke.mp3").unwrap(),
        "song_(Instrumental)_UVR-MDX-NET-Inst_HQ_3.mp3"
    );
}

#[test]
fn a_candidate_beside_the_final_name_is_still_found() {
    let l = listing(&["song_karaoke.mp3", "song_(Instrumental).mp3"]);
    assert_eq!(locate_ai_output(&l, "mp3", "song_karaoke.mp3").unwrap(), "song_(Instrumental).mp3");
}

#[test]
fn two_candidates_are_ambiguous() {
    let l = listing(&["a.mp3", "b.mp3"]);
    assert_eq!(
        locate_ai_output(&l, "mp3", "song_karaoke.mp3").unwrap_err(),
        ConvError::OutputNotLocated
    );
}

#[test]
fn candidates_must_carry_the_target_extension() {
    let l = listing(&["instrumental.flac", "instrumental.mp3"]);
    assert_eq!(locate_ai_output(&l, "mp3", "song_karaoke.mp3").unwrap(), "instrumental.mp3");
}

#[test]
fn encoder_outcome_reports_exit_status() {
    let ok = encoder_outcome(true, "out.mp3");
    assert!(ok.success);
    assert_eq!(ok.output_path.as_deref(), Some("out.mp3"));
    assert_eq!(ok.failure, None);

    let bad = encoder_outcome(false, "out.mp3");
    assert!(!bad.success);
    assert_eq!(bad.output_path, None);
    assert_eq!(bad.failure, Some(ConvError::EncodingFailed));
}

#[test]
fn rename_outcome_reports_filesystem_failure() {
    let ok = rename_outcome(true, "out.mp3");
    assert!(ok.success);
    let bad = rename_outcome(false, "out.mp3");
    assert_eq!(bad.failure, Some(ConvError::FilesystemError));
}

#[test]
fn outcome_constructors() {
    let ok = success_outcome("x.mp3");
    assert!(ok.success && ok.failure.is_none());
    let bad = failure_outcome(ConvError::InputNotFound);
    assert!(!bad.success && bad.output_path.is_none());
    assert_eq!(bad.failure, Some(ConvError::InputNotFound));
}
