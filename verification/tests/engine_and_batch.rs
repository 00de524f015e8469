use song_export::batch::{progress_line, summary_line, BatchState};
use song_export::errors::MigrationError;
use song_export::transfer::{
    DestProbe, TransferDecision, TransferState, MAX_TRANSFER_ATTEMPTS,
};

fn started() -> TransferState {
    TransferState::begin(true, String::from("/d/Song.mp3"), String::from("mp3")).unwrap()
}

#[test]
fn missing_source_is_a_copy_error() {
    let r = TransferState::begin(false, String::from("/d/Song.mp3"), String::from("mp3"));
    assert!(matches!(r, Err(MigrationError::CopyError)));
}

#[test]
fn absent_destination_is_copied() {
    let mut st = started();
    let d = st.step(DestProbe::Absent, 100);
    assert_eq!(d, TransferDecision::DoCopy);
    assert_eq!(st.candidate, "/d/Song.mp3");
    assert_eq!(st.attempt, 0);
}

#[test]
fn same_length_short_circuits_without_copy() {
    let mut st = started();
    let d = st.step(DestProbe::Present(100), 100);
    assert_eq!(d, TransferDecision::AlreadyPresent);
    assert_eq!(st.candidate, "/d/Song.mp3");
    assert_eq!(st.attempt, 0);
}

#[test]
fn different_length_retries_with_fresh_name() {
    let mut st = started();
    let d = st.step(DestProbe::Present(50), 100);
    assert_eq!(d, TransferDecision::Retry);
    assert_eq!(st.candidate, "/d/Song.mp3.mp3");
    assert_eq!(st.attempt, 1);
    let d2 = st.step(DestProbe::Present(70), 100);
    assert_eq!(d2, TransferDecision::Retry);
    assert_eq!(st.candidate, "/d/Song.mp3.mp3.mp3");
}

#[test]
fn retry_names_never_repeat() {
    let mut st = started();
    let mut seen_names = vec![st.candidate.clone()];
    while st.step(DestProbe::Present(50), 100) == TransferDecision::Retry {
        assert!(!seen_names.contains(&st.candidate));
        seen_names.push(st.candidate.clone());
    }
}

#[test]
fn disambiguation_is_bounded() {
    let mut st = started();
    let mut retries = 0u32;
    loop {
        match st.step(DestProbe::Present(50), 100) {
            TransferDecision::Retry => retries += 1,
            TransferDecision::GiveUp => break,
            _ => unreachable!(),
        }
        assert!(retries <= MAX_TRANSFER_ATTEMPTS as u32);
    }
    assert_eq!(retries, MAX_TRANSFER_ATTEMPTS as u32);
}

#[test]
fn duplicate_records_are_skipped() {
    let mut st = BatchState::new();
    let k1 = String::from("folderaudio.mp3");

    assert!(!st.already_seen(&k1));
    st.finish_record(k1.clone(), false);
    assert!(st.already_seen(&k1));
    st.skip_record(&k1);

    assert_eq!(st.position, 2);
    assert_eq!(st.attempted, 1);
    assert_eq!(st.failed, 0);
}

#[test]
fn failed_record_key_is_not_retried() {
    let mut st = BatchState::new();
    let k = String::from("k");
    st.finish_record(k.clone(), true);
    assert!(st.already_seen(&k));
    assert_eq!(st.failed, 1);
}

#[test]
fn counters_match_batch_outcome() {
    // Four records, one duplicate, one failure among the attempted ones.
    let keys = ["k1", "k2", "k1", "k3"];
    let fails = [false, true, false, false];
    let mut st = BatchState::new();
    for (key, fail) in keys.iter().zip(fails.iter()) {
        let key = String::from(*key);
        if st.already_seen(&key) {
            st.skip_record(&key);
        } else {
            st.finish_record(key, *fail);
        }
    }
    assert_eq!(st.position, 4);
    assert_eq!(st.attempted, 3);
    assert_eq!(st.failed, 1);
}

#[test]
fn empty_batch_reports_nothing() {
    let st = BatchState::new();
    assert_eq!(st.position, 0);
    assert_eq!(st.attempted, 0);
    assert_eq!(st.failed, 0);
    assert!(!st.already_seen(&String::from("")));
}

#[test]
fn report_lines() {
    assert_eq!(
        progress_line(2, 10, "Song", "Hard"),
        "(2/10) processing beatmap Song - Hard"
    );
    assert_eq!(summary_line(0), "operation done, failed 0");
    assert_eq!(summary_line(17), "operation done, failed 17");
}
