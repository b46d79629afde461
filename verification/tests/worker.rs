use jukebox::{next_counter, DownloadReport, PlayerState, QueueCommand, Song, WorkerAction, MAX_LOADS};

fn song(link: &str) -> Song {
    Song { link: link.to_string() }
}

fn report(n: u32) -> DownloadReport {
    DownloadReport { title: Some(format!("title {}", n)) }
}

fn new_state() -> PlayerState {
    PlayerState::new("output".to_string())
}

/// Runs `Add` and, when it starts a download, reports it as successful.
fn add_and_fetch(state: &mut PlayerState) -> Option<u32> {
    match state.handle_command(QueueCommand::Add) {
        WorkerAction::Download { counter, .. } => {
            state.download_finished(Some(report(counter)));
            Some(counter)
        }
        WorkerAction::Idle => None,
        WorkerAction::Play { .. } => panic!("Add never plays"),
    }
}

#[test]
fn new_state_is_empty_and_ready() {
    let state = new_state();
    assert!(state.queue().is_empty());
    assert!(state.downloaded().is_empty());
    assert!(state.now_playing().is_none());
    assert_eq!(state.counter(), 0);
    assert_eq!(state.output_dir(), "output");
    assert!(state.is_ready());
}

#[test]
fn enqueue_asks_for_add() {
    let mut state = new_state();
    assert_eq!(state.enqueue(song("a")), QueueCommand::Add);
    assert_eq!(state.enqueue(song("b")), QueueCommand::Add);
    let links: Vec<&str> = state.queue().iter().map(|s| s.link.as_str()).collect();
    assert_eq!(links, vec!["a", "b"]);
}

#[test]
fn add_starts_download_of_first_song() {
    let mut state = new_state();
    state.enqueue(song("first"));
    state.enqueue(song("second"));
    let action = state.handle_command(QueueCommand::Add);
    assert_eq!(
        action,
        WorkerAction::Download {
            link: "first".to_string(),
            counter: 0,
            raw_file_name: "track_0_raw.webm".to_string(),
            raw_file_path: "output/track_0_raw.webm".to_string(),
            mp3_file_path: "output/track_0.mp3".to_string(),
        }
    );
    assert!(state.is_downloading());
    assert_eq!(state.queue().len(), 1);
    assert_eq!(state.queue()[0].link, "second");
}

#[test]
fn finished_download_joins_download_queue() {
    let mut state = new_state();
    state.enqueue(song("x"));
    state.handle_command(QueueCommand::Add);
    state.download_finished(Some(report(0)));
    assert!(state.is_ready());
    assert_eq!(state.counter(), 1);
    assert_eq!(state.downloaded().len(), 1);
    let d = &state.downloaded()[0];
    assert_eq!(d.link, "x");
    assert_eq!(d.title.as_deref(), Some("title 0"));
    assert_eq!(d.raw_file_path.as_deref(), Some("output/track_0_raw.webm"));
    assert_eq!(d.mp3_file_path.as_deref(), Some("output/track_0.mp3"));
}

#[test]
fn download_with_last_counter_uses_its_files_and_wraps() {
    let mut state = new_state();
    // five downloads, each played away, bring the counter to 5
    for i in 0..5 {
        state.enqueue(song(&format!("warm {}", i)));
        add_and_fetch(&mut state);
        state.handle_command(QueueCommand::Empty);
        state.playback_finished(true);
    }
    assert_eq!(state.counter(), 5);
    assert!(state.downloaded().is_empty());
    state.enqueue(song("https://youtu.be/a"));
    match state.handle_command(QueueCommand::Add) {
        WorkerAction::Download { link, counter, raw_file_name, raw_file_path, mp3_file_path } => {
            assert_eq!(link, "https://youtu.be/a");
            assert_eq!(counter, 5);
            assert_eq!(raw_file_name, "track_5_raw.webm");
            assert_eq!(raw_file_path, "output/track_5_raw.webm");
            assert_eq!(mp3_file_path, "output/track_5.mp3");
        }
        other => panic!("expected a download, got {:?}", other),
    }
    state.download_finished(Some(DownloadReport { title: None }));
    assert!(state.queue().is_empty());
    assert_eq!(state.counter(), 0);
    let d = &state.downloaded()[0];
    assert_eq!(d.link, "https://youtu.be/a");
    assert_eq!(d.title, None);
    assert_eq!(d.raw_file_path.as_deref(), Some("output/track_5_raw.webm"));
    assert_eq!(d.mp3_file_path.as_deref(), Some("output/track_5.mp3"));
}

#[test]
fn failed_download_drops_song_and_keeps_counter() {
    let mut state = new_state();
    state.enqueue(song("bad"));
    state.enqueue(song("good"));
    state.handle_command(QueueCommand::Add);
    state.download_finished(None);
    assert!(state.is_ready());
    assert_eq!(state.counter(), 0);
    assert!(state.downloaded().is_empty());
    assert_eq!(state.queue().len(), 1);
    assert_eq!(state.queue()[0].link, "good");
}

#[test]
fn add_with_empty_queue_is_idle() {
    let mut state = new_state();
    assert_eq!(state.handle_command(QueueCommand::Add), WorkerAction::Idle);
    assert!(state.is_ready());
}

#[test]
fn empty_with_nothing_downloaded_is_idle() {
    let mut state = new_state();
    state.enqueue(song("waiting"));
    assert_eq!(state.handle_command(QueueCommand::Empty), WorkerAction::Idle);
    assert!(state.is_ready());
    assert_eq!(state.queue().len(), 1);
}

#[test]
fn empty_plays_then_fetches_next() {
    let mut state = new_state();
    state.enqueue(song("one"));
    add_and_fetch(&mut state);
    state.enqueue(song("two"));
    let action = state.handle_command(QueueCommand::Empty);
    assert_eq!(action, WorkerAction::Play { mp3_file_path: Some("output/track_0.mp3".to_string()) });
    assert!(state.is_playing());
    assert!(state.downloaded().is_empty());
    let next = state.playback_finished(true);
    assert_eq!(
        next,
        WorkerAction::Download {
            link: "two".to_string(),
            counter: 1,
            raw_file_name: "track_1_raw.webm".to_string(),
            raw_file_path: "output/track_1_raw.webm".to_string(),
            mp3_file_path: "output/track_1.mp3".to_string(),
        }
    );
    assert_eq!(state.now_playing().as_ref().map(|s| s.link.as_str()), Some("one"));
    assert!(state.is_downloading());
}

#[test]
fn failed_playback_does_not_change_now_playing() {
    let mut state = new_state();
    state.enqueue(song("one"));
    add_and_fetch(&mut state);
    state.handle_command(QueueCommand::Empty);
    assert_eq!(state.playback_finished(false), WorkerAction::Idle);
    assert!(state.now_playing().is_none());
    assert!(state.is_ready());
}

#[test]
fn download_queue_holds_at_most_max_loads_plus_one() {
    let mut state = new_state();
    for i in 0..10 {
        state.enqueue(song(&format!("s{}", i)));
    }
    let mut started = 0;
    for _ in 0..10 {
        if add_and_fetch(&mut state).is_some() {
            started += 1;
        }
    }
    assert_eq!(started, (MAX_LOADS + 1) as usize);
    assert_eq!(state.downloaded().len(), (MAX_LOADS + 1) as usize);
    assert_eq!(state.queue().len(), 10 - (MAX_LOADS + 1) as usize);
    assert_eq!(state.handle_command(QueueCommand::Add), WorkerAction::Idle);
    // the counter went round and is back at zero
    assert_eq!(state.counter(), 0);
    // every queued song has its own converted file
    let mut paths: Vec<&str> =
        state.downloaded().iter().map(|d| d.mp3_file_path.as_deref().unwrap()).collect();
    paths.sort();
    paths.dedup();
    assert_eq!(paths.len(), (MAX_LOADS + 1) as usize);
}

#[test]
fn mp3_paths_stay_distinct_after_wrapping() {
    let mut state = new_state();
    for i in 0..20 {
        state.enqueue(song(&format!("s{}", i)));
    }
    for round in 0..12 {
        add_and_fetch(&mut state);
        if round % 2 == 1 {
            state.handle_command(QueueCommand::Empty);
            if let WorkerAction::Download { counter, .. } = state.playback_finished(true) {
                state.download_finished(Some(report(counter)));
            }
        }
        let mut paths: Vec<&str> =
            state.downloaded().iter().map(|d| d.mp3_file_path.as_deref().unwrap()).collect();
        let n = paths.len();
        paths.sort();
        paths.dedup();
        assert_eq!(paths.len(), n);
        assert!(n <= (MAX_LOADS + 1) as usize);
    }
}

#[test]
fn songs_play_in_request_order() {
    let mut state = new_state();
    for name in ["a", "b", "c"] {
        state.enqueue(song(name));
        add_and_fetch(&mut state);
    }
    let mut played = Vec::new();
    for _ in 0..3 {
        if let WorkerAction::Play { .. } = state.handle_command(QueueCommand::Empty) {
            assert_eq!(state.playback_finished(true), WorkerAction::Idle);
            played.push(state.now_playing().as_ref().unwrap().link.clone());
        }
    }
    assert_eq!(played, vec!["a", "b", "c"]);
    assert_eq!(state.handle_command(QueueCommand::Empty), WorkerAction::Idle);
}

#[test]
fn counter_counts_to_max_loads_then_wraps() {
    assert_eq!(next_counter(0), 1);
    assert_eq!(next_counter(4), 5);
    assert_eq!(next_counter(MAX_LOADS), 0);
    let mut c = 2;
    for _ in 0..(MAX_LOADS + 1) {
        c = next_counter(c);
    }
    assert_eq!(c, 2);
}
