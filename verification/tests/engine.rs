use rmup::library::album::Album;
use rmup::library::artist::Artist;
use rmup::library::track::Track;
use rmup::media_system::{LoadRequest, MediaSystem, PlaybackStatus, Queueable, Repeat};
use rmup::playlist::Playlist;
use rmup::time::Duration;

fn track(name: &str, secs: u64) -> Track {
    Track {
        title: Some(name.to_owned()),
        artist: "Artist".to_owned(),
        album: "Album".to_owned(),
        year: Some(2001),
        number: None,
        length: Duration::from_secs(secs),
        file_path: format!("/music/{name}.flac"),
    }
}

fn tracks(names: &[&str]) -> Vec<Track> {
    names.iter().map(|n| track(n, 180)).collect()
}

fn album(names: &[&str]) -> Album {
    let mut album = Album::default().name("Album").year(Some(2001));
    album.tracks = tracks(names);
    album
}

fn load(engine: &mut MediaSystem, request: Option<LoadRequest>) -> bool {
    match request {
        Some(r) => {
            engine.play_track(&r.track, r.interrupt, true);
            true
        }
        None => false,
    }
}

fn current(engine: &MediaSystem) -> Option<String> {
    engine.state().current_track.as_ref().and_then(|t| t.title.clone())
}

fn started(names: &[&str], gapless: bool) -> MediaSystem {
    let mut engine = MediaSystem::new(gapless);
    let request = engine.enqueue_and_play(&Queueable::Album(album(names)));
    assert!(load(&mut engine, request));
    engine
}

fn advance(engine: &mut MediaSystem) -> bool {
    let request = engine.play_next(true);
    load(engine, request)
}

#[test]
fn fresh_engine_is_idle() {
    let engine = MediaSystem::new(true);
    let state = engine.state();
    assert!(state.current_track.is_none());
    assert!(state.current_track_progress.is_none());
    assert!(!state.playing);
    assert!(!state.stopped);
    assert!(!state.shuffle);
    assert_eq!(state.repeat, Repeat::Off);
    assert!(engine.queue_empty());
    assert!(engine.gapless_playback());
    assert_eq!(engine.time_remaining(), Duration::zero());
}

#[test]
fn album_plays_in_order_then_ends() {
    let mut engine = started(&["A", "B", "C"], false);
    assert_eq!(current(&engine), Some("A".to_owned()));
    assert!(advance(&mut engine));
    assert_eq!(current(&engine), Some("B".to_owned()));
    assert!(advance(&mut engine));
    assert_eq!(current(&engine), Some("C".to_owned()));
    assert!(engine.play_next(true).is_none());
    assert_eq!(current(&engine), Some("C".to_owned()));
    engine.update_progress(Duration::from_secs(180), true);
    assert_eq!(current(&engine), None);
    assert!(engine.state().current_track_progress.is_none());
    assert!(!engine.state().playing);
}

#[test]
fn play_next_asks_for_head_of_queue() {
    let mut engine = started(&["A", "B"], true);
    let request = engine.play_next(false).expect("a track is queued");
    assert_eq!(request.track, track("B", 180));
    assert!(!request.interrupt);
    assert!(engine.state().current_track.is_none());
    assert!(engine.state().current_track_progress.is_none());
    assert!(!engine.state().playing);
}

#[test]
fn play_next_interrupts_without_gapless() {
    let mut engine = started(&["A", "B"], false);
    let request = engine.play_next(false).expect("a track is queued");
    assert!(request.interrupt);
}

#[test]
fn play_track_loads_from_start() {
    let mut engine = MediaSystem::new(true);
    let halt = engine.play_track(&track("A", 60), false, false);
    assert!(!halt);
    assert_eq!(current(&engine), Some("A".to_owned()));
    assert_eq!(engine.state().current_track_progress, Some(Duration::zero()));
    assert!(engine.state().playing);
    assert!(!engine.state().stopped);
}

#[test]
fn play_track_interrupts_busy_sink() {
    let mut engine = MediaSystem::new(true);
    assert!(engine.play_track(&track("A", 60), true, false));
    assert!(engine.state().stopped);
    assert!(engine.state().playing);
    let mut engine = MediaSystem::new(true);
    assert!(!engine.play_track(&track("A", 60), true, true));
    assert!(!engine.state().stopped);
}

#[test]
fn stop_halts_only_a_busy_sink() {
    let mut engine = started(&["A"], true);
    assert!(!engine.stop(true));
    assert!(!engine.state().stopped);
    assert!(engine.stop(false));
    assert!(engine.state().stopped);
    assert!(engine.stop(false));
    assert!(engine.state().stopped);
}

#[test]
fn pause_and_play_toggle_playing() {
    let mut engine = MediaSystem::new(true);
    assert!(!engine.play());
    assert!(!engine.pause());
    assert_eq!(engine.toggle_play(), PlaybackStatus::Stopped);
    engine.play_track(&track("A", 60), true, false);
    assert!(!engine.play());
    assert!(engine.pause());
    assert!(!engine.state().playing);
    assert!(!engine.pause());
    assert!(engine.play());
    assert!(engine.state().playing);
    assert!(!engine.state().stopped);
    assert_eq!(engine.toggle_play(), PlaybackStatus::Paused);
    assert!(!engine.state().playing);
    assert_eq!(engine.toggle_play(), PlaybackStatus::Playing);
    assert!(engine.state().playing);
}

#[test]
fn prev_after_next_restores_track() {
    let mut engine = started(&["A", "B", "C"], true);
    assert!(advance(&mut engine));
    assert_eq!(current(&engine), Some("B".to_owned()));
    let request = engine.play_prev().expect("history holds a track");
    assert_eq!(request.track, track("A", 180));
    assert!(request.interrupt);
    assert!(load(&mut engine, Some(request)));
    assert_eq!(current(&engine), Some("A".to_owned()));
    // history is empty again: going back replays the current track
    let request = engine.play_prev().expect("a track is current");
    assert_eq!(request.track, track("A", 180));
    assert!(load(&mut engine, Some(request)));
    // the displaced track plays next
    assert!(advance(&mut engine));
    assert_eq!(current(&engine), Some("B".to_owned()));
}

#[test]
fn prev_without_anything_does_nothing() {
    let mut engine = MediaSystem::new(true);
    assert!(engine.play_prev().is_none());
    assert!(engine.state().current_track.is_none());
}

#[test]
fn repeat_cycles_through_modes() {
    let mut engine = MediaSystem::new(true);
    assert_eq!(engine.toggle_repeat(), Repeat::One);
    assert_eq!(engine.toggle_repeat(), Repeat::All);
    assert_eq!(engine.toggle_repeat(), Repeat::Off);
    assert_eq!(engine.state().repeat, Repeat::Off);
    engine.set_repeat(Repeat::All);
    assert_eq!(engine.state().repeat, Repeat::All);
    assert_eq!(Repeat::default(), Repeat::Off);
    assert_eq!(Repeat::One.next(), Repeat::All);
}

#[test]
fn repeat_one_reloads_same_track() {
    let mut engine = started(&["A", "B", "C"], true);
    engine.set_repeat(Repeat::One);
    for _ in 0..5 {
        let request = engine.play_next(true).expect("a track is current");
        assert_eq!(request.track, track("A", 180));
        assert!(load(&mut engine, Some(request)));
        assert_eq!(current(&engine), Some("A".to_owned()));
    }
    // neither the queue nor the history was touched
    engine.set_repeat(Repeat::Off);
    assert!(advance(&mut engine));
    assert_eq!(current(&engine), Some("B".to_owned()));
    let request = engine.play_prev().expect("history holds a track");
    assert_eq!(request.track, track("A", 180));
    assert!(load(&mut engine, Some(request)));
    let request = engine.play_prev().expect("a track is current");
    assert_eq!(request.track, track("A", 180));
}

#[test]
fn repeat_one_without_track_does_nothing() {
    let mut engine = MediaSystem::new(true);
    engine.enqueue(&track("A", 10));
    engine.set_repeat(Repeat::One);
    assert!(engine.play_next(true).is_none());
    assert!(!engine.queue_empty());
}

#[test]
fn repeat_all_closes_the_circle() {
    let mut engine = started(&["A", "B", "C"], true);
    engine.set_repeat(Repeat::All);
    let mut heard = Vec::new();
    for _ in 0..3 {
        assert!(advance(&mut engine));
        heard.push(current(&engine).unwrap());
    }
    assert_eq!(heard, vec!["B".to_owned(), "C".to_owned(), "A".to_owned()]);
    // the queue holds B, C again
    engine.set_repeat(Repeat::Off);
    assert!(advance(&mut engine));
    assert_eq!(current(&engine), Some("B".to_owned()));
    assert!(advance(&mut engine));
    assert_eq!(current(&engine), Some("C".to_owned()));
    assert!(engine.play_next(true).is_none());
}

#[test]
fn progress_adds_up_and_ends_with_sink() {
    let mut engine = started(&["A"], true);
    engine.update_progress(Duration::from_millis(1500), false);
    engine.update_progress(Duration::from_millis(700), false);
    assert_eq!(engine.state().current_track_progress, Some(Duration::from_millis(2200)));
    assert_eq!(engine.time_remaining(), Duration::from_millis(177_800));
    engine.update_progress(Duration::from_millis(1), true);
    assert!(engine.state().current_track.is_none());
    assert!(engine.state().current_track_progress.is_none());
    assert!(!engine.state().playing);
    engine.update_progress(Duration::from_millis(1), false);
    assert!(engine.state().current_track_progress.is_none());
}

#[test]
fn progress_saturates() {
    let mut engine = started(&["A"], true);
    let longest = Duration::new(u64::MAX, 999_999_999).unwrap();
    engine.update_progress(longest, false);
    engine.update_progress(Duration::from_secs(1), false);
    assert_eq!(engine.state().current_track_progress, Some(longest));
    assert_eq!(engine.time_remaining(), Duration::zero());
}

#[test]
fn ended_track_stays_under_repeat_one() {
    let mut engine = started(&["A"], true);
    engine.set_repeat(Repeat::One);
    engine.update_progress(Duration::from_secs(1), true);
    assert_eq!(current(&engine), Some("A".to_owned()));
    assert!(engine.state().current_track_progress.is_none());
    assert!(!engine.state().playing);
}

#[test]
fn gapless_advances_shortly_before_the_end() {
    // 3:00 long, 2:59.95 played
    let mut engine = started(&["A", "B"], true);
    engine.update_progress(Duration::from_millis(179_950), false);
    assert_eq!(engine.time_remaining(), Duration::from_millis(50));
    assert!(engine.auto_advance_due(false));
    // without gapless playback only an empty sink counts
    let mut engine = started(&["A", "B"], false);
    engine.update_progress(Duration::from_millis(179_950), false);
    assert!(!engine.auto_advance_due(false));
    assert!(engine.auto_advance_due(true));
}

#[test]
fn gapless_threshold_is_exact() {
    let mut engine = started(&["A", "B"], true);
    engine.update_progress(Duration::from_millis(179_900), false);
    assert_eq!(engine.time_remaining(), Duration::from_millis(100));
    assert!(!engine.auto_advance_due(true));
    engine.update_progress(Duration::new(0, 1).unwrap(), false);
    assert!(engine.auto_advance_due(false));
}

#[test]
fn no_auto_advance_with_empty_queue() {
    let mut engine = started(&["A"], true);
    engine.update_progress(Duration::from_secs(180), false);
    assert!(!engine.auto_advance_due(true));
    let mut engine = started(&["A"], false);
    assert!(!engine.auto_advance_due(true));
}

#[test]
fn tick_updates_progress_and_advances() {
    let mut engine = started(&["A", "B"], true);
    assert!(engine.tick(Duration::from_secs(10), false).is_none());
    assert_eq!(engine.state().current_track_progress, Some(Duration::from_secs(10)));
    let request = engine.tick(Duration::from_millis(169_950), false).expect("time to go on");
    assert_eq!(request.track, track("B", 180));
    assert!(!request.interrupt);
    assert!(load(&mut engine, Some(request)));
    assert_eq!(current(&engine), Some("B".to_owned()));
    assert!(engine.queue_empty());
}

#[test]
fn tick_leaves_paused_progress_alone() {
    let mut engine = started(&["A", "B"], false);
    engine.update_progress(Duration::from_secs(10), false);
    engine.pause();
    assert!(engine.tick(Duration::from_secs(10), false).is_none());
    assert_eq!(engine.state().current_track_progress, Some(Duration::from_secs(10)));
}

#[test]
fn tick_without_gapless_waits_for_sink() {
    let mut engine = started(&["A", "B"], false);
    assert!(engine.tick(Duration::from_secs(200), false).is_none());
    let request = engine.tick(Duration::from_secs(1), true).expect("sink ran empty");
    assert!(request.interrupt);
    assert_eq!(request.track, track("B", 180));
}

#[test]
fn enqueue_appends() {
    let mut engine = MediaSystem::new(true);
    engine.enqueue(&track("A", 1));
    engine.enqueue(&track("B", 1));
    assert!(!engine.queue_empty());
    assert!(advance(&mut engine));
    assert_eq!(current(&engine), Some("A".to_owned()));
    assert!(advance(&mut engine));
    assert_eq!(current(&engine), Some("B".to_owned()));
    assert!(engine.queue_empty());
}

#[test]
fn clear_queue_empties() {
    let mut engine = started(&["A", "B"], true);
    engine.clear_queue();
    assert!(engine.queue_empty());
    assert_eq!(current(&engine), Some("A".to_owned()));
    assert!(engine.play_next(true).is_none());
}

#[test]
fn empty_queueable_changes_nothing() {
    let mut engine = started(&["A", "B"], true);
    assert!(engine.enqueue_and_play(&Queueable::Empty).is_none());
    assert!(!engine.queue_empty());
    assert_eq!(current(&engine), Some("A".to_owned()));
}

#[test]
fn empty_playlist_clears_queue() {
    let mut engine = started(&["A", "B"], true);
    let request = engine.enqueue_and_play(&Queueable::Playlist(Playlist::new("none")));
    assert!(request.is_none());
    assert!(engine.queue_empty());
}

#[test]
fn queueables_expand_to_their_tracks() {
    let mut artist = Artist::default().name("Artist");
    assert!(Queueable::Artist(artist.clone()).get_tracks().is_empty());
    let mut all = Album::default().name("All Albums");
    all.tracks = tracks(&["A", "B"]);
    artist.albums.push(all);
    artist.albums.push(album(&["B"]));
    assert_eq!(Queueable::Artist(artist).get_tracks(), tracks(&["A", "B"]));
    assert_eq!(Queueable::Album(album(&["C", "A"])).get_tracks(), tracks(&["C", "A"]));
    let mut playlist = Playlist::new("mine");
    playlist.add(&mut tracks(&["B", "A"]));
    assert_eq!(Queueable::Playlist(playlist).get_tracks(), tracks(&["B", "A"]));
    assert_eq!(Queueable::TrackList(tracks(&["X"])).get_tracks(), tracks(&["X"]));
    assert!(Queueable::Empty.get_tracks().is_empty());
}

#[test]
fn enqueue_replaces_earlier_queue() {
    let mut engine = started(&["A", "B"], true);
    let request = engine.enqueue_and_play(&Queueable::TrackList(tracks(&["X", "Y"])));
    assert!(load(&mut engine, request));
    assert_eq!(current(&engine), Some("X".to_owned()));
    assert!(advance(&mut engine));
    assert_eq!(current(&engine), Some("Y".to_owned()));
    assert!(engine.play_next(true).is_none());
}

fn names(n: usize) -> Vec<String> {
    (0..n).map(|i| format!("T{i:03}")).collect()
}

fn drain(engine: &mut MediaSystem) -> Vec<String> {
    let mut heard = Vec::new();
    while advance(engine) {
        heard.push(current(engine).unwrap());
    }
    heard
}

#[test]
fn shuffle_keeps_tracks_and_changes_order() {
    let all = names(100);
    let refs: Vec<&str> = all.iter().map(|s| s.as_str()).collect();
    let mut engine = started(&refs, true);
    assert!(engine.toggle_shuffle());
    assert!(engine.state().shuffle);
    let heard = drain(&mut engine);
    let mut sorted = heard.clone();
    sorted.sort();
    assert_eq!(sorted, all[1..].to_vec());
    assert_ne!(heard, all[1..].to_vec());
}

#[test]
fn shuffle_off_resumes_after_current() {
    let mut engine = started(&["A", "B", "C", "D"], true);
    assert!(advance(&mut engine));
    assert_eq!(current(&engine), Some("B".to_owned()));
    assert!(engine.toggle_shuffle());
    assert!(!engine.toggle_shuffle());
    assert!(!engine.state().shuffle);
    assert_eq!(drain(&mut engine), vec!["C".to_owned(), "D".to_owned(), "A".to_owned(), "B".to_owned()]);
}

#[test]
fn shuffle_off_without_current_restores_order() {
    let mut engine = MediaSystem::new(true);
    for t in tracks(&["A", "B", "C"]) {
        engine.enqueue(&t);
    }
    assert!(engine.toggle_shuffle());
    assert!(!engine.toggle_shuffle());
    assert_eq!(drain(&mut engine), vec!["A".to_owned(), "B".to_owned(), "C".to_owned()]);
}

#[test]
fn shuffle_off_with_last_track_current_restores_order() {
    let mut engine = started(&["A", "B"], true);
    assert!(advance(&mut engine));
    engine.set_shuffle(true);
    assert!(!engine.toggle_shuffle());
    assert_eq!(drain(&mut engine), vec!["A".to_owned(), "B".to_owned()]);
}

#[test]
fn shuffled_album_plays_every_track_once() {
    let all = names(100);
    let refs: Vec<&str> = all.iter().map(|s| s.as_str()).collect();
    let mut engine = MediaSystem::new(true);
    engine.set_shuffle(true);
    let request = engine.enqueue_and_play(&Queueable::Album(album(&refs)));
    assert!(load(&mut engine, request));
    let mut heard = vec![current(&engine).unwrap()];
    heard.extend(drain(&mut engine));
    assert_ne!(heard, all);
    heard.sort();
    assert_eq!(heard, all);
}

#[test]
fn shuffled_track_list_keeps_first_choice() {
    let all = names(100);
    let refs: Vec<&str> = all.iter().map(|s| s.as_str()).collect();
    let mut engine = MediaSystem::new(true);
    engine.set_shuffle(true);
    let request = engine.enqueue_and_play(&Queueable::TrackList(tracks(&refs)));
    assert!(load(&mut engine, request));
    assert_eq!(current(&engine), Some("T000".to_owned()));
    let rest = drain(&mut engine);
    assert_ne!(rest, all[1..].to_vec());
    let mut sorted = rest;
    sorted.sort();
    assert_eq!(sorted, all[1..].to_vec());
}

#[test]
fn state_can_be_copied() {
    let engine = started(&["A"], true);
    let copy = engine.state().clone();
    assert_eq!(copy.current_track, Some(track("A", 180)));
    assert_eq!(copy.current_track_progress, Some(Duration::zero()));
    assert!(copy.playing);
}
