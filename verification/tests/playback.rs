use bytes::Bytes;

use music_tui::player::{LAudioPlayer, QueueEvent};

/// A canonical 16-bit PCM WAVE file around the given sample data.
fn wav_bytes(channels: u16, sample_rate: u32, data: &[u8]) -> Vec<u8> {
    let mut v: Vec<u8> = Vec::new();
    v.extend_from_slice(b"RIFF");
    v.extend_from_slice(&((36 + data.len()) as u32).to_le_bytes());
    v.extend_from_slice(b"WAVE");
    v.extend_from_slice(b"fmt ");
    v.extend_from_slice(&16u32.to_le_bytes());
    v.extend_from_slice(&1u16.to_le_bytes());
    v.extend_from_slice(&channels.to_le_bytes());
    v.extend_from_slice(&sample_rate.to_le_bytes());
    let block_align: u16 = channels * 2;
    v.extend_from_slice(&(sample_rate * block_align as u32).to_le_bytes());
    v.extend_from_slice(&block_align.to_le_bytes());
    v.extend_from_slice(&16u16.to_le_bytes());
    v.extend_from_slice(b"data");
    v.extend_from_slice(&(data.len() as u32).to_le_bytes());
    v.extend_from_slice(data);
    v
}

fn playing_player() -> LAudioPlayer {
    let mut p = LAudioPlayer::new_idle();
    let track = wav_bytes(1, 1000, &[0u8; 8]);
    p.play(Bytes::from(track)).unwrap();
    p
}

fn log_of(p: &LAudioPlayer) -> Vec<QueueEvent> {
    let mut v: Vec<QueueEvent> = Vec::new();
    let mut i: usize = 0;
    while i < p.log_len() {
        v.push(p.log_event(i));
        i += 1;
    }
    v
}

#[test]
fn test_volume() {
    let mut p = LAudioPlayer::new_idle();
    p.increase_volume(10);
    p.decrease_volume(10);

    assert_eq!(p.volume(), 100);
}

#[test]
fn volume_never_leaves_range() {
    let mut p = LAudioPlayer::new_idle();
    assert_eq!(p.increase_volume(100), 200);
    assert_eq!(p.increase_volume(10), 200);
    assert_eq!(p.volume(), 200);
    assert_eq!(p.decrease_volume(150), 50);
    assert_eq!(p.decrease_volume(100), 0);
    assert_eq!(p.decrease_volume(10), 0);
    assert_eq!(p.volume(), 0);
}

#[test]
fn volume_clamps_when_crossing_ceiling() {
    let mut p = LAudioPlayer::new_idle();
    assert_eq!(p.increase_volume(50), 150);
    assert_eq!(p.increase_volume(100), 200);
    assert_eq!(p.volume(), 200);
}

#[test]
fn volume_changes_restart_no_session() {
    let mut p = playing_player();
    let before = log_of(&p);
    p.increase_volume(20);
    p.decrease_volume(40);
    assert_eq!(log_of(&p), before);
}

#[test]
fn pause_and_resume_are_idempotent() {
    let mut p = playing_player();
    let before = log_of(&p);
    p.resume();
    assert!(!p.is_paused());
    p.pause();
    p.pause();
    assert!(p.is_paused());
    p.resume();
    assert!(!p.is_paused());
    assert_eq!(log_of(&p), before);
}

#[test]
fn rewind_saturates_at_zero() {
    let mut p = playing_player();
    p.seek_ms(1000);
    p.rewind(5000);
    assert_eq!(p.playback_context().progress_ms, 0);
}

#[test]
fn rewind_subtracts_exactly() {
    let mut p = playing_player();
    p.seek_ms(10_000);
    p.rewind(4000);
    assert_eq!(p.playback_context().progress_ms, 6000);
}

#[test]
fn forward_advances_position() {
    let mut p = playing_player();
    p.forward(50_000);
    assert_eq!(p.playback_context().progress_ms, 50_000);
    assert_eq!(p.live_session().unwrap().start_ms, 50_000);
}

#[test]
fn progress_advances_by_one_interval_per_tick() {
    let mut p = playing_player();
    let interval = p.playback_context().sample_interval_ms;
    p.tick();
    assert_eq!(p.playback_context().progress_ms, interval);

    p.pause();
    p.tick();
    p.tick();
    assert_eq!(p.playback_context().progress_ms, interval);

    p.resume();
    p.tick();
    assert_eq!(p.playback_context().progress_ms, 2 * interval);
}

#[test]
fn seek_drains_before_restart() {
    let mut p = playing_player();
    assert_eq!(log_of(&p), vec![QueueEvent::Appended]);
    p.seek_ms(30_000);
    assert_eq!(p.playback_context().progress_ms, 30_000);
    assert_eq!(
        log_of(&p),
        vec![QueueEvent::Appended, QueueEvent::Completed, QueueEvent::Appended],
    );
    assert_eq!(p.live_session().unwrap().start_ms, 30_000);
}

#[test]
fn speed_is_captured_by_the_new_session() {
    let mut p = playing_player();
    p.speed(125);
    assert_eq!(p.playback_context().speed, 125);
    let s = p.live_session().unwrap();
    assert_eq!(s.speed, 125);
    assert_eq!(
        log_of(&p),
        vec![QueueEvent::Appended, QueueEvent::Completed, QueueEvent::Appended],
    );
}

#[test]
fn sampler_applies_gates_to_the_live_session() {
    let mut p = playing_player();
    p.set_volume(80);
    p.pause();
    p.tick();
    let s = p.live_session().unwrap();
    assert_eq!(s.gain, 80);
    assert!(s.gated_paused);
}

#[test]
fn stop_terminates_within_one_tick() {
    let mut p = playing_player();
    let before = p.playback_context().progress_ms;
    p.stop();
    assert!(p.live_session().is_some());
    p.tick();
    assert!(p.live_session().is_none());
    assert_eq!(p.playback_context().progress_ms, before);
    assert_eq!(log_of(&p), vec![QueueEvent::Appended, QueueEvent::Completed]);
}

#[test]
fn replay_restarts_after_drain() {
    let mut p = playing_player();
    p.drain_sink();
    p.tick();
    assert!(p.live_session().is_none());
    p.replay();
    assert!(!p.playback_context().stopped);
    assert!(p.live_session().is_some());
    assert_eq!(
        log_of(&p),
        vec![QueueEvent::Appended, QueueEvent::Completed, QueueEvent::Appended],
    );
}

#[test]
fn sleep_until_end_observes_completion() {
    let mut p = playing_player();
    p.sleep_until_end();
    assert!(p.live_session().is_none());
    assert_eq!(log_of(&p), vec![QueueEvent::Appended, QueueEvent::Completed]);
}

#[test]
fn decode_failure_leaves_playback_untouched() {
    let mut p = playing_player();
    p.seek_ms(7000);
    let log_before = log_of(&p);

    let r = p.play(Bytes::from(vec![1u8, 2, 3]));
    assert!(r.is_err());
    assert_eq!(p.playback_context().progress_ms, 7000);
    let t = p.current_track().as_ref().unwrap();
    assert_eq!(t.sample_rate, 1000);
    assert_eq!(t.channels, 1);
    assert_eq!(log_of(&p), log_before);
}

#[test]
fn play_replaces_the_running_track() {
    let mut p = playing_player();
    p.seek_ms(9000);
    let second = wav_bytes(2, 2000, &[1u8; 16]);
    p.play(Bytes::from(second)).unwrap();
    assert_eq!(p.playback_context().progress_ms, 0);
    let t = p.current_track().as_ref().unwrap();
    assert_eq!(t.sample_rate, 2000);
    assert_eq!(t.channels, 2);
    let s = p.live_session().unwrap();
    assert_eq!(s.start_ms, 0);
    assert_eq!(
        log_of(&p),
        vec![
            QueueEvent::Appended,
            QueueEvent::Completed,
            QueueEvent::Appended,
            QueueEvent::Completed,
            QueueEvent::Appended,
        ],
    );
}

#[test]
fn detach_leaves_enqueued_audio_running() {
    let p = playing_player();
    let rs = p.detach();
    // The controller is consumed: no stop call can reach the session any
    // more, and the session it left is still rendering, not asked to stop.
    assert!(rs.queue.live.is_some());
    assert!(!rs.context.stopped);
    assert!(!rs.queue.keep_alive);
    assert_eq!(rs.queue.log, vec![QueueEvent::Appended]);
}

#[test]
fn close_signals_stop_on_teardown() {
    let p = playing_player();
    let rs = p.close();
    assert!(rs.context.stopped);
    assert!(!rs.queue.keep_alive);
}
