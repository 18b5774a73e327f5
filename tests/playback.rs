use term_player::frame::{DecodeError, FrameStore, RasterFrame};
use term_player::player::{PlaybackStep, Player};
use term_player::render::{render_frame, LineWrite};
use term_player::schedule::{Phase, PlaybackScheduler, TickAction, TICK_PERIOD_MS};
use term_player::session::{SessionPhase, TerminalCommand, TerminalModeState, TerminalSession};

const DIRECTIVE: &str = "\x1b[38;2;";
const GLYPH: &str = "\u{2588}\u{2588}";

fn solid(width: u32, height: u32, rgba: [u8; 4]) -> RasterFrame {
    let mut pixels = Vec::new();
    for _ in 0..(width * height) {
        pixels.extend_from_slice(&rgba);
    }
    RasterFrame::new(width, height, pixels).unwrap()
}

fn directives(w: &LineWrite) -> usize {
    w.text.matches(DIRECTIVE).count()
}

/// A 1x1 GIF whose only pixel is index 0 of a red-and-black palette.
fn red_gif() -> Vec<u8> {
    let mut b = b"GIF89a".to_vec();
    b.extend_from_slice(&[1, 0, 1, 0, 0x80, 0, 0]);
    b.extend_from_slice(&[0xff, 0, 0, 0, 0, 0]);
    b.extend_from_slice(&[0x2c, 0, 0, 0, 0, 1, 0, 1, 0, 0]);
    b.extend_from_slice(&[2, 2, 0x44, 1, 0]);
    b.push(0x3b);
    b
}

#[test]
fn three_frames_render_three_times_then_end() {
    let frames = vec![solid(2, 2, [1, 2, 3, 255]), solid(2, 2, [4, 5, 6, 255]), solid(2, 2, [7, 8, 9, 255])];
    let mut player = Player::new(FrameStore::new(frames)).unwrap();
    assert_eq!(player.begin().len(), 4);
    let mut draws = 0;
    for _ in 0..3 {
        match player.tick() {
            PlaybackStep::Draw(ws) => {
                draws += 1;
                assert_eq!(ws.len(), 2);
                for (y, w) in ws.iter().enumerate() {
                    assert_eq!(w.row as usize, y);
                    assert_eq!(w.column, 0);
                    assert_eq!(directives(w), 2);
                }
            }
            _ => panic!("expected a draw"),
        }
    }
    assert_eq!(draws, 3);
    match player.tick() {
        PlaybackStep::Teardown(cs) => assert_eq!(cs.len(), 5),
        _ => panic!("expected teardown"),
    }
    assert!(matches!(player.tick(), PlaybackStep::Wait));
}

#[test]
fn empty_store_ends_on_first_tick_and_tears_down_once() {
    let mut player = Player::new(FrameStore::new(Vec::new())).unwrap();
    player.begin();
    match player.tick() {
        PlaybackStep::Teardown(cs) => assert_eq!(
            cs,
            vec![
                TerminalCommand::ShowCursor,
                TerminalCommand::EnableBlinking,
                TerminalCommand::LeaveAlternateScreen,
                TerminalCommand::DisableRawMode,
                TerminalCommand::ResetForeground,
            ]
        ),
        _ => panic!("expected teardown"),
    }
    for _ in 0..3 {
        assert!(matches!(player.tick(), PlaybackStep::Wait));
    }
}

#[test]
fn red_pixel_gives_exact_color_before_glyph() {
    let f = RasterFrame::new(1, 1, vec![255, 0, 0, 255]).unwrap();
    let ws = render_frame(&f);
    assert_eq!(ws.len(), 1);
    assert_eq!(ws[0].text, format!("{}255;0;0m{}", DIRECTIVE, GLYPH));
}

#[test]
fn player_waits_until_begun() {
    let mut player = Player::new(FrameStore::new(vec![solid(1, 1, [0, 0, 0, 0])])).unwrap();
    assert!(matches!(player.tick(), PlaybackStep::Wait));
    player.begin();
    assert!(matches!(player.tick(), PlaybackStep::Draw(_)));
    assert!(!player.mode().default_foreground);
    assert!(player.begin().is_empty());
    assert!(matches!(player.tick(), PlaybackStep::Teardown(_)));
    assert_eq!(player.mode(), TerminalModeState::normal());
}

#[test]
fn player_refuses_frames_taller_than_terminal_rows() {
    let f = RasterFrame::new(0, 70000, Vec::new()).unwrap();
    assert!(Player::new(FrameStore::new(vec![f])).is_none());
}

#[test]
fn scheduler_visits_indices_in_order() {
    let frames: Vec<RasterFrame> = (0..5).map(|i| solid(1, 1, [i, i, i, 255])).collect();
    let store = FrameStore::new(frames);
    let mut s = PlaybackScheduler::new();
    assert_eq!(s.on_tick(&store), TickAction::Nothing);
    s.start();
    assert_eq!(s.phase(), Phase::Running { next: 0 });
    for i in 0..5usize {
        assert_eq!(s.on_tick(&store), TickAction::Render { index: i });
    }
    assert_eq!(s.on_tick(&store), TickAction::Finish);
    assert!(s.is_ended());
    assert_eq!(s.on_tick(&store), TickAction::Nothing);
    s.start();
    assert!(s.is_ended());
}

#[test]
fn renderer_writes_every_row_with_every_pixel() {
    let pixels = vec![
        0, 0, 0, 9, 10, 20, 30, 9, 255, 255, 255, 9, //
        7, 42, 200, 9, 100, 99, 1, 9, 5, 50, 250, 9,
    ];
    let f = RasterFrame::new(3, 2, pixels).unwrap();
    let ws = render_frame(&f);
    assert_eq!(ws.len(), 2);
    assert_eq!((ws[0].row, ws[0].column), (0, 0));
    assert_eq!((ws[1].row, ws[1].column), (1, 0));
    assert_eq!(directives(&ws[0]), 3);
    assert_eq!(directives(&ws[1]), 3);
    let d = DIRECTIVE;
    let g = GLYPH;
    assert_eq!(ws[0].text, format!("{d}0;0;0m{g}{d}10;20;30m{g}{d}255;255;255m{g}"));
    assert_eq!(ws[1].text, format!("{d}7;42;200m{g}{d}100;99;1m{g}{d}5;50;250m{g}"));
}

#[test]
fn renderer_of_empty_geometry_writes_nothing_or_empty_lines() {
    let f = RasterFrame::new(0, 0, Vec::new()).unwrap();
    assert!(render_frame(&f).is_empty());
    let f = RasterFrame::new(0, 2, Vec::new()).unwrap();
    let ws = render_frame(&f);
    assert_eq!(ws.len(), 2);
    assert!(ws.iter().all(|w| w.text.is_empty()));
}

#[test]
fn raster_frame_rejects_wrong_buffer_length() {
    assert!(RasterFrame::new(2, 2, vec![0; 15]).is_none());
    assert!(RasterFrame::new(2, 2, vec![0; 17]).is_none());
    let f = RasterFrame::new(2, 2, vec![0; 16]).unwrap();
    assert_eq!((f.width(), f.height()), (2, 2));
}

#[test]
fn frame_store_answers_absent_past_the_end() {
    let store = FrameStore::new(vec![solid(1, 1, [1, 1, 1, 1]), solid(1, 1, [2, 2, 2, 2])]);
    assert_eq!(store.len(), 2);
    assert_eq!(store.frame_at(1).unwrap().pixels, vec![2, 2, 2, 2]);
    assert!(store.frame_at(2).is_none());
    assert!(store.frame_at(usize::MAX).is_none());
}

#[test]
fn from_decoded_cuts_buffers_to_geometry() {
    let long = RasterFrame { width: 1, height: 1, pixels: vec![1, 2, 3, 4, 5, 6] };
    let store = FrameStore::from_decoded(vec![long]);
    assert_eq!(store.frame_at(0).unwrap().pixels, vec![1, 2, 3, 4]);
}

#[test]
fn gif_decodes_into_red_frame() {
    let store = FrameStore::from_gif(&red_gif()).unwrap();
    assert_eq!(store.len(), 1);
    let f = store.frame_at(0).unwrap();
    assert_eq!((f.width, f.height), (1, 1));
    assert_eq!(f.pixels, vec![255, 0, 0, 255]);
    assert_eq!(render_frame(f)[0].text, format!("{}255;0;0m{}", DIRECTIVE, GLYPH));
}

#[test]
fn garbage_is_not_a_gif() {
    assert_eq!(FrameStore::from_gif(b"not an image").err(), Some(DecodeError::InvalidImage));
    assert_eq!(FrameStore::from_gif(&[]).err(), Some(DecodeError::InvalidImage));
}

#[test]
fn session_begin_then_end_restores_mode() {
    let mut s = TerminalSession::new();
    let before = s.mode();
    assert_eq!(before, TerminalModeState::normal());
    let begin = s.begin();
    assert_eq!(
        begin,
        vec![
            TerminalCommand::EnableRawMode,
            TerminalCommand::EnterAlternateScreen,
            TerminalCommand::DisableBlinking,
            TerminalCommand::HideCursor,
        ]
    );
    assert_eq!(s.phase(), SessionPhase::Active);
    assert!(s.mode().raw_mode && s.mode().alternate_screen);
    assert!(!s.mode().cursor_visible && !s.mode().cursor_blinking);
    assert_eq!(s.end().len(), 5);
    assert_eq!(s.mode(), before);
    assert_eq!(s.phase(), SessionPhase::Ended);
}

#[test]
fn session_teardown_happens_once() {
    let mut s = TerminalSession::new();
    assert!(s.end().is_empty());
    s.begin();
    assert!(!s.end().is_empty());
    assert!(s.end().is_empty());
    assert!(s.begin().is_empty());
}

#[test]
fn mode_commands_set_their_field() {
    let m = TerminalModeState::normal().apply(TerminalCommand::HideCursor);
    assert!(!m.cursor_visible);
    assert!(m.apply(TerminalCommand::ShowCursor).cursor_visible);
}

#[test]
fn tick_period_is_fifty_ms() {
    assert_eq!(TICK_PERIOD_MS, 50);
    assert_eq!(1000 / TICK_PERIOD_MS, 20);
}

#[test]
fn abort_tears_down_once_and_stops_playback() {
    let mut player = Player::new(FrameStore::new(vec![solid(1, 1, [0, 0, 0, 0])])).unwrap();
    assert!(player.abort().is_empty());
    player.begin();
    assert_eq!(player.abort().len(), 5);
    assert!(player.abort().is_empty());
    assert!(matches!(player.tick(), PlaybackStep::Wait));
}

#[test]
fn stop_ends_only_running_scheduler() {
    let mut s = PlaybackScheduler::new();
    s.stop();
    assert_eq!(s.phase(), Phase::Idle);
    s.start();
    s.stop();
    assert_eq!(s.phase(), Phase::Ended);
}
