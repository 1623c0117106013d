use teary_eyes::palette::{Color, Palette};
use teary_eyes::playback::{ExportData, FrameData, Playback};

fn white() -> Color {
    Palette::White.color()
}

fn black() -> Color {
    Palette::Black.color()
}

fn frame(black: &[(usize, usize)], white: &[(usize, usize)]) -> FrameData {
    FrameData { black_pixels: black.to_vec(), white_pixels: white.to_vec() }
}

fn sample() -> ExportData {
    ExportData {
        width: 3,
        height: 2,
        frames: vec![
            frame(&[(0, 0), (2, 1)], &[]),
            frame(&[(1, 0)], &[(0, 0)]),
        ],
    }
}

#[test]
fn new_player_is_white_and_at_first_frame() {
    let p = Playback::new(sample());
    assert_eq!(p.width(), 3);
    assert_eq!(p.height(), 2);
    assert_eq!(p.frame_count(), 2);
    assert_eq!(p.current_frame(), 0);
    assert_eq!(p.pixels().len(), 6);
    assert!(p.pixels().iter().all(|c| *c == white()));
}

#[test]
fn advance_draws_frame_deltas_row_major() {
    let mut p = Playback::new(sample());
    p.advance();
    assert_eq!(p.current_frame(), 1);
    let w = white();
    let b = black();
    assert_eq!(p.pixels().clone(), vec![b, w, w, w, w, b]);
    p.advance();
    assert_eq!(p.current_frame(), 2);
    assert_eq!(p.pixels().clone(), vec![w, b, w, w, w, b]);
}

#[test]
fn advance_past_last_frame_restarts_on_white() {
    let mut p = Playback::new(sample());
    p.advance();
    p.advance();
    p.advance();
    assert_eq!(p.current_frame(), 1);
    let w = white();
    let b = black();
    assert_eq!(p.pixels().clone(), vec![b, w, w, w, w, b]);
}

#[test]
fn playback_repeats_after_all_frames() {
    let mut a = Playback::new(sample());
    let mut b = Playback::new(sample());
    a.advance();
    for _ in 0..3 {
        b.advance();
    }
    assert_eq!(a.current_frame(), b.current_frame());
    assert_eq!(a.pixels().clone(), b.pixels().clone());
    a.advance();
    b.advance();
    assert_eq!(a.current_frame(), b.current_frame());
    assert_eq!(a.pixels().clone(), b.pixels().clone());
}

#[test]
fn points_off_the_canvas_are_ignored() {
    let data = ExportData {
        width: 2,
        height: 2,
        frames: vec![frame(&[(2, 0), (0, 2), (5, 5), (1, 1)], &[])],
    };
    let mut p = Playback::new(data);
    p.advance();
    let w = white();
    assert_eq!(p.pixels().clone(), vec![w, w, w, black()]);
}

#[test]
fn white_point_wins_over_black_point_in_one_frame() {
    let data = ExportData {
        width: 2,
        height: 1,
        frames: vec![frame(&[(0, 0), (1, 0)], &[(1, 0)])],
    };
    let mut p = Playback::new(data);
    p.advance();
    assert_eq!(p.pixels().clone(), vec![black(), white()]);
}

#[test]
fn empty_canvas_advances_counter() {
    let data = ExportData { width: 0, height: 4, frames: vec![frame(&[(0, 0)], &[])] };
    let mut p = Playback::new(data);
    assert_eq!(p.pixels().len(), 0);
    p.advance();
    assert_eq!(p.current_frame(), 1);
    p.advance();
    assert_eq!(p.current_frame(), 1);
}

#[test]
fn canvas_stays_black_and_white() {
    let mut p = Playback::new(sample());
    for _ in 0..5 {
        p.advance();
        assert_eq!(p.pixels().len(), 6);
        assert!(p.pixels().iter().all(|c| *c == white() || *c == black()));
    }
}
