use teary_eyes::glitch::{drip_seed, glitch_drip, glitch_streak, streak_seed, Drip, Streak};
use teary_eyes::palette::Palette;

#[test]
fn seeds_scale_time_stamps() {
    assert_eq!(streak_seed(5), 61725);
    assert_eq!(drip_seed(7), 380247);
    assert_eq!(streak_seed(0), 0);
}

#[test]
fn streak_from_seed() {
    assert_eq!(
        glitch_streak(61725, 800, 600),
        Streak { x: 657, y: 241, w: 35, h: 2, color: Palette::Gray }
    );
    assert_eq!(
        glitch_streak(12345000, 800, 600),
        Streak { x: 362, y: 222, w: 33, h: 6, color: Palette::Navy }
    );
    assert_eq!(glitch_streak(2, 1, 1).color, Palette::White);
    assert_eq!(glitch_streak(3, 1, 1).color, Palette::Black);
}

#[test]
fn drip_from_seed() {
    assert_eq!(
        glitch_drip(380247, 800, 600),
        Drip { x: 330, y: 570, len: 15, stroke: 4, color: Palette::White }
    );
    assert_eq!(
        glitch_drip(162963, 800, 30),
        Drip { x: 370, y: 13, len: 29, stroke: 4, color: Palette::Navy }
    );
    assert_eq!(glitch_drip(543210, 800, 600).color, Palette::Black);
    assert_eq!(glitch_drip(543210, 800, 600).y, 43);
    assert_eq!(glitch_drip(2770371, 800, 600).color, Palette::Gray);
    assert_eq!(glitch_drip(5761, 800, 600).color, Palette::DarkGray);
    assert_eq!(glitch_drip(5762, 800, 600).color, Palette::Black);
    assert_eq!(glitch_drip(5762, 800, 600).stroke, 2);
}
