use vmedia::controls::{
    video_click, AutohideAction, ControlsAutohide, ControlsDrag, LayoutWatch, SeekPreview,
    VideoClick, HIDE_DELAY_MS, PREVIEW_INTERVAL_MS,
};
use vmedia::view::player_layout;

#[test]
fn moving_the_pointer_shows_controls_and_restarts_the_timer() {
    assert_eq!(HIDE_DELAY_MS, 1500);
    let mut c = ControlsAutohide::new();
    let a = c.pointer_moved();
    assert_eq!(a, AutohideAction { show: true, cancel_timer: false, schedule_hide: true, hide: false });
    let b = c.pointer_moved();
    assert_eq!(b, AutohideAction { show: true, cancel_timer: true, schedule_hide: true, hide: false });
    let fired = c.hide_timer_fired(false, true);
    assert!(fired.hide);
    assert!(!c.timer_pending);
}

#[test]
fn hovered_controls_never_hide() {
    let mut c = ControlsAutohide::new();
    c.pointer_moved();
    let enter = c.pointer_entered_controls();
    assert!(enter.show && enter.cancel_timer && !enter.schedule_hide);
    let moved = c.pointer_moved();
    assert!(!moved.schedule_hide);
    assert!(!c.hide_timer_fired(false, true).hide);
    let leave = c.pointer_left_controls();
    assert!(leave.schedule_hide);
    assert!(c.hide_timer_fired(false, true).hide);
}

#[test]
fn controls_stay_while_seeking_or_not_playing() {
    let mut c = ControlsAutohide::new();
    c.pointer_moved();
    assert!(!c.hide_timer_fired(true, true).hide);
    c.pointer_moved();
    assert!(!c.hide_timer_fired(false, false).hide);
}

#[test]
fn dragging_keeps_the_controls_inside_the_player() {
    let mut d = ControlsDrag::new();
    assert_eq!(d.update(10, 10, 800, 600, 200, 50), None);
    assert_eq!(d.begin(false, 5, 5), None);
    assert_eq!(d.begin(true, 300, 500), Some((300, 500)));
    assert_eq!(d.update(20, -30, 800, 600, 200, 50), Some((320, 470)));
    assert_eq!(d.update(1000, 1000, 800, 600, 200, 50), Some((600, 550)));
    assert_eq!(d.update(-1000, -1000, 800, 600, 200, 50), Some((0, 0)));
    assert_eq!(d.update(0, 0, 100, 40, 200, 50), Some((0, 0)));
    assert_eq!(d.update(i64::MAX, i64::MIN, 800, 600, 200, 50), Some((600, 0)));
    d.end();
    assert_eq!(d.update(1, 1, 800, 600, 200, 50), None);
}

#[test]
fn layout_follows_width_changes_only() {
    let mut w = LayoutWatch::new();
    assert_eq!(w.observe(100), None);
    assert_eq!(w.observe(1280), player_layout(1280));
    assert!(w.observe(1280).is_none());
    assert_eq!(w.observe(1000), player_layout(1000));
    assert_eq!(w.last_width, 1000);
}

#[test]
fn seek_previews_are_paced_and_the_newest_wins() {
    assert_eq!(PREVIEW_INTERVAL_MS, 80);
    let mut p = SeekPreview::new();
    assert!(p.preview(1_000));
    assert!(!p.preview(2_000));
    assert!(!p.preview(3_000));
    assert_eq!(p.timer_fired(), Some(3_000));
    assert_eq!(p.timer_fired(), None);
    assert!(p.preview(4_000));
    assert!(p.release());
    assert_eq!(p.timer_fired(), None);
    assert!(!p.release());
}

#[test]
fn clicks_on_the_video() {
    assert_eq!(video_click(2, false, true), VideoClick::SetFullscreen(true));
    assert_eq!(video_click(2, true, false), VideoClick::SetFullscreen(false));
    assert_eq!(video_click(1, false, true), VideoClick::HidePlaylist);
    assert_eq!(video_click(1, false, false), VideoClick::Ignore);
    assert_eq!(video_click(3, false, true), VideoClick::Ignore);
}
