//! The floating control bar: when it hides, how it follows a drag, when the
//! layout follows the window's width, how seek previews are paced, and what a
//! click on the video does.
use vstd::prelude::*;
use crate::view::{layout_widths, player_layout};

verus! {

/// How long the pointer must rest before the controls hide.
pub const HIDE_DELAY_MS: u64 = 1500;

/// What the control bar has to do after a pointer event.
#[derive(Debug, Clone, Copy, PartialEq, Eq, Structural)]
pub struct AutohideAction {
    /// Make the controls visible and clickable.
    pub show: bool,
    /// Cancel the pending hide timer.
    pub cancel_timer: bool,
    /// Start a hide timer of [`HIDE_DELAY_MS`].
    pub schedule_hide: bool,
    /// Make the controls invisible and let clicks pass through.
    pub hide: bool,
}

/// Whether the pointer rests on the controls, and whether a hide timer runs.
#[derive(Debug, Clone, Copy, PartialEq, Eq, Structural)]
pub struct ControlsAutohide {
    pub hovered: bool,
    pub timer_pending: bool,
}

/// Showing the controls and restarting the hide timer: the timer starts only
/// while the pointer is off the controls.
pub open spec fn show_and_schedule_effect(
    before: ControlsAutohide,
    hovered: bool,
    a: AutohideAction,
    after: ControlsAutohide,
) -> bool {
    &&& a == AutohideAction {
        show: true,
        cancel_timer: before.timer_pending,
        schedule_hide: !hovered,
        hide: false,
    }
    &&& after == ControlsAutohide { hovered, timer_pending: !hovered }
}

/// The hide timer running out: the controls hide only while media plays
/// (loaded and not paused), and not while the pointer rests on them or the
/// seek bar is being dragged.
pub open spec fn timer_fired_effect(
    before: ControlsAutohide,
    seek_dragging: bool,
    playing: bool,
    a: AutohideAction,
    after: ControlsAutohide,
) -> bool {
    &&& a == AutohideAction {
        show: false,
        cancel_timer: false,
        schedule_hide: false,
        hide: !before.hovered && !seek_dragging && playing,
    }
    &&& after == ControlsAutohide { hovered: before.hovered, timer_pending: false }
}

impl ControlsAutohide {
    /// Controls without pointer and without timer.
    pub fn new() -> (s: Self)
        ensures
            s == (ControlsAutohide { hovered: false, timer_pending: false }),
    {
        ControlsAutohide { hovered: false, timer_pending: false }
    }

    fn show_and_schedule(&mut self, hovered: bool) -> (a: AutohideAction)
        ensures
            show_and_schedule_effect(*old(self), hovered, a, *final(self)),
    {
        let cancel_timer = self.timer_pending;
        self.hovered = hovered;
        self.timer_pending = !hovered;
        AutohideAction { show: true, cancel_timer, schedule_hide: !hovered, hide: false }
    }

    /// The pointer moved over the player, or entered it.
    pub fn pointer_moved(&mut self) -> (a: AutohideAction)
        ensures
            show_and_schedule_effect(*old(self), old(self).hovered, a, *final(self)),
    {
        let hovered = self.hovered;
        self.show_and_schedule(hovered)
    }

    /// The pointer entered the controls: they stay shown.
    pub fn pointer_entered_controls(&mut self) -> (a: AutohideAction)
        ensures
            show_and_schedule_effect(*old(self), true, a, *final(self)),
    {
        self.show_and_schedule(true)
    }

    /// The pointer left the controls: the hide timer starts again.
    pub fn pointer_left_controls(&mut self) -> (a: AutohideAction)
        ensures
            show_and_schedule_effect(*old(self), false, a, *final(self)),
    {
        self.show_and_schedule(false)
    }

    /// The hide timer ran out; `playing` says whether media is loaded and not
    /// paused.
    pub fn hide_timer_fired(&mut self, seek_dragging: bool, playing: bool) -> (a: AutohideAction)
        ensures
            timer_fired_effect(*old(self), seek_dragging, playing, a, *final(self)),
    {
        self.timer_pending = false;
        AutohideAction {
            show: false,
            cancel_timer: false,
            schedule_hide: false,
            hide: !self.hovered && !seek_dragging && playing,
        }
    }
}

/// While no media plays (none is loaded, or it is paused), a running-out timer
/// never hides the controls.
pub proof fn lemma_controls_stay_unless_playing(
    s: ControlsAutohide,
    seek_dragging: bool,
    a: AutohideAction,
    s2: ControlsAutohide,
)
    requires
        timer_fired_effect(s, seek_dragging, false, a, s2),
    ensures
        !a.hide,
{
}

/// While the pointer rests on the controls, neither moving it nor a timer
/// running out hides them, and no hide timer starts.
pub proof fn lemma_hovered_controls_stay(
    s: ControlsAutohide,
    seek_dragging: bool,
    playing: bool,
    a1: AutohideAction,
    s1: ControlsAutohide,
    a2: AutohideAction,
    s2: ControlsAutohide,
)
    requires
        s.hovered,
        show_and_schedule_effect(s, s.hovered, a1, s1),
        timer_fired_effect(s, seek_dragging, playing, a2, s2),
    ensures
        !a1.hide && !a1.schedule_hide && s1.hovered,
        !a2.hide && s2.hovered,
{
}

/// A coordinate `start + delta` held within `0..=max(overlay - widget, 0)`:
/// the controls stay inside the player.
pub open spec fn dragged_margin(start: i32, delta: i64, overlay: i32, widget: i32) -> int {
    let hi = if overlay - widget > 0 {
        overlay - widget
    } else {
        0
    };
    let x = start + delta;
    if x < 0 {
        0
    } else if x > hi {
        hi
    } else {
        x
    }
}

/// A drag of the control bar: whether it runs, and the margins it started from.
#[derive(Debug, Clone, Copy, PartialEq, Eq, Structural)]
pub struct ControlsDrag {
    pub dragging: bool,
    pub start_x: i32,
    pub start_y: i32,
}

impl ControlsDrag {
    /// No drag.
    pub fn new() -> (d: Self)
        ensures
            !d.dragging,
    {
        ControlsDrag { dragging: false, start_x: 0, start_y: 0 }
    }

    /// A press began a drag gesture; `inside` says whether it landed on the
    /// controls, which stand at `(x, y)`.  A drag of the controls pins them to
    /// their position and returns it as their new margins.
    pub fn begin(&mut self, inside: bool, x: i32, y: i32) -> (margins: Option<(i32, i32)>)
        ensures
            final(self).dragging == inside,
            inside ==> margins == Some((x, y)) && final(self).start_x == x && final(self).start_y == y,
            !inside ==> margins is None,
    {
        self.dragging = inside;
        if inside {
            self.start_x = x;
            self.start_y = y;
            Some((x, y))
        } else {
            None
        }
    }

    /// The pointer moved `(dx, dy)` whole pixels (rounded down) from where the
    /// drag began; the controls of size `(widget_w, widget_h)` move within an
    /// overlay of size `(overlay_w, overlay_h)`.
    pub fn update(
        &self,
        dx: i64,
        dy: i64,
        overlay_w: i32,
        overlay_h: i32,
        widget_w: i32,
        widget_h: i32,
    ) -> (margins: Option<(i32, i32)>)
        requires
            i32::MIN <= overlay_w - widget_w <= i32::MAX,
            i32::MIN <= overlay_h - widget_h <= i32::MAX,
        ensures
            !self.dragging ==> margins is None,
            self.dragging ==> margins == Some(
                (
                    dragged_margin(self.start_x, dx, overlay_w, widget_w) as i32,
                    dragged_margin(self.start_y, dy, overlay_h, widget_h) as i32,
                ),
            ),
    {
        if !self.dragging {
            return None;
        }
        Some((clamp_margin(self.start_x, dx, overlay_w, widget_w), clamp_margin(self.start_y, dy, overlay_h, widget_h)))
    }

    /// The drag ended.
    pub fn end(&mut self)
        ensures
            !final(self).dragging,
            final(self).start_x == old(self).start_x,
            final(self).start_y == old(self).start_y,
    {
        self.dragging = false;
    }
}

fn clamp_margin(start: i32, delta: i64, overlay: i32, widget: i32) -> (m: i32)
    requires
        i32::MIN <= overlay - widget <= i32::MAX,
    ensures
        m == dragged_margin(start, delta, overlay, widget),
{
    let span = overlay as i64 - widget as i64;
    let hi: i64 = if span > 0 {
        span
    } else {
        0
    };
    let x = start as i128 + delta as i128;
    if x < 0 {
        0
    } else if x > hi as i128 {
        hi as i32
    } else {
        x as i32
    }
}

/// Watches the player's width and lays it out again when it changes.
#[derive(Debug, Clone, Copy, PartialEq, Eq, Structural)]
pub struct LayoutWatch {
    pub last_width: i32,
}

impl LayoutWatch {
    /// A watch that has seen no width.
    pub fn new() -> (w: Self)
        ensures
            w.last_width == 0,
    {
        LayoutWatch { last_width: 0 }
    }

    /// The player is `width` wide: a new width above 100 pixels gives a new
    /// layout (playlist width, controls width); other widths change nothing.
    pub fn observe(&mut self, width: i32) -> (r: Option<(i32, i32)>)
        ensures
            width != old(self).last_width && width > 100 ==> final(self).last_width == width
                && match layout_widths(width) {
                Some((panel, controls)) => r == Some((panel as i32, controls as i32)),
                None => false,
            },
            !(width != old(self).last_width && width > 100) ==> *final(self) == *old(self) && r is None,
    {
        if width != self.last_width && width > 100 {
            self.last_width = width;
            player_layout(width)
        } else {
            None
        }
    }
}

/// How long seek previews are held back, so that at most one goes out in that
/// time.
pub const PREVIEW_INTERVAL_MS: u64 = 80;

/// Seek previews while the seek bar is dragged: the newest position not yet
/// sent, and whether a preview timer runs.
#[derive(Debug, Clone, Copy, PartialEq, Eq, Structural)]
pub struct SeekPreview {
    pub pending: Option<i64>,
    pub timer_active: bool,
}

/// A new preview position: it replaces any unsent one, and a timer starts if
/// none runs.
pub open spec fn preview_effect(before: SeekPreview, position_ms: i64, start_timer: bool, after: SeekPreview) -> bool {
    &&& start_timer == !before.timer_active
    &&& after == SeekPreview { pending: Some(position_ms), timer_active: true }
}

/// The preview timer ran out: the unsent position, if any, goes out.
pub open spec fn preview_timer_effect(before: SeekPreview, send: Option<i64>, after: SeekPreview) -> bool {
    &&& send == before.pending
    &&& after == SeekPreview { pending: None, timer_active: false }
}

/// The seek bar was released: the timer stops, the unsent preview is dropped,
/// and the exact position goes out.
pub open spec fn release_effect(before: SeekPreview, cancel_timer: bool, after: SeekPreview) -> bool {
    &&& cancel_timer == before.timer_active
    &&& after == SeekPreview { pending: None, timer_active: false }
}

impl SeekPreview {
    /// No preview pending and no timer.
    pub fn new() -> (p: Self)
        ensures
            p == (SeekPreview { pending: None, timer_active: false }),
    {
        SeekPreview { pending: None, timer_active: false }
    }

    /// The seek bar was dragged to `position_ms`; says whether to start the
    /// preview timer.
    pub fn preview(&mut self, position_ms: i64) -> (start_timer: bool)
        ensures
            preview_effect(*old(self), position_ms, start_timer, *final(self)),
    {
        let start_timer = !self.timer_active;
        self.pending = Some(position_ms);
        self.timer_active = true;
        start_timer
    }

    /// The preview timer ran out; returns the position to preview, if any.
    pub fn timer_fired(&mut self) -> (send: Option<i64>)
        ensures
            preview_timer_effect(*old(self), send, *final(self)),
    {
        let send = self.pending;
        self.pending = None;
        self.timer_active = false;
        send
    }

    /// The seek bar was released; says whether to cancel the preview timer.
    pub fn release(&mut self) -> (cancel_timer: bool)
        ensures
            release_effect(*old(self), cancel_timer, *final(self)),
    {
        let cancel_timer = self.timer_active;
        self.pending = None;
        self.timer_active = false;
        cancel_timer
    }
}

/// Of several previews within one timer, the newest goes out when the timer
/// runs out.
pub proof fn lemma_newest_preview_wins(
    s0: SeekPreview,
    p1: i64,
    t1: bool,
    s1: SeekPreview,
    p2: i64,
    t2: bool,
    s2: SeekPreview,
    send: Option<i64>,
    s3: SeekPreview,
)
    requires
        preview_effect(s0, p1, t1, s1),
        preview_effect(s1, p2, t2, s2),
        preview_timer_effect(s2, send, s3),
    ensures
        !t2,
        send == Some(p2),
{
}

/// After a release, a timer that still runs out sends nothing.
pub proof fn lemma_release_drops_preview(
    s0: SeekPreview,
    cancel: bool,
    s1: SeekPreview,
    send: Option<i64>,
    s2: SeekPreview,
)
    requires
        release_effect(s0, cancel, s1),
        preview_timer_effect(s1, send, s2),
    ensures
        send is None,
{
}

/// What a click on the video does.
#[derive(Debug, Clone, Copy, PartialEq, Eq, Structural)]
pub enum VideoClick {
    /// Enter fullscreen (`true`) or leave it.
    SetFullscreen(bool),
    /// Hide the playlist.
    HidePlaylist,
    /// Nothing.
    Ignore,
}

/// A double click switches fullscreen; a single click hides an open playlist.
pub fn video_click(presses: i32, is_fullscreen: bool, playlist_visible: bool) -> (r: VideoClick)
    ensures
        r == if presses == 2 {
            VideoClick::SetFullscreen(!is_fullscreen)
        } else if presses == 1 && playlist_visible {
            VideoClick::HidePlaylist
        } else {
            VideoClick::Ignore
        },
{
    if presses == 2 {
        VideoClick::SetFullscreen(!is_fullscreen)
    } else if presses == 1 && playlist_visible {
        VideoClick::HidePlaylist
    } else {
        VideoClick::Ignore
    }
}

} // verus!
