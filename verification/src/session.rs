//! Decisions that tie playback to the playback history: which position to
//! save when, and what to skip.
use vstd::prelude::*;

use crate::history::RESUME_THRESHOLD_MS;
use crate::path::{same_path, same_path_text, same_text};
use crate::state::AppState;
use crate::command::AppCommand;
use crate::event::AppEvent;
use crate::history::PlaybackHistory;

verus! {

/// The position of the current media, where it is worth saving: media is
/// loaded and the position lies beyond the resume threshold.
pub open spec fn position_worth_saving(state: AppState) -> bool {
    state.playback.current_media is Some && state.playback.position_ms > RESUME_THRESHOLD_MS
}

/// The current media and its position, where the position is worth saving.
pub fn position_to_save(state: &AppState) -> (r: Option<(String, i64)>)
    ensures
        position_worth_saving(*state) ==> r == Some(
            (state.playback.current_media->0.path, state.playback.position_ms),
        ),
        !position_worth_saving(*state) ==> r is None,
{
    match &state.playback.current_media {
        Some(media) => if state.playback.position_ms > RESUME_THRESHOLD_MS {
            Some((media.path.clone(), state.playback.position_ms))
        } else {
            None
        },
        None => None,
    }
}

/// What to do before opening a file.
#[derive(Debug)]
pub struct OpenPlan {
    /// The file is already the current media: do nothing.
    pub skip: bool,
    /// The position of the current media to save first, if any.
    pub save: Option<(String, i64)>,
}

/// Plans the opening of the file at `new_path`: opening the current media
/// again does nothing; otherwise the position of the current media is saved
/// first where it is worth saving.
pub fn before_open(state: &AppState, new_path: &String) -> (plan: OpenPlan)
    ensures
        plan.skip == (state.playback.current_media matches Some(m) && same_path(m.path@, new_path@)),
        plan.skip ==> plan.save is None,
        !plan.skip && position_worth_saving(*state) ==> plan.save == Some(
            (state.playback.current_media->0.path, state.playback.position_ms),
        ),
        !plan.skip && !position_worth_saving(*state) ==> plan.save is None,
{
    let skip = match &state.playback.current_media {
        Some(media) => same_path_text(media.path.as_str(), new_path.as_str()),
        None => false,
    };
    if skip {
        OpenPlan { skip: true, save: None }
    } else {
        OpenPlan { skip: false, save: position_to_save(state) }
    }
}

/// How far apart periodic saves lie: one for every five seconds of playback.
pub const SAVE_PERIOD_MS: i64 = 5_000;

/// Whether a tick of the event loop saves the position: media plays, unpaused,
/// at five seconds or later, and it is other media than at the last save, or
/// the position lies in another five-second period than the last save.  So the
/// first save of a file falls at the five-second mark, and then one falls in
/// every five-second period.
pub open spec fn periodic_save_due(last: Option<(String, i64)>, state: AppState) -> bool {
    &&& state.playback.current_media is Some
    &&& !state.playback.is_paused
    &&& state.playback.position_ms >= SAVE_PERIOD_MS
    &&& match last {
        None => true,
        Some((path, at)) => path@ != state.playback.current_media->0.path@ || state.playback.position_ms
            / SAVE_PERIOD_MS != at / SAVE_PERIOD_MS,
    }
}

/// The periodic save: where the position was saved last.
pub struct PeriodicSave {
    last: Option<(String, i64)>,
}

impl PeriodicSave {
    #[verifier::type_invariant]
    spec fn saved_beyond_threshold(self) -> bool {
        self.last matches Some((_, at)) ==> at > RESUME_THRESHOLD_MS
    }

    /// The media and position saved last, if any.
    pub closed spec fn last_save(self) -> Option<(String, i64)> {
        self.last
    }

    /// No save made yet.
    pub fn new() -> (p: Self)
        ensures
            p.last_save() is None,
    {
        PeriodicSave { last: None }
    }

    /// The position to save on this tick of the event loop, if a save is due;
    /// a save becomes the last save.
    pub fn periodic_save(&mut self, state: &AppState) -> (r: Option<(String, i64)>)
        ensures
            periodic_save_due(old(self).last_save(), *state) ==> {
                &&& r == Some((state.playback.current_media->0.path, state.playback.position_ms))
                &&& final(self).last_save() == r
            },
            !periodic_save_due(old(self).last_save(), *state) ==> r is None && final(self).last_save()
                == old(self).last_save(),
            old(self).last_save() matches Some((_, at)) ==> at > RESUME_THRESHOLD_MS,
            final(self).last_save() matches Some((_, at)) ==> at > RESUME_THRESHOLD_MS,
    {
        proof {
            use_type_invariant(&*self);
        }
        if state.playback.is_paused {
            return None;
        }
        let position = state.playback.position_ms;
        let media = match &state.playback.current_media {
            Some(m) => m,
            None => {
                return None;
            },
        };
        if position < SAVE_PERIOD_MS {
            return None;
        }
        let due = match &self.last {
            None => true,
            Some((path, at)) => !same_text(path.as_str(), media.path.as_str()) || position / SAVE_PERIOD_MS
                != *at / SAVE_PERIOD_MS,
        };
        if !due {
            return None;
        }
        let save = (media.path.clone(), position);
        self.last = Some((media.path.clone(), position));
        Some(save)
    }
}

/// Positions are saved every five seconds: a tick that plays media at five
/// seconds or later and saves nothing lies less than five seconds from the last
/// save, which was of the same media.
pub proof fn lemma_periodic_save_keeps_up(last: Option<(String, i64)>, state: AppState)
    requires
        state.playback.current_media is Some,
        !state.playback.is_paused,
        state.playback.position_ms >= SAVE_PERIOD_MS,
        last matches Some((_, at)) ==> at > RESUME_THRESHOLD_MS,
        !periodic_save_due(last, state),
    ensures
        last matches Some((path, at)) && path@ == state.playback.current_media->0.path@
            && state.playback.position_ms - at < SAVE_PERIOD_MS && at - state.playback.position_ms
            < SAVE_PERIOD_MS,
{
    let pos = state.playback.position_ms;
    let at: i64 = match last {
        Some((_, a)) => a,
        None => 0,
    };
    assert(pos / SAVE_PERIOD_MS == at / SAVE_PERIOD_MS);
    assert(pos - at < SAVE_PERIOD_MS && at - pos < SAVE_PERIOD_MS) by (nonlinear_arith)
        requires
            pos / 5000 == at / 5000,
            pos > 0,
            at > 0,
    ;
}

/// The paths of the media that `events` report loaded, in order.
pub open spec fn loaded_paths(events: Seq<AppEvent>) -> Seq<Seq<char>>
    decreases events.len(),
{
    if events.len() == 0 {
        Seq::empty()
    } else {
        let rest = loaded_paths(events.drop_last());
        match events.last() {
            AppEvent::PlaybackLoaded { media } => rest.push(media.path@),
            _ => rest,
        }
    }
}

/// The resume that follows a load: the media whose saved position is still to
/// be sought, and whether playback pauses once it is (when the last media is
/// restored at startup).
pub struct ResumeSession {
    pub pending: Option<String>,
    pub pause_after_resume: bool,
}

/// The commands that resume `path`: seek to its saved position, if any, then
/// pause if asked.
pub open spec fn resume_commands_for(resume: Option<i64>, pause: bool) -> Seq<AppCommand> {
    let seek = match resume {
        Some(pos) => seq![AppCommand::SeekAbsolute(pos)],
        None => Seq::empty(),
    };
    if pause {
        seek.push(AppCommand::TogglePause)
    } else {
        seek
    }
}

impl ResumeSession {
    /// No resume pending.
    pub fn new() -> (s: Self)
        ensures
            s.pending is None,
            !s.pause_after_resume,
    {
        ResumeSession { pending: None, pause_after_resume: false }
    }

    /// The last media is being restored at startup: pause once it resumed.
    pub fn restore_paused(&mut self)
        ensures
            final(self).pause_after_resume,
            final(self).pending == old(self).pending,
    {
        self.pause_after_resume = true;
    }

    /// Takes in the events of a tick: returns the paths that loaded, each to
    /// be remembered as the last media, and keeps the last of them to resume.
    pub fn note_loaded(&mut self, events: &Vec<AppEvent>) -> (paths: Vec<String>)
        ensures
            crate::playlist::texts(paths@) == loaded_paths(events@),
            paths@.len() > 0 ==> final(self).pending == Some(paths@.last()),
            paths@.len() == 0 ==> final(self).pending == old(self).pending,
            final(self).pause_after_resume == old(self).pause_after_resume,
    {
        let mut paths: Vec<String> = Vec::new();
        let mut i: usize = 0;
        while i < events.len()
            invariant
                i <= events.len(),
                crate::playlist::texts(paths@) == loaded_paths(events@.subrange(0, i as int)),
                paths@.len() > 0 ==> self.pending == Some(paths@.last()),
                paths@.len() == 0 ==> self.pending == old(self).pending,
                self.pause_after_resume == old(self).pause_after_resume,
            decreases events.len() - i,
        {
            let ghost before = events@.subrange(0, i as int);
            assert(events@.subrange(0, i + 1).drop_last() =~= before);
            match &events[i] {
                AppEvent::PlaybackLoaded { media } => {
                    let ghost old_paths = crate::playlist::texts(paths@);
                    paths.push(media.path.clone());
                    self.pending = Some(media.path.clone());
                    assert(crate::playlist::texts(paths@) =~= old_paths.push(media.path@));
                },
                _ => {},
            }
            assert(crate::playlist::texts(paths@) =~= loaded_paths(events@.subrange(0, i + 1)));
            i = i + 1;
        }
        assert(events@.subrange(0, events.len() as int) =~= events@);
        paths
    }

    /// After the events of a tick are applied: the commands that resume the
    /// pending media, which is then no longer pending.  A pause requested for
    /// the startup restore is spent with it.
    pub fn resume_commands(&mut self, history: &PlaybackHistory) -> (cmds: Vec<AppCommand>)
        ensures
            final(self).pending is None,
            match old(self).pending {
                Some(p) => {
                    &&& cmds@ == resume_commands_for(history.resume_position(p@), old(self).pause_after_resume)
                    &&& !final(self).pause_after_resume
                },
                None => cmds@.len() == 0 && final(self).pause_after_resume == old(self).pause_after_resume,
            },
    {
        let mut cmds: Vec<AppCommand> = Vec::new();
        let pending = self.pending.take();
        match pending {
            Some(p) => {
                match history.get_position(p.as_str()) {
                    Some(pos) => cmds.push(AppCommand::SeekAbsolute(pos)),
                    None => {},
                }
                if self.pause_after_resume {
                    self.pause_after_resume = false;
                    cmds.push(AppCommand::TogglePause);
                }
                assert(cmds@ =~= resume_commands_for(history.resume_position(p@), old(self).pause_after_resume));
            },
            None => {},
        }
        cmds
    }
}

/// What to open at startup.
pub struct StartupPlan {
    /// The file to open, if any.
    pub open: Option<String>,
    /// Whether it is the last media, restored paused at its saved position.
    pub restore: bool,
}

/// At startup, a file named on the command line opens; otherwise the last
/// media restores, if it still exists.
pub fn startup_plan(cli_path: Option<String>, last_media: Option<String>, last_media_exists: bool) -> (plan:
    StartupPlan)
    ensures
        cli_path is Some ==> plan.open == cli_path && !plan.restore,
        cli_path is None && last_media is Some && last_media_exists ==> plan.open == last_media
            && plan.restore,
        cli_path is None && !(last_media is Some && last_media_exists) ==> plan.open is None
            && !plan.restore,
{
    match cli_path {
        Some(p) => StartupPlan { open: Some(p), restore: false },
        None => match last_media {
            Some(m) => if last_media_exists {
                StartupPlan { open: Some(m), restore: true }
            } else {
                StartupPlan { open: None, restore: false }
            },
            None => StartupPlan { open: None, restore: false },
        },
    }
}

/// Media that loads after its position was saved beyond the resume threshold
/// resumes there first: the first resume command seeks to the saved position,
/// and a restore at startup pauses after it.
pub proof fn lemma_loaded_media_resumes_at_saved_position(
    before: PlaybackHistory,
    after: PlaybackHistory,
    path: Seq<char>,
    position_ms: i64,
    pause: bool,
)
    requires
        PlaybackHistory::save_effect(before, path, position_ms, after),
        position_ms > RESUME_THRESHOLD_MS,
    ensures
        resume_commands_for(after.resume_position(path), pause)[0] == AppCommand::SeekAbsolute(
            position_ms,
        ),
        pause ==> resume_commands_for(after.resume_position(path), pause) == seq![
            AppCommand::SeekAbsolute(position_ms),
            AppCommand::TogglePause,
        ],
{
    let other = path.push('/');
    assert(other.len() != path.len());
    crate::history::lemma_saved_position_is_resumed(before, after, path, position_ms, other);
    assert(seq![AppCommand::SeekAbsolute(position_ms)].push(AppCommand::TogglePause) =~= seq![
        AppCommand::SeekAbsolute(position_ms),
        AppCommand::TogglePause,
    ]);
}

} // verus!
