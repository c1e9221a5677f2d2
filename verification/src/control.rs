//! Player control state and the decisions driven from it: repeat-mode
//! cycling, playlist navigation (next, previous, selection, what to do when
//! a track runs out), the equalizer popup state, and seek targets. Each
//! decision is a function from plain values to plain values; performing the
//! chosen action (starting a decode, repositioning a sink) happens outside
//! this crate.

use vstd::prelude::*;

use crate::eq::BAND_COUNT;

verus! {

/// What happens when the playing track reaches its end.
#[derive(Clone, Copy, PartialEq, Eq, Structural, Debug)]
pub enum RepeatMode {
    Off,
    All,
    One,
}

/// The cycle the repeat toggle walks: Off, All, One, and around again.
pub open spec fn repeat_cycle(m: RepeatMode) -> RepeatMode {
    match m {
        RepeatMode::Off => RepeatMode::All,
        RepeatMode::All => RepeatMode::One,
        RepeatMode::One => RepeatMode::Off,
    }
}

impl RepeatMode {
    /// The mode's display name.
    pub fn label(self) -> (r: &'static str)
        ensures
            self is Off ==> r@ == "Off"@,
            self is All ==> r@ == "All"@,
            self is One ==> r@ == "One"@,
    {
        match self {
            RepeatMode::Off => "Off",
            RepeatMode::All => "All",
            RepeatMode::One => "One",
        }
    }
}

/// Advance the repeat mode one step along its cycle.
pub fn toggle_repeat(m: RepeatMode) -> (r: RepeatMode)
    ensures
        r == repeat_cycle(m),
{
    match m {
        RepeatMode::Off => RepeatMode::All,
        RepeatMode::All => RepeatMode::One,
        RepeatMode::One => RepeatMode::Off,
    }
}

/// One entry of the playlist: a display name, where the file lives, and its
/// length in whole seconds when the decoder could tell.
#[derive(Debug)]
pub struct Song {
    pub name: String,
    pub path: String,
    pub duration: Option<u64>,
}

/// State of the equalizer popup: visibility and which band is selected.
#[derive(Clone, Copy, PartialEq, Eq, Structural, Debug)]
pub struct EqState {
    pub popup_open: bool,
    pub selected_band: usize,
}

impl Default for EqState {
    /// The popup starts closed, on the first band.
    fn default() -> (s: EqState)
        ensures
            !s.popup_open,
            s.selected_band == 0,
    {
        EqState { popup_open: false, selected_band: 0 }
    }
}

impl EqState {
    /// The band names, in band order; anything past the last band has none.
    pub fn band_name(i: usize) -> (r: &'static str)
        ensures
            i == 0 ==> r@ == "Bass"@,
            i == 1 ==> r@ == "Mid"@,
            i == 2 ==> r@ == "Treble"@,
            i >= BAND_COUNT ==> r@ == "?"@,
    {
        match i {
            0 => "Bass",
            1 => "Mid",
            2 => "Treble",
            _ => "?",
        }
    }

    /// Open the popup if closed, close it if open.
    pub fn toggle_popup(&mut self)
        ensures
            final(self).popup_open == !old(self).popup_open,
            final(self).selected_band == old(self).selected_band,
    {
        self.popup_open = !self.popup_open;
    }

    /// Move the band selection down, stopping at the first band.
    pub fn select_prev_band(&mut self)
        ensures
            final(self).selected_band == if old(self).selected_band > 0 {
                old(self).selected_band - 1
            } else {
                0int
            },
            final(self).popup_open == old(self).popup_open,
    {
        if self.selected_band > 0 {
            self.selected_band = self.selected_band - 1;
        }
    }

    /// Move the band selection up, stopping at the last band.
    pub fn select_next_band(&mut self)
        ensures
            final(self).selected_band == if old(self).selected_band + 1 < BAND_COUNT as int {
                old(self).selected_band + 1
            } else {
                BAND_COUNT - 1
            },
            final(self).popup_open == old(self).popup_open,
    {
        if self.selected_band < BAND_COUNT - 1 {
            self.selected_band = self.selected_band + 1;
        } else {
            self.selected_band = BAND_COUNT - 1;
        }
    }
}

/// Which playlist entry the next-track request plays: the one after the
/// playing track; past the end, the first again only when repeating all;
/// with nothing playing, the selected entry.
pub open spec fn next_track_choice(
    n_songs: int,
    now_playing: Option<usize>,
    repeat: RepeatMode,
    selected: int,
) -> Option<usize> {
    if n_songs == 0 {
        None
    } else {
        match now_playing {
            Some(idx) => if idx + 1 < n_songs {
                Some((idx + 1) as usize)
            } else if repeat is All {
                Some(0usize)
            } else {
                None
            },
            None => if selected < n_songs {
                Some(selected as usize)
            } else {
                None
            },
        }
    }
}

/// Decide what the next-track request plays.
pub fn next_track(
    n_songs: usize,
    now_playing: Option<usize>,
    repeat: RepeatMode,
    selected: usize,
) -> (r: Option<usize>)
    requires
        now_playing is Some ==> now_playing->0 < n_songs,
    ensures
        r == next_track_choice(n_songs as int, now_playing, repeat, selected as int),
        r is Some ==> r->0 < n_songs,
{
    if n_songs == 0 {
        return None;
    }
    match now_playing {
        Some(idx) => {
            if idx + 1 < n_songs {
                Some(idx + 1)
            } else if matches!(repeat, RepeatMode::All) {
                Some(0)
            } else {
                None
            }
        },
        None => {
            if selected < n_songs {
                Some(selected)
            } else {
                None
            }
        },
    }
}

/// Which playlist entry the previous-track request plays: more than three
/// seconds in, the playing track again (a restart); otherwise the one before
/// it; before the first, the last again only when repeating all; with
/// nothing playing, the selected entry.
pub open spec fn prev_track_choice(
    n_songs: int,
    now_playing: Option<usize>,
    repeat: RepeatMode,
    selected: int,
    position_secs: int,
) -> Option<usize> {
    if n_songs == 0 {
        None
    } else {
        match now_playing {
            Some(idx) => if position_secs > 3 {
                Some(idx)
            } else if idx > 0 {
                Some((idx - 1) as usize)
            } else if repeat is All {
                Some((n_songs - 1) as usize)
            } else {
                None
            },
            None => if selected < n_songs {
                Some(selected as usize)
            } else {
                None
            },
        }
    }
}

/// Decide what the previous-track request plays.
pub fn prev_track(
    n_songs: usize,
    now_playing: Option<usize>,
    repeat: RepeatMode,
    selected: usize,
    position_secs: u64,
) -> (r: Option<usize>)
    requires
        now_playing is Some ==> now_playing->0 < n_songs,
    ensures
        r == prev_track_choice(
            n_songs as int,
            now_playing,
            repeat,
            selected as int,
            position_secs as int,
        ),
        r is Some ==> r->0 < n_songs,
{
    if n_songs == 0 {
        return None;
    }
    match now_playing {
        Some(idx) => {
            if position_secs > 3 {
                Some(idx)
            } else if idx > 0 {
                Some(idx - 1)
            } else if matches!(repeat, RepeatMode::All) {
                Some(n_songs - 1)
            } else {
                None
            }
        },
        None => {
            if selected < n_songs {
                Some(selected)
            } else {
                None
            }
        },
    }
}

/// What to do when the sink runs dry.
#[derive(Clone, Copy, PartialEq, Eq, Structural, Debug)]
pub enum EndAction {
    /// Nothing: still playing, paused, or nothing was playing.
    Continue,
    /// Start this playlist entry.
    Play(usize),
    /// Playback is over; nothing is playing any more.
    Finished,
}

/// What the end-of-track check does: nothing while samples remain or while
/// paused; repeat-one restarts the track, repeat-all plays the next entry
/// around the end, repeat-off plays the next entry and finishes at the end.
pub open spec fn track_end_choice(
    n_songs: int,
    now_playing: Option<usize>,
    sink_empty: bool,
    paused: bool,
    repeat: RepeatMode,
) -> EndAction {
    match now_playing {
        None => EndAction::Continue,
        Some(idx) => if !sink_empty || paused {
            EndAction::Continue
        } else {
            match repeat {
                RepeatMode::One => EndAction::Play(idx),
                RepeatMode::All => EndAction::Play(((idx + 1) % n_songs) as usize),
                RepeatMode::Off => if idx + 1 < n_songs {
                    EndAction::Play((idx + 1) as usize)
                } else {
                    EndAction::Finished
                },
            }
        },
    }
}

/// Decide what the periodic end-of-track check does.
pub fn check_track_end(
    n_songs: usize,
    now_playing: Option<usize>,
    sink_empty: bool,
    paused: bool,
    repeat: RepeatMode,
) -> (a: EndAction)
    requires
        now_playing is Some ==> now_playing->0 < n_songs,
    ensures
        a == track_end_choice(n_songs as int, now_playing, sink_empty, paused, repeat),
        a is Play ==> a->0 < n_songs,
{
    match now_playing {
        None => EndAction::Continue,
        Some(idx) => {
            if !sink_empty || paused {
                return EndAction::Continue;
            }
            match repeat {
                RepeatMode::One => EndAction::Play(idx),
                RepeatMode::All => EndAction::Play((idx + 1) % n_songs),
                RepeatMode::Off => {
                    if idx + 1 < n_songs {
                        EndAction::Play(idx + 1)
                    } else {
                        EndAction::Finished
                    }
                },
            }
        },
    }
}

/// Move the playlist selection down one entry, stopping at the last one;
/// with an empty playlist the selection stays put.
pub fn select_next(selected: usize, n_songs: usize) -> (r: usize)
    ensures
        n_songs == 0 ==> r == selected,
        n_songs > 0 ==> r as int == if selected + 1 < n_songs as int {
            selected + 1
        } else {
            n_songs - 1
        },
{
    if n_songs == 0 {
        selected
    } else if selected < n_songs - 1 {
        selected + 1
    } else {
        n_songs - 1
    }
}

/// Move the playlist selection up one entry, stopping at the first one;
/// with an empty playlist the selection stays put.
pub fn select_prev(selected: usize, n_songs: usize) -> (r: usize)
    ensures
        n_songs == 0 ==> r == selected,
        n_songs > 0 ==> r as int == if selected > 0 {
            selected - 1
        } else {
            0int
        },
{
    if n_songs == 0 {
        selected
    } else if selected > 0 {
        selected - 1
    } else {
        0
    }
}

/// How far one seek request jumps, in milliseconds.
pub const SEEK_STEP_MS: u64 = 5000;

/// Where a seek forward lands: one step ahead, capped at the track's end
/// when its length is known.
pub fn seek_forward_target(pos_ms: u64, dur_ms: Option<u64>) -> (r: u64)
    ensures
        dur_ms is None ==> r as int == if pos_ms + SEEK_STEP_MS as int <= u64::MAX as int {
            pos_ms + SEEK_STEP_MS as int
        } else {
            u64::MAX as int
        },
        dur_ms is Some ==> r as int == if pos_ms + SEEK_STEP_MS as int <= dur_ms->0 as int {
            pos_ms + SEEK_STEP_MS as int
        } else {
            dur_ms->0 as int
        },
{
    let stepped = if pos_ms <= u64::MAX - SEEK_STEP_MS {
        pos_ms + SEEK_STEP_MS
    } else {
        u64::MAX
    };
    match dur_ms {
        Some(end) => {
            if stepped <= end {
                stepped
            } else {
                end
            }
        },
        None => stepped,
    }
}

/// Where a seek backward lands: one step back, stopping at the start.
pub fn seek_backward_target(pos_ms: u64) -> (r: u64)
    ensures
        r as int == if pos_ms >= SEEK_STEP_MS as int {
            pos_ms - SEEK_STEP_MS as int
        } else {
            0int
        },
{
    if pos_ms >= SEEK_STEP_MS {
        pos_ms - SEEK_STEP_MS
    } else {
        0
    }
}

} // verus!
