//! Media playback inhibits idling: the timer is paused while any player
//! plays.

use crate::actions::Effect;
use crate::edge::{apply_edge, detect_edge, edge_between, edge_effects, edge_state};
use crate::idle_timer::IdleTimer;
use vstd::prelude::*;

verus! {

/// What a media player reports of itself.
#[derive(Clone, Copy, Debug, PartialEq, Eq, Structural)]
pub enum PlaybackStatus {
    Playing,
    Paused,
    Stopped,
}

/// Whether one of the players plays. A player whose status could not be had
/// counts as not playing.
pub open spec fn some_player_plays(statuses: Seq<Option<PlaybackStatus>>) -> bool {
    exists|i: int| 0 <= i < statuses.len() && #[trigger] statuses[i] == Some(PlaybackStatus::Playing)
}

pub fn any_playing(statuses: &Vec<Option<PlaybackStatus>>) -> (r: bool)
    ensures
        r == some_player_plays(statuses@),
{
    let mut i: usize = 0;
    while i < statuses.len()
        invariant
            i <= statuses.len(),
            forall|j: int| 0 <= j < i ==> #[trigger] statuses@[j] != Some(PlaybackStatus::Playing),
        decreases statuses.len() - i,
    {
        match statuses[i] {
            Some(PlaybackStatus::Playing) => {
                return true;
            },
            _ => {},
        }
        i += 1;
    }
    false
}

/// Remembers whether media played at the last look.
#[derive(Debug)]
pub struct MediaMonitor {
    pub media_playing: bool,
}

impl MediaMonitor {
    pub fn new() -> (m: Self)
        ensures
            !m.media_playing,
    {
        MediaMonitor { media_playing: false }
    }

    /// One look at the players at `now`: the timer is paused when playback
    /// began since the last look and resumed when it ended.
    pub fn update(
        &mut self,
        timer: &mut IdleTimer,
        statuses: &Vec<Option<PlaybackStatus>>,
        now: u64,
    ) -> (effects: Vec<Effect>)
        ensures
            final(self).media_playing == some_player_plays(statuses@),
            final(timer)@ == edge_state(
                old(timer)@,
                edge_between(old(self).media_playing, some_player_plays(statuses@)),
                now,
            ),
            effects.deep_view() == edge_effects(
                old(timer)@,
                edge_between(old(self).media_playing, some_player_plays(statuses@)),
            ),
    {
        let playing = any_playing(statuses);
        let edge = detect_edge(self.media_playing, playing);
        self.media_playing = playing;
        apply_edge(timer, edge, now)
    }
}

} // verus!
