//! A verified playlist player: track selection with wrap-around cursor
//! arithmetic, and in-place access to the current track.

use vstd::prelude::*;

verus! {

/// One track of the playlist.
#[derive(Debug)]
pub struct Track {
    pub title: String,
    pub duration: u32,
    pub cursor: u32,
}

impl Track {
    /// A fresh track, with its cursor at the start.
    pub fn new(title: String, duration: u32) -> (t: Track)
        ensures
            t.title == title,
            t.duration == duration,
            t.cursor == 0,
    {
        Track { title, duration, cursor: 0 }
    }
}

/// The player: a non-empty playlist, the index of the current track, and a
/// volume setting.
#[derive(Debug)]
pub struct Player {
    pub playlist: Vec<Track>,
    pub current_track: usize,
    pub volume: u8,
}

impl Player {
    /// The playlist is never empty and the track index stays inside it.
    pub open spec fn wf(self) -> bool {
        self.playlist@.len() > 0 && self.current_track < self.playlist@.len()
    }

    /// Step to the next track, wrapping at the end of the playlist.
    pub fn next_track(&mut self)
        requires
            old(self).wf(),
        ensures
            final(self).current_track == (old(self).current_track + 1) % (
            old(self).playlist@.len() as int),
            final(self).playlist == old(self).playlist,
            final(self).volume == old(self).volume,
            final(self).wf(),
    {
        let len = self.playlist.len();
        self.current_track = (self.current_track + 1) % len;
    }

    /// Step to the previous track, wrapping at the start of the playlist.
    pub fn prev_track(&mut self)
        requires
            old(self).wf(),
        ensures
            final(self).current_track == (old(self).playlist@.len() + old(self).current_track
                - 1) % (old(self).playlist@.len() as int),
            final(self).playlist == old(self).playlist,
            final(self).volume == old(self).volume,
            final(self).wf(),
    {
        let len = self.playlist.len();
        proof {
            let l = old(self).playlist@.len() as int;
            let c = old(self).current_track as int;
            if c == 0 {
                vstd::arithmetic::div_mod::lemma_small_mod((l - 1) as nat, l as nat);
            } else {
                vstd::arithmetic::div_mod::lemma_mod_multiples_vanish(1, c - 1, l);
                vstd::arithmetic::div_mod::lemma_small_mod((c - 1) as nat, l as nat);
            }
        }
        if self.current_track == 0 {
            self.current_track = len - 1;
        } else {
            self.current_track = self.current_track - 1;
        }
    }

    /// Start playing the current track: its cursor jumps into the track.
    pub fn play(&mut self)
        requires
            old(self).wf(),
        ensures
            final(self).playlist@ == old(self).playlist@.update(
                old(self).current_track as int,
                (Track { cursor: 10, ..old(self).playlist@[old(self).current_track as int] }),
            ),
            final(self).current_track == old(self).current_track,
            final(self).volume == old(self).volume,
            final(self).wf(),
    {
        let i = self.current_track;
        self.playlist[i].cursor = 10;
    }

    /// Pause the current track: its cursor is parked mid-track.
    pub fn pause(&mut self)
        requires
            old(self).wf(),
        ensures
            final(self).playlist@ == old(self).playlist@.update(
                old(self).current_track as int,
                (Track { cursor: 43, ..old(self).playlist@[old(self).current_track as int] }),
            ),
            final(self).current_track == old(self).current_track,
            final(self).volume == old(self).volume,
            final(self).wf(),
    {
        let i = self.current_track;
        self.playlist[i].cursor = 43;
    }

    /// Rewind the current track to its start.
    pub fn rewind(&mut self)
        requires
            old(self).wf(),
        ensures
            final(self).playlist@ == old(self).playlist@.update(
                old(self).current_track as int,
                (Track { cursor: 0, ..old(self).playlist@[old(self).current_track as int] }),
            ),
            final(self).current_track == old(self).current_track,
            final(self).volume == old(self).volume,
            final(self).wf(),
    {
        let i = self.current_track;
        self.playlist[i].cursor = 0;
    }

    /// The current track.
    pub fn track(&self) -> (t: &Track)
        requires
            self.wf(),
        ensures
            *t == self.playlist@[self.current_track as int],
    {
        &self.playlist[self.current_track]
    }

    /// Exclusive access to the current track.
    pub fn track_mut(&mut self) -> (t: &mut Track)
        requires
            old(self).wf(),
        ensures
            *t == old(self).playlist@[old(self).current_track as int],
            final(self).playlist@ == old(self).playlist@.update(
                old(self).current_track as int,
                *final(t),
            ),
            final(self).current_track == old(self).current_track,
            final(self).volume == old(self).volume,
    {
        let i = self.current_track;
        &mut self.playlist[i]
    }
}

impl Default for Player {
    /// The stock four-track playlist, opened on its first track.
    fn default() -> (p: Player)
        ensures
            p.wf(),
            p.current_track == 0,
            p.volume == 25,
            p.playlist@.len() == 4,
            p.playlist@[0].title@ == "Track1"@,
            p.playlist@[1].title@ == "Track2"@,
            p.playlist@[2].title@ == "Track3"@,
            p.playlist@[3].title@ == "Track4"@,
            p.playlist@[0].duration == 180,
            p.playlist@[1].duration == 165,
            p.playlist@[2].duration == 197,
            p.playlist@[3].duration == 205,
            forall|i: int| 0 <= i < 4 ==> p.playlist@[i].cursor == 0,
    {
        let mut playlist: Vec<Track> = Vec::new();
        playlist.push(Track::new("Track1".to_owned(), 180));
        playlist.push(Track::new("Track2".to_owned(), 165));
        playlist.push(Track::new("Track3".to_owned(), 197));
        playlist.push(Track::new("Track4".to_owned(), 205));
        Player { playlist, current_track: 0, volume: 25 }
    }
}

} // verus!
