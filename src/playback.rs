//! The play queue, the current song and the transport controls.
use vstd::prelude::*;
use crate::catalog::{song_of, views, Catalog, MetaView, SearchType, Song, SongMeta, song_matches, sorted_by_title};
use crate::controller::SeekableAudio;
use crate::cursor::Pull;
use crate::media::MAX_NANOS;
use crate::store::AudioBuffer;

verus! {

broadcast use vstd::seq_lib::group_seq_properties;

/// Outcome of moving through the queue.
#[derive(Clone, Copy, Debug, PartialEq, Eq, Structural)]
pub enum GetReturn {
    Moved,
    QueueEmpty,
}

/// A snapshot of the player for clients.
pub struct Status {
    pub current_song: Option<Song>,
    pub queue: Vec<Song>,
    pub current_idx: usize,
    pub is_paused: bool,
    /// Playback position in nanoseconds.
    pub position: u128,
}

/// Queue position `n` songs after `i` in a queue of `len` songs, wrapping round.
pub open spec fn next_index(i: int, n: int, len: int) -> int {
    (i + n) % len
}

/// Queue position `n` songs before `i` in a queue of `len` songs, wrapping round.
pub open spec fn prev_index(i: int, n: int, len: int) -> int {
    (i + len - (n % len)) % len
}

/// The player: catalog, queue, current song, the output's paused flag and
/// the controller of the current song.
///
/// With an empty queue the player is idle: no current song, no controller,
/// position zero. Otherwise the current song is the queue's entry at
/// `current_idx`. `generation` counts the controllers opened, so that a reader
/// of an earlier song's samples can tell that it is no longer wanted.
pub struct StateStruct {
    pub current_song: Option<SongMeta>,
    pub queue: Vec<SongMeta>,
    pub current_idx: usize,
    pub index: Catalog,
    pub paused: bool,
    pub audio: Option<SeekableAudio>,
    pub generation: u64,
}

impl StateStruct {
    pub open spec fn wf(&self) -> bool {
        &&& self.index.wf()
        &&& self.audio matches Some(a) ==> a.wf()
        &&& if self.queue@.len() == 0 {
            &&& self.current_song is None
            &&& self.audio is None
            &&& self.current_idx == 0
        } else {
            &&& self.current_idx < self.queue@.len()
            &&& self.current_song matches Some(c) && c@ == self.queue@[self.current_idx as int]@
        }
    }

    /// The player is idle.
    pub open spec fn is_idle(&self) -> bool {
        &&& self.queue@.len() == 0
        &&& self.current_idx == 0
        &&& self.current_song is None
        &&& self.audio is None
    }

    /// An idle player over `index`.
    pub fn new(index: Catalog) -> (r: StateStruct)
        requires
            index.wf(),
        ensures
            r.wf(),
            r.is_idle(),
            r.index == index,
            !r.paused,
    {
        StateStruct {
            current_song: None,
            queue: Vec::new(),
            current_idx: 0,
            index,
            paused: false,
            audio: None,
            generation: 0,
        }
    }

    /// Appends the catalog entry with id `id` to the queue. `None` when the
    /// catalog has no such entry, and then nothing changes. Otherwise
    /// `Some(started)`, where `started` says that the queue was empty: the new
    /// entry is then the current song, and a controller should be opened for it.
    pub fn enqueue(&mut self, id: u128) -> (r: Option<bool>)
        requires
            old(self).wf(),
        ensures
            final(self).wf(),
            final(self).index == old(self).index,
            final(self).paused == old(self).paused,
            final(self).generation == old(self).generation,
            r is None <==> (forall|i: int| 0 <= i < old(self).index.entries().len()
                ==> (#[trigger] old(self).index.entries()[i]).id != id),
            r is None ==> *final(self) == *old(self),
            r matches Some(started) ==> {
                &&& started == (old(self).queue@.len() == 0)
                &&& final(self).queue@.len() == old(self).queue@.len() + 1
                &&& views(final(self).queue@).drop_last() == views(old(self).queue@)
                &&& final(self).queue@.last().id == id
                &&& exists|i: int| 0 <= i < old(self).index.entries().len()
                        && (#[trigger] old(self).index.entries()[i])@ == final(self).queue@.last()@
                &&& if started {
                    &&& final(self).current_idx == 0
                    &&& final(self).current_song matches Some(c) && c@ == final(self).queue@[0]@
                    &&& final(self).audio is None
                } else {
                    &&& final(self).current_idx == old(self).current_idx
                    &&& final(self).current_song == old(self).current_song
                    &&& final(self).audio == old(self).audio
                }
            },
    {
        let found = self.index.find(id);
        match found {
            None => None,
            Some(i) => {
                let started = self.queue.len() == 0;
                let entry = self.index.entry(i).copy();
                let ghost before = self.queue@;
                if started {
                    let cur = entry.copy();
                    self.current_song = Some(cur);
                    self.current_idx = 0;
                }
                self.queue.push(entry);
                proof {
                    assert(views(self.queue@).drop_last() =~= views(before));
                    if !started {
                        assert(self.queue@[self.current_idx as int] == before[self.current_idx as int]);
                    }
                }
                Some(started)
            },
        }
    }

    /// Attaches the controller opened for the current song and starts the
    /// output. `None` means that opening failed: then nothing changes. An idle
    /// player takes no controller.
    pub fn add(&mut self, opened: Option<SeekableAudio>)
        requires
            old(self).wf(),
            opened matches Some(a) ==> a.wf(),
        ensures
            final(self).wf(),
            final(self).queue == old(self).queue,
            final(self).current_idx == old(self).current_idx,
            final(self).current_song == old(self).current_song,
            final(self).index == old(self).index,
            (opened is None || old(self).queue@.len() == 0) ==> *final(self) == *old(self),
            (opened is Some && old(self).queue@.len() > 0) ==> {
                &&& final(self).audio == opened
                &&& !final(self).paused
                &&& final(self).generation == if old(self).generation == u64::MAX {
                    0
                } else {
                    (old(self).generation + 1) as u64
                }
            },
    {
        if self.queue.len() > 0 {
            if let Some(a) = opened {
                self.audio = Some(a);
                self.paused = false;
                self.generation = if self.generation == u64::MAX { 0 } else { self.generation + 1 };
            }
        }
    }

    /// Moves `n` songs forward through the queue, wrapping round, and makes
    /// that entry current; a controller should then be opened for it.
    pub fn next(&mut self, n: usize) -> (r: GetReturn)
        requires
            old(self).wf(),
        ensures
            final(self).wf(),
            final(self).queue == old(self).queue,
            final(self).index == old(self).index,
            final(self).paused == old(self).paused,
            final(self).audio == old(self).audio,
            final(self).generation == old(self).generation,
            old(self).queue@.len() == 0 ==> r == GetReturn::QueueEmpty && *final(self) == *old(self),
            old(self).queue@.len() > 0 ==> r == GetReturn::Moved && final(self).current_idx == next_index(
                old(self).current_idx as int,
                n as int,
                old(self).queue@.len() as int,
            ),
    {
        let len = self.queue.len();
        if len == 0 {
            return GetReturn::QueueEmpty;
        }
        let i = ((self.current_idx as u128 + (n % len) as u128) % len as u128) as usize;
        proof {
            let (c, m, l) = (self.current_idx as int, n as int, len as int);
            vstd::arithmetic::div_mod::lemma_add_mod_noop(c, m, l);
            vstd::arithmetic::div_mod::lemma_mod_twice(c, l);
            vstd::arithmetic::div_mod::lemma_small_mod(c as nat, l as nat);
        }
        self.current_idx = i;
        self.current_song = Some(self.queue[i].copy());
        GetReturn::Moved
    }

    /// Moves `n` songs back through the queue, wrapping round, and makes
    /// that entry current; a controller should then be opened for it.
    pub fn prev(&mut self, n: usize) -> (r: GetReturn)
        requires
            old(self).wf(),
        ensures
            final(self).wf(),
            final(self).queue == old(self).queue,
            final(self).index == old(self).index,
            final(self).paused == old(self).paused,
            final(self).audio == old(self).audio,
            final(self).generation == old(self).generation,
            old(self).queue@.len() == 0 ==> r == GetReturn::QueueEmpty && *final(self) == *old(self),
            old(self).queue@.len() > 0 ==> r == GetReturn::Moved && final(self).current_idx == prev_index(
                old(self).current_idx as int,
                n as int,
                old(self).queue@.len() as int,
            ),
    {
        let len = self.queue.len();
        if len == 0 {
            return GetReturn::QueueEmpty;
        }
        let i = ((self.current_idx as u128 + len as u128 - (n % len) as u128) % len as u128) as usize;
        self.current_idx = i;
        self.current_song = Some(self.queue[i].copy());
        GetReturn::Moved
    }

    /// Empties the queue and drops the current song and its controller; the
    /// output is left cleared and not paused.
    pub fn clear(&mut self)
        requires
            old(self).wf(),
        ensures
            final(self).wf(),
            final(self).is_idle(),
            !final(self).paused,
            final(self).index == old(self).index,
            final(self).generation == old(self).generation,
    {
        self.queue = Vec::new();
        self.current_song = None;
        self.current_idx = 0;
        self.audio = None;
        self.paused = false;
    }

    /// Flips the output between paused and playing; returns whether it is now paused.
    pub fn pause(&mut self) -> (r: bool)
        ensures
            r == final(self).paused,
            final(self).paused == !old(self).paused,
            final(self).queue == old(self).queue,
            final(self).current_idx == old(self).current_idx,
            final(self).current_song == old(self).current_song,
            final(self).audio == old(self).audio,
            final(self).index == old(self).index,
            final(self).generation == old(self).generation,
    {
        self.paused = !self.paused;
        self.paused
    }

    pub fn is_paused(&self) -> (r: bool)
        ensures
            r == self.paused,
    {
        self.paused
    }

    /// Playback position of the current controller, zero when there is none.
    pub fn position(&self) -> (r: u128)
        requires
            self.wf(),
        ensures
            r == match self.audio {
                Some(a) => a.position(),
                None => 0,
            },
    {
        match &self.audio {
            Some(a) => a.get_position(),
            None => 0,
        }
    }

    /// Moves playback of the current song to `t` nanoseconds; with no
    /// controller there is nothing to move.
    pub fn seek(&mut self, t: u128)
        requires
            old(self).wf(),
            t <= MAX_NANOS,
        ensures
            final(self).wf(),
            final(self).queue == old(self).queue,
            final(self).current_idx == old(self).current_idx,
            final(self).current_song == old(self).current_song,
            final(self).paused == old(self).paused,
            final(self).index == old(self).index,
            final(self).generation == old(self).generation,
            old(self).audio is None ==> final(self).audio is None,
            old(self).audio matches Some(a) ==> (final(self).audio matches Some(b) && b.format() == a.format()
                && (b.source() matches Some(c) && c.offset() == crate::media::index_for_time(a.format(), t as int))),
    {
        match self.audio.take() {
            Some(a) => {
                let mut a = a;
                a.seek(t);
                self.audio = Some(a);
            },
            None => {},
        }
    }

    /// Pulls the next sample for the output from the current controller.
    /// `generation` and `buf` are those the reader was started with; a reader
    /// of a replaced controller, or of a store in another format, is at its end.
    pub fn pull<S: Copy>(&mut self, generation: u64, buf: &AudioBuffer<S>) -> (r: Pull<S>)
        requires
            old(self).wf(),
        ensures
            final(self).wf(),
            final(self).queue == old(self).queue,
            final(self).current_idx == old(self).current_idx,
            final(self).current_song == old(self).current_song,
            final(self).paused == old(self).paused,
            final(self).index == old(self).index,
            final(self).generation == old(self).generation,
            final(self).audio is Some == old(self).audio is Some,
            (generation != old(self).generation || old(self).audio is None
                || old(self).audio->0.format() != buf.format()) ==> r == Pull::<S>::End && *final(self) == *old(self),
            (generation == old(self).generation && old(self).audio is Some
                && old(self).audio->0.format() == buf.format()) ==> {
                let a = old(self).audio->0;
                let b = final(self).audio->0;
                &&& final(self).audio is Some
                &&& b.format() == a.format()
                &&& a.source() is None ==> r == Pull::<S>::End && b.source() is None
                &&& a.source() matches Some(c) ==> {
                    &&& b.source() matches Some(d)
                    &&& (c.offset() < buf.samples().len() ==> r == Pull::Sample(buf.samples()[c.offset() as int])
                        && d.offset() == c.offset() + 1)
                    &&& (c.offset() >= buf.samples().len() ==> d.offset() == c.offset() && r == if buf.complete() {
                        Pull::<S>::End
                    } else {
                        Pull::<S>::Wait
                    })
                }
            },
    {
        if generation != self.generation {
            return Pull::End;
        }
        match self.audio.take() {
            None => Pull::End,
            Some(a) => {
                let mut a = a;
                if a.stream_format() != buf.stream_format() {
                    self.audio = Some(a);
                    return Pull::End;
                }
                let r = a.next(buf);
                self.audio = Some(a);
                r
            },
        }
    }

    /// Catalog entries that match `s`, in ascending order of title.
    pub fn search(&self, s: SearchType) -> (r: Vec<SongMeta>)
        ensures
            views(r@).to_multiset() == views(self.index.entries()).filter(|m: MetaView| song_matches(s, m)).to_multiset(),
            sorted_by_title(views(r@)),
    {
        self.index.search(s)
    }

    /// A snapshot for clients: current song, queue, index, paused flag and position.
    pub fn to_status(&self) -> (r: Status)
        requires
            self.wf(),
        ensures
            r.current_idx == self.current_idx,
            r.is_paused == self.paused,
            r.position == match self.audio {
                Some(a) => a.position(),
                None => 0,
            },
            r.current_song is Some == self.current_song is Some,
            r.current_song matches Some(c) ==> c@ == song_of(self.current_song->0@),
            r.queue@.map_values(|x: Song| x@) == views(self.queue@).map_values(|m: MetaView| song_of(m)),
    {
        let mut queue: Vec<Song> = Vec::new();
        let mut i: usize = 0;
        while i < self.queue.len()
            invariant
                i <= self.queue@.len(),
                queue@.len() == i,
                forall|k: int| 0 <= k < i ==> (#[trigger] queue@[k])@ == song_of(self.queue@[k]@),
            decreases self.queue.len() - i,
        {
            queue.push(Song::from_meta(&self.queue[i]));
            i += 1;
        }
        assert(queue@.map_values(|x: Song| x@) =~= views(self.queue@).map_values(|m: MetaView| song_of(m)));
        let current_song = match &self.current_song {
            Some(m) => Some(Song::from_meta(m)),
            None => None,
        };
        Status {
            current_song,
            queue,
            current_idx: self.current_idx,
            is_paused: self.paused,
            position: self.position(),
        }
    }
}

/// Going back `n` songs right after going forward `n` songs returns to where
/// playback was, in any queue of two or more songs and for any `n`.
pub proof fn lemma_retreat_undoes_advance(i: int, n: int, len: int)
    requires
        len >= 2,
        0 <= i < len,
        n >= 0,
    ensures
        prev_index(next_index(i, n, len), n, len) == i,
{
    let j = (i + n) % len;
    let m = n % len;
    vstd::arithmetic::div_mod::lemma_add_mod_noop(i, n, len);
    vstd::arithmetic::div_mod::lemma_small_mod(i as nat, len as nat);
    vstd::arithmetic::div_mod::lemma_mod_bound(n, len);
    // j == (i + m) % len
    assert(j == (i + m) % len) by {
        vstd::arithmetic::div_mod::lemma_mod_twice(i, len);
        vstd::arithmetic::div_mod::lemma_small_mod(m as nat, len as nat);
    }
    if i + m < len {
        vstd::arithmetic::div_mod::lemma_small_mod((i + m) as nat, len as nat);
        assert(j + len - m == i + len);
        vstd::arithmetic::div_mod::lemma_mod_add_multiples_vanish(i, len);
    } else {
        vstd::arithmetic::div_mod::lemma_mod_sub_multiples_vanish(i + m, len);
        vstd::arithmetic::div_mod::lemma_small_mod((i + m - len) as nat, len as nat);
        assert(j + len - m == i);
    }
}

} // verus!
