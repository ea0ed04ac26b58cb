//! An in-memory FIFO of track identifiers.
use std::collections::VecDeque;
use vstd::prelude::*;

verus! {

/// The ordered sequence of pending tracks. The front, if any, is the track
/// currently loaded on the audio worker (or the one most recently loaded).
#[derive(Clone)]
pub struct Queue {
    song_queue: VecDeque<String>,
}

impl View for Queue {
    type V = Seq<Seq<char>>;

    closed spec fn view(&self) -> Seq<Seq<char>> {
        self.song_queue@.map_values(|s: String| s@)
    }
}

impl Queue {
    /// An empty queue.
    pub fn new() -> (q: Queue)
        ensures
            q@ == Seq::<Seq<char>>::empty(),
    {
        Queue { song_queue: VecDeque::new() }
    }

    /// Appends a track at the back.
    pub fn add(&mut self, song: String)
        ensures
            final(self)@ == old(self)@.push(song@),
    {
        self.song_queue.push_back(song);
        assert(self@ =~= old(self)@.push(song@));
    }

    /// Removes the front track and hands it back; on an empty queue nothing
    /// changes and `None` comes back.
    pub fn pop(&mut self) -> (r: Option<String>)
        ensures
            old(self)@.len() == 0 ==> r is None && final(self)@ == old(self)@,
            old(self)@.len() > 0 ==> r is Some && r->Some_0@ == old(self)@[0] && final(self)@
                == old(self)@.drop_first(),
    {
        let r = self.song_queue.pop_front();
        assert(self@ =~= old(self)@.drop_first() || old(self)@.len() == 0);
        r
    }

    /// Removes every track.
    pub fn clear(&mut self)
        ensures
            final(self)@ == Seq::<Seq<char>>::empty(),
    {
        self.song_queue.clear();
        assert(self@ =~= Seq::<Seq<char>>::empty());
    }

    /// The number of tracks.
    pub fn len(&self) -> (n: usize)
        ensures
            n == self@.len(),
    {
        self.song_queue.len()
    }

    /// Whether the queue holds no track.
    pub fn is_empty(&self) -> (b: bool)
        ensures
            b == (self@.len() == 0),
    {
        self.song_queue.len() == 0
    }

    /// The track at `index`, if there is one.
    pub fn get(&self, index: usize) -> (r: Option<String>)
        ensures
            index < self@.len() ==> r is Some && r->Some_0@ == self@[index as int],
            index >= self@.len() ==> r is None,
    {
        if index < self.song_queue.len() {
            Some(self.song_queue[index].clone())
        } else {
            None
        }
    }

    /// The front track (the current one), if any.
    pub fn get_current_song(&self) -> (r: Option<String>)
        ensures
            self@.len() > 0 ==> r is Some && r->Some_0@ == self@[0],
            self@.len() == 0 ==> r is None,
    {
        self.get(0)
    }

    /// The track after the front one (the next to play), if any.
    pub fn get_next_song(&self) -> (r: Option<String>)
        ensures
            self@.len() > 1 ==> r is Some && r->Some_0@ == self@[1],
            self@.len() <= 1 ==> r is None,
    {
        self.get(1)
    }

    /// The tracks, front first.
    pub fn get_queue(&self) -> (v: Vec<String>)
        ensures
            v@.map_values(|s: String| s@) == self@,
    {
        let mut v: Vec<String> = Vec::new();
        let n = self.song_queue.len();
        let mut i: usize = 0;
        while i < n
            invariant
                n == self@.len(),
                i <= n,
                v@.map_values(|s: String| s@) == self@.subrange(0, i as int),
            decreases n - i,
        {
            let ghost before = v@;
            v.push(self.song_queue[i].clone());
            assert(v@.map_values(|s: String| s@) =~= before.map_values(|s: String| s@).push(
                self@[i as int],
            ));
            assert(self@.subrange(0, i + 1) =~= self@.subrange(0, i as int).push(self@[i as int]));
            i = i + 1;
        }
        assert(v@.map_values(|s: String| s@) =~= self@);
        v
    }
}

/// The queue after appending `items` one by one, each with `add`.
pub open spec fn appended(q: Seq<Seq<char>>, items: Seq<Seq<char>>) -> Seq<Seq<char>>
    decreases items.len(),
{
    if items.len() == 0 {
        q
    } else {
        appended(q, items.drop_last()).push(items.last())
    }
}

/// Appending keeps order: after any run of `add`, the queue is what it held
/// before followed by the added tracks in the order they were added; from an
/// empty queue, exactly the order of the additions.
pub proof fn lemma_fifo_order(q: Seq<Seq<char>>, items: Seq<Seq<char>>)
    ensures
        appended(q, items) == q + items,
        appended(Seq::empty(), items) == items,
    decreases items.len(),
{
    if items.len() > 0 {
        lemma_fifo_order(q, items.drop_last());
        lemma_fifo_order(Seq::empty(), items.drop_last());
        assert(q + items =~= (q + items.drop_last()).push(items.last()));
        assert(items =~= items.drop_last().push(items.last()));
    } else {
        assert(q + items =~= q);
    }
}

} // verus!
