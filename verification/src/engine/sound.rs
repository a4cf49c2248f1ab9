//! Sound handles, the bookkeeping of sound loading and playing, and the errors
//! of the sound driver.
use vstd::prelude::*;
use crate::engine::program::first_entry;
use crate::glsl::token::string_eq;
use crate::text::{chars_of, string_of};

verus! {

/// A loaded sound, by the number it was given when it was loaded.
#[derive(Debug, Clone, Copy, PartialEq, Eq, Structural, PartialOrd, Ord)]
pub struct SoundHandle(pub usize);

/// What the sound driver reports when it cannot play.
#[derive(Debug, Clone, Copy, PartialEq, Eq, Structural)]
pub enum SoundError {
    NoError,
    NoDevice,
    OutputStream,
    UnknownStreamFormat,
}

/// A request to play the sound `id`; `settings` is how it is played (channel,
/// looping, priority, volume, balance), which only the driver reads.
#[derive(Debug)]
pub struct PlayRequest<P> {
    pub id: SoundHandle,
    pub settings: P,
}

/// The bookkeeping of the sound system: the handle given to each file, the
/// sounds still loading, the play requests waiting for their sound, and the
/// next handle to give. Reading files and driving the sound device are the
/// caller's.
pub struct SoundSystem<P> {
    pub cache: Vec<(String, SoundHandle)>,
    pub loading: Vec<SoundHandle>,
    pub pending_play: Vec<PlayRequest<P>>,
    pub next_handle: usize,
}

/// The requests among `v` whose sound is still loading (`keep`), or whose
/// sound is ready (`!keep`), in order.
pub open spec fn requests_where<P>(v: Seq<PlayRequest<P>>, loading: Seq<SoundHandle>, keep: bool) -> Seq<PlayRequest<P>>
    decreases v.len(),
{
    if v.len() == 0 {
        Seq::empty()
    } else {
        requests_where(v.drop_last(), loading, keep) + if loading.contains(v.last().id) == keep {
            seq![v.last()]
        } else {
            Seq::empty()
        }
    }
}

impl<P> SoundSystem<P> {
    /// The files hold the handles 0, 1, 2, ... in the order they were first
    /// loaded, the next handle is the number of files, every handle given so
    /// far is below it, and no sound is loading twice.
    pub open spec fn wf(&self) -> bool {
        &&& self.next_handle == self.cache@.len()
        &&& forall|i: int| 0 <= i < self.cache@.len() ==> (#[trigger] self.cache@[i]).1 == SoundHandle(i as usize)
        &&& forall|i: int| 0 <= i < self.cache@.len() ==> (#[trigger] self.cache@[i]).1.0 < self.next_handle
        &&& forall|i: int| 0 <= i < self.loading@.len() ==> (#[trigger] self.loading@[i]).0 < self.next_handle
        &&& self.loading@.no_duplicates()
    }

    /// The bookkeeping before any sound was loaded.
    pub fn new() -> (r: SoundSystem<P>)
        ensures
            r.wf(),
            r.cache@.len() == 0,
            r.loading@.len() == 0,
            r.pending_play@.len() == 0,
            r.next_handle == 0,
    {
        SoundSystem { cache: Vec::new(), loading: Vec::new(), pending_play: Vec::new(), next_handle: 0 }
    }

    fn is_loading(&self, h: SoundHandle) -> (r: bool)
        ensures
            r == self.loading@.contains(h),
    {
        let mut i: usize = 0;
        while i < self.loading.len()
            invariant
                i <= self.loading.len(),
                forall|j: int| 0 <= j < i ==> self.loading@[j] != h,
            decreases self.loading.len() - i,
        {
            if self.loading[i].0 == h.0 {
                assert(self.loading@[i as int] == h);
                return true;
            }
            i = i + 1;
        }
        false
    }

    /// The handle of the sound file `filepath`: the one it was given, or else
    /// a new handle, which is then loading; the flag says whether the caller
    /// must start loading the file for the new handle.
    pub fn load_sound(&mut self, filepath: &str) -> (r: (SoundHandle, bool))
        requires
            old(self).wf(),
            old(self).next_handle < usize::MAX,
        ensures
            final(self).wf(),
            final(self).pending_play@ == old(self).pending_play@,
            first_entry(final(self).cache@, filepath@, 0) == Some(r.0),
            match first_entry(old(self).cache@, filepath@, 0) {
                Some(h) => r == (h, false) && final(self).cache@ == old(self).cache@
                    && final(self).loading@ == old(self).loading@ && final(self).next_handle == old(self).next_handle,
                None => r == (SoundHandle(old(self).next_handle), true)
                    && final(self).next_handle == old(self).next_handle + 1
                    && final(self).cache@ == old(self).cache@.push((final(self).cache@.last().0, r.0))
                    && final(self).cache@.last().0@ == filepath@
                    && final(self).loading@ == old(self).loading@.push(r.0),
            },
    {
        let name = string_of(&chars_of(filepath));
        let mut k: usize = 0;
        while k < self.cache.len()
            invariant
                self.wf(),
                self.cache@ == old(self).cache@,
                self.loading@ == old(self).loading@,
                self.pending_play@ == old(self).pending_play@,
                self.next_handle == old(self).next_handle,
                k <= self.cache.len(),
                name@ == filepath@,
                first_entry(self.cache@, filepath@, 0) == first_entry(self.cache@, filepath@, k as int),
            decreases self.cache.len() - k,
        {
            if string_eq(&self.cache[k].0, &name) {
                return (self.cache[k].1, false);
            }
            k = k + 1;
        }
        let h = SoundHandle(self.next_handle);
        let ghost before = self.cache@;
        let ghost old_loading = self.loading@;
        proof {
            assert forall|i: int| 0 <= i < old_loading.len() implies old_loading[i] != h by {
                assert(old_loading[i].0 < self.next_handle);
            }
        }
        self.cache.push((name, h));
        self.loading.push(h);
        self.next_handle = self.next_handle + 1;
        proof {
            lemma_first_entry_push_absent(before, self.cache@.last(), filepath@, 0);
            assert(self.loading@.no_duplicates()) by {
                assert forall|a: int, b: int| 0 <= a < b < self.loading@.len() implies self.loading@[a] != self.loading@[b] by {
                    if b == self.loading@.len() - 1 {
                        assert(self.loading@[a] == old_loading[a]);
                    } else {
                        assert(self.loading@[a] == old_loading[a] && self.loading@[b] == old_loading[b]);
                    }
                }
            }
        }
        (h, true)
    }

    /// Records that the sound `h` has been loaded.
    pub fn finish_loading(&mut self, h: SoundHandle)
        requires
            old(self).wf(),
        ensures
            final(self).wf(),
            !final(self).loading@.contains(h),
            forall|g: SoundHandle| g != h ==> (final(self).loading@.contains(g) <==> old(self).loading@.contains(g)),
            final(self).cache@ == old(self).cache@,
            final(self).pending_play@ == old(self).pending_play@,
            final(self).next_handle == old(self).next_handle,
    {
        let mut i: usize = 0;
        while i < self.loading.len()
            invariant
                self.wf(),
                self.cache@ == old(self).cache@,
                self.pending_play@ == old(self).pending_play@,
                self.next_handle == old(self).next_handle,
                i <= self.loading.len(),
                self.loading@ == old(self).loading@,
                forall|j: int| 0 <= j < i ==> self.loading@[j] != h,
            decreases self.loading.len() - i,
        {
            let hi = self.loading[i];
            if hi.0 == h.0 {
                assert(hi == h);
                let ghost before = self.loading@;
                let _ = self.loading.remove(i);
                proof {
                    assert(self.loading@ =~= before.remove(i as int));
                    assert forall|j: int| 0 <= j < self.loading@.len() implies self.loading@[j] != h by {
                        let j2 = if j < i { j } else { j + 1 };
                        assert(self.loading@[j] == before[j2]);
                        assert(before[i as int] == h);
                    }
                    assert forall|g: SoundHandle| g != h implies (self.loading@.contains(g) <==> before.contains(g)) by {
                        if before.contains(g) {
                            let j = choose|j: int| 0 <= j < before.len() && before[j] == g;
                            assert(j != i);
                            let j2 = if j < i { j } else { j - 1 };
                            assert(self.loading@[j2] == g);
                        }
                        if self.loading@.contains(g) {
                            let j = choose|j: int| 0 <= j < self.loading@.len() && self.loading@[j] == g;
                            let j2 = if j < i { j } else { j + 1 };
                            assert(before[j2] == g);
                        }
                    }
                    assert(self.loading@.no_duplicates()) by {
                        assert forall|a: int, b: int| 0 <= a < b < self.loading@.len() implies self.loading@[a] != self.loading@[b] by {
                            let a2 = if a < i { a } else { a + 1 };
                            let b2 = if b < i { b } else { b + 1 };
                            assert(self.loading@[a] == before[a2] && self.loading@[b] == before[b2]);
                        }
                    }
                    assert forall|j: int| 0 <= j < self.loading@.len() implies (#[trigger] self.loading@[j]).0 < self.next_handle by {
                        let j2 = if j < i { j } else { j + 1 };
                        assert(self.loading@[j] == before[j2]);
                    }
                }
                return;
            }
            i = i + 1;
        }
    }

    /// A request to play: sent back at once when its sound is not loading,
    /// else kept until a later step.
    pub fn play_sound(&mut self, req: PlayRequest<P>) -> (r: Option<PlayRequest<P>>)
        requires
            old(self).wf(),
        ensures
            final(self).wf(),
            final(self).cache@ == old(self).cache@,
            final(self).loading@ == old(self).loading@,
            final(self).next_handle == old(self).next_handle,
            if old(self).loading@.contains(req.id) {
                r is None && final(self).pending_play@ == old(self).pending_play@.push(req)
            } else {
                r == Some(req) && final(self).pending_play@ == old(self).pending_play@
            },
    {
        if self.is_loading(req.id) {
            self.pending_play.push(req);
            None
        } else {
            Some(req)
        }
    }

    /// The waiting requests whose sound has finished loading, in order; the
    /// others keep waiting, in order.
    pub fn step(&mut self) -> (r: Vec<PlayRequest<P>>)
        requires
            old(self).wf(),
        ensures
            final(self).wf(),
            r@ == requests_where(old(self).pending_play@, old(self).loading@, false),
            final(self).pending_play@ == requests_where(old(self).pending_play@, old(self).loading@, true),
            final(self).cache@ == old(self).cache@,
            final(self).loading@ == old(self).loading@,
            final(self).next_handle == old(self).next_handle,
    {
        let mut pending: Vec<PlayRequest<P>> = Vec::new();
        std::mem::swap(&mut pending, &mut self.pending_play);
        let ghost all = pending@;
        let mut ready: Vec<PlayRequest<P>> = Vec::new();
        let mut kept: Vec<PlayRequest<P>> = Vec::new();
        let mut rest: Vec<PlayRequest<P>> = Vec::new();
        // Take the requests from the back, then put them in order.
        let n = pending.len();
        while pending.len() > 0
            invariant
                pending@.len() + rest@.len() == n,
                all.len() == n,
                pending@ == all.subrange(0, pending@.len() as int),
                forall|j: int| 0 <= j < rest@.len() ==> #[trigger] rest@[j] == all[n - 1 - j],
            decreases pending.len(),
        {
            let x = pending.pop().unwrap();
            let ghost k = pending@.len();
            proof {
                assert(x == all[k as int]);
            }
            rest.push(x);
            assert(pending@ =~= all.subrange(0, pending@.len() as int));
        }
        let mut i: usize = 0;
        assert(ready@ =~= requests_where(all.subrange(0, 0), self.loading@, false));
        assert(kept@ =~= requests_where(all.subrange(0, 0), self.loading@, true));
        while rest.len() > 0
            invariant
                self.wf(),
                self.loading@ == old(self).loading@,
                self.cache@ == old(self).cache@,
                self.next_handle == old(self).next_handle,
                all == old(self).pending_play@,
                rest@.len() + i == n,
                all.len() == n,
                forall|j: int| 0 <= j < rest@.len() ==> #[trigger] rest@[j] == all[n - 1 - j],
                ready@ == requests_where(all.subrange(0, i as int), self.loading@, false),
                kept@ == requests_where(all.subrange(0, i as int), self.loading@, true),
            decreases rest.len(),
        {
            let x = rest.pop().unwrap();
            proof {
                assert(x == all[i as int]);
                assert(all.subrange(0, i + 1).drop_last() =~= all.subrange(0, i as int));
                assert(all.subrange(0, i + 1).last() == x);
            }
            if self.is_loading(x.id) {
                kept.push(x);
            } else {
                ready.push(x);
            }
            i = i + 1;
        }
        assert(all.subrange(0, n as int) =~= all);
        self.pending_play = kept;
        ready
    }
}

/// The first free channel at `i` or after; channels are given as whether
/// each is free and the priority of the sound it plays.
pub open spec fn first_free(ch: Seq<(bool, usize)>, i: int) -> Option<int>
    decreases ch.len() - i,
{
    if !(0 <= i < ch.len()) {
        None
    } else if ch[i].0 {
        Some(i)
    } else {
        first_free(ch, i + 1)
    }
}

/// The channel `j` places after `last`, going round: `(last + j) % n` for
/// `last < n` and `j <= n`.
pub open spec fn round_index(last: int, j: int, n: int) -> int {
    if last + j < n {
        last + j
    } else {
        last + j - n
    }
}

/// How many places after `last` the round of the channels stops: at the
/// first channel whose sound has a priority not above `prio`, or, when there
/// is none, back at `last` itself (after all `n` places).
pub open spec fn yield_offset(ch: Seq<(bool, usize)>, last: int, prio: usize, j: int) -> int
    decreases ch.len() - j,
{
    if !(1 <= j < ch.len()) {
        ch.len() as int
    } else if ch[round_index(last, j, ch.len() as int)].1 <= prio {
        j
    } else {
        yield_offset(ch, last, prio, j + 1)
    }
}

/// The channel a sound of priority `prio` is played on, and the channel the
/// next search starts from: the requested channel, if any; else the first
/// free channel; else, going round from the channel after `next`, the first
/// one playing a sound of a priority not above `prio` (none when the round
/// comes back to `next`, and the sound is skipped).
pub open spec fn spec_choose_channel(ch: Seq<(bool, usize)>, next: int, req: Option<usize>, prio: usize) -> (Option<int>, int) {
    match req {
        Some(id) => (Some(id as int), next),
        None => match first_free(ch, 0) {
            Some(id) => (Some(id), id),
            None => {
                let c = round_index(next, yield_offset(ch, next, prio, 1), ch.len() as int);
                (if c != next { Some(c) } else { None }, c)
            },
        },
    }
}

/// Chooses the channel for a sound to play, from the state of the channels
/// (whether each is free, and the priority of the sound it plays), the channel
/// the search starts from, the channel the request names, if any, and the
/// request's priority; returns the channel, if one is found, and the channel
/// the next search starts from.
pub fn choose_channel(channels: &Vec<(bool, usize)>, next_channel: usize, requested: Option<usize>, priority: usize) -> (r: (Option<usize>, usize))
    requires
        requested is None && first_free(channels@, 0) is None ==> next_channel < channels.len(),
    ensures
        (match r.0 { Some(c) => Some(c as int), None => None }, r.1 as int)
            == spec_choose_channel(channels@, next_channel as int, requested, priority),
{
    if let Some(id) = requested {
        return (Some(id), next_channel);
    }
    let mut i: usize = 0;
    while i < channels.len()
        invariant
            requested is None,
            i <= channels.len(),
            first_free(channels@, 0) == first_free(channels@, i as int),
        decreases channels.len() - i,
    {
        if channels[i].0 {
            assert(first_free(channels@, i as int) == Some(i as int));
            return (Some(i), i);
        }
        i = i + 1;
    }
    let n = channels.len();
    let last = next_channel;
    let mut c: usize = if last + 1 < n { last + 1 } else { last + 1 - n };
    let ghost mut j: int = 1;
    while c != last && channels[c].1 > priority
        invariant
            n == channels.len(),
            last < n,
            1 <= j <= n,
            c as int == round_index(last as int, j, n as int),
            j < n ==> c != last,
            j == n ==> c == last,
            yield_offset(channels@, last as int, priority, 1) == yield_offset(channels@, last as int, priority, j),
        decreases n - j,
    {
        c = if c + 1 < n { c + 1 } else { c + 1 - n };
        proof {
            j = j + 1;
        }
    }
    assert(yield_offset(channels@, last as int, priority, j) == j);
    if c != last {
        (Some(c), c)
    } else {
        (None, c)
    }
}

/// The channel chosen for a sound: the requested one when there is one;
/// else a free channel, the first, when there is one; else a busy channel
/// other than the last one chosen, whose sound has a priority not above the
/// new sound's (and when no channel is chosen, every other channel plays a
/// sound of a higher priority). The next search starts at the chosen channel.
pub proof fn law_channel_choice(ch: Seq<(bool, usize)>, next: int, req: Option<usize>, prio: usize)
    requires
        req is None && first_free(ch, 0) is None ==> 0 <= next < ch.len(),
    ensures
        ({
            let (c, n) = spec_choose_channel(ch, next, req, prio);
            &&& req matches Some(id) ==> c == Some(id as int) && n == next
            &&& req is None && (exists|k: int| 0 <= k < ch.len() && (#[trigger] ch[k]).0) ==> (c matches Some(k) && 0 <= k < ch.len()
                && ch[k].0 && n == k && forall|m: int| 0 <= m < k ==> !(#[trigger] ch[m]).0)
            &&& req is None && (forall|k: int| 0 <= k < ch.len() ==> !(#[trigger] ch[k]).0) ==> (match c {
                Some(k) => 0 <= k < ch.len() && k != next && ch[k].1 <= prio && n == k,
                None => n == next && forall|m: int| 0 <= m < ch.len() && m != next ==> (#[trigger] ch[m]).1 > prio,
            })
        }),
{
    if req is None {
        lemma_first_free(ch, 0);
        if first_free(ch, 0) is None {
            let n = ch.len() as int;
            lemma_yield_offset(ch, next, prio, 1);
            let off = yield_offset(ch, next, prio, 1);
            if off == n {
                assert forall|m: int| 0 <= m < n && m != next implies (#[trigger] ch[m]).1 > prio by {
                    let t = if m > next { m - next } else { m - next + n };
                    assert(round_index(next, t, n) == m);
                }
            }
        }
    }
}

proof fn lemma_first_free(ch: Seq<(bool, usize)>, i: int)
    requires
        0 <= i <= ch.len(),
    ensures
        match first_free(ch, i) {
            Some(k) => i <= k < ch.len() && ch[k].0 && forall|m: int| i <= m < k ==> !(#[trigger] ch[m]).0,
            None => forall|m: int| i <= m < ch.len() ==> !(#[trigger] ch[m]).0,
        },
    decreases ch.len() - i,
{
    if i < ch.len() && !ch[i].0 {
        lemma_first_free(ch, i + 1);
    }
}

proof fn lemma_yield_offset(ch: Seq<(bool, usize)>, last: int, prio: usize, j: int)
    requires
        0 <= last < ch.len(),
        1 <= j <= ch.len(),
    ensures
        j <= yield_offset(ch, last, prio, j) <= ch.len(),
        yield_offset(ch, last, prio, j) < ch.len() ==> ch[round_index(last, yield_offset(ch, last, prio, j), ch.len() as int)].1 <= prio,
        yield_offset(ch, last, prio, j) == ch.len() ==> forall|t: int| j <= t < ch.len() ==> (#[trigger] ch[round_index(last, t, ch.len() as int)]).1 > prio,
    decreases ch.len() - j,
{
    if j < ch.len() && ch[round_index(last, j, ch.len() as int)].1 > prio {
        lemma_yield_offset(ch, last, prio, j + 1);
    }
}

/// Once a file is given a handle, a later load of the same file finds that
/// handle.
pub proof fn law_loaded_file_is_cached(cache: Seq<(String, SoundHandle)>, entry: (String, SoundHandle), path: Seq<char>)
    requires
        first_entry(cache, path, 0) is None,
        entry.0@ == path,
    ensures
        first_entry(cache.push(entry), path, 0) == Some(entry.1),
{
    lemma_first_entry_push_absent(cache, entry, path, 0);
}

/// The handle a new file gets differs from every handle given before.
pub proof fn law_new_handle_is_fresh<P>(st: &SoundSystem<P>)
    requires
        st.wf(),
    ensures
        forall|i: int| 0 <= i < st.cache@.len() ==> (#[trigger] st.cache@[i]).1 != SoundHandle(st.next_handle),
{
}

/// Files get their handles in the order in which they are first loaded: the
/// `i`-th file given a handle (counting from 0) holds handle `i`, and the next
/// new file gets the handle that counts the files loaded so far. A new system
/// holds no file, and a load only ever adds a file it does not hold.
pub proof fn law_handles_count_files<P>(st: &SoundSystem<P>)
    requires
        st.wf(),
    ensures
        forall|i: int| 0 <= i < st.cache@.len() ==> (#[trigger] st.cache@[i]).1 == SoundHandle(i as usize),
        st.next_handle == st.cache@.len(),
{
}

/// A step loses no request and sends none twice: each waiting request is
/// either sent or kept.
pub proof fn law_step_keeps_or_sends_each<P>(v: Seq<PlayRequest<P>>, loading: Seq<SoundHandle>)
    ensures
        requests_where(v, loading, false).len() + requests_where(v, loading, true).len() == v.len(),
    decreases v.len(),
{
    if v.len() > 0 {
        law_step_keeps_or_sends_each(v.drop_last(), loading);
    }
}

proof fn lemma_first_entry_push_absent<V>(v: Seq<(String, V)>, e: (String, V), s: Seq<char>, k: int)
    requires
        0 <= k <= v.len(),
        first_entry(v, s, k) is None,
    ensures
        first_entry(v.push(e), s, k) == (if e.0@ == s { Some(e.1) } else { None }),
    decreases v.len() - k,
{
    let w = v.push(e);
    if k < v.len() {
        assert(w[k] == v[k]);
        lemma_first_entry_push_absent(v, e, s, k + 1);
    } else {
        assert(first_entry(w, s, k + 1) is None);
    }
}

} // verus!
