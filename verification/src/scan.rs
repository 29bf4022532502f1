//! The buffering cursor behind native state scans.
//!
//! A scan pulls ready items from the runtime's cursor in chunks and hands them
//! to Ruby one at a time. [`ScanCursor`] holds the chunk buffer and the end
//! flag and decides each step: hand out the next buffered item, report the
//! end, or fetch another chunk. The caller performs the fetch, feeds the
//! chunk back with [`ScanCursor::on_chunk`], and closes the runtime's cursor
//! when told the scan has ended. Items come out in the order they arrived.

use vstd::prelude::*;

verus! {

/// What a scan does next.
pub enum ScanStep<T> {
    /// Hand out this item.
    Item(T),
    /// The scan has ended; hand out `nil`.
    Finished,
    /// Fetch the next chunk from the cursor, then ask again.
    Fetch,
}

/// Buffered state of one scan.
pub struct ScanCursor<T> {
    buffer: std::collections::VecDeque<T>,
    done: bool,
    /// Every item the cursor has delivered, in order.
    received: Ghost<Seq<T>>,
    /// Every item handed out, in order.
    returned: Ghost<Seq<T>>,
    /// Items discarded by closing the scan early.
    dropped: Ghost<Seq<T>>,
}

impl<T> ScanCursor<T> {
    /// The items waiting to be handed out.
    pub closed spec fn buffered(&self) -> Seq<T> {
        self.buffer@
    }

    /// Whether the scan has ended.
    pub closed spec fn is_done(&self) -> bool {
        self.done
    }

    /// Every item the cursor has delivered, in order.
    pub closed spec fn received(&self) -> Seq<T> {
        self.received@
    }

    /// Every item handed out, in order.
    pub closed spec fn returned(&self) -> Seq<T> {
        self.returned@
    }

    /// Items discarded because the scan was closed before they were read.
    pub closed spec fn dropped(&self) -> Seq<T> {
        self.dropped@
    }

    /// The scan's invariant: the delivered items are those handed out, then
    /// those dropped, then those still buffered; items are dropped only by
    /// closing, which ends the scan with nothing buffered.
    #[verifier::type_invariant]
    pub closed spec fn wf(&self) -> bool {
        &&& self.received@ == self.returned@ + self.dropped@ + self.buffer@
        &&& self.dropped@.len() > 0 ==> self.done && self.buffer@.len() == 0
    }

    /// A fresh scan: nothing delivered, nothing buffered, not ended.
    pub fn new() -> (r: Self)
        ensures
            r.wf(),
            r.buffered() == Seq::<T>::empty(),
            !r.is_done(),
            r.received() == Seq::<T>::empty(),
            r.returned() == Seq::<T>::empty(),
            r.dropped() == Seq::<T>::empty(),
    {
        let r = ScanCursor {
            buffer: std::collections::VecDeque::new(),
            done: false,
            received: Ghost(Seq::empty()),
            returned: Ghost(Seq::empty()),
            dropped: Ghost(Seq::empty()),
        };
        assert(r.received@ =~= r.returned@ + r.dropped@ + r.buffer@);
        r
    }

    /// Decides the next step: the first buffered item, else the end when the
    /// scan has ended, else a fetch.
    pub fn next_step(&mut self) -> (r: ScanStep<T>)
        ensures
            final(self).wf(),
            final(self).received() == old(self).received(),
            final(self).dropped() == old(self).dropped(),
            final(self).is_done() == old(self).is_done(),
            old(self).buffered().len() > 0 ==> {
                &&& r == ScanStep::Item(old(self).buffered()[0])
                &&& final(self).buffered() == old(self).buffered().drop_first()
                &&& final(self).returned() == old(self).returned().push(old(self).buffered()[0])
            },
            old(self).buffered().len() == 0 ==> {
                &&& r == (if old(self).is_done() { ScanStep::<T>::Finished } else { ScanStep::<T>::Fetch })
                &&& final(self).buffered() == old(self).buffered()
                &&& final(self).returned() == old(self).returned()
            },
    {
        proof {
            use_type_invariant(&*self);
        }
        let mut current = ScanCursor::new();
        std::mem::swap(self, &mut current);
        let ScanCursor { mut buffer, done, received, returned, dropped } = current;
        match buffer.pop_front() {
            Some(item) => {
                let ghost handed = returned@.push(item);
                proof {
                    assert(buffer@ =~= old(self).buffer@.drop_first());
                    assert(received@ =~= handed + dropped@ + buffer@);
                }
                *self = ScanCursor { buffer, done, received, returned: Ghost(handed), dropped };
                ScanStep::Item(item)
            },
            None => {
                *self = ScanCursor { buffer, done, received, returned, dropped };
                if done {
                    ScanStep::Finished
                } else {
                    ScanStep::Fetch
                }
            },
        }
    }

    /// Takes the answer to a fetch: a chunk of items, or `None` when the
    /// cursor has no more. Returns whether the scan has now ended, in which
    /// case the caller closes the runtime's cursor.
    pub fn on_chunk(&mut self, chunk: Option<std::collections::VecDeque<T>>) -> (ended: bool)
        requires
            !old(self).is_done(),
            old(self).buffered().len() == 0,
        ensures
            final(self).wf(),
            final(self).returned() == old(self).returned(),
            final(self).dropped() == old(self).dropped(),
            match chunk {
                Some(items) => {
                    &&& !ended
                    &&& !final(self).is_done()
                    &&& final(self).buffered() == items@
                    &&& final(self).received() == old(self).received() + items@
                },
                None => {
                    &&& ended
                    &&& final(self).is_done()
                    &&& final(self).buffered() == Seq::<T>::empty()
                    &&& final(self).received() == old(self).received()
                },
            },
    {
        proof {
            use_type_invariant(&*self);
        }
        match chunk {
            Some(items) => {
                let mut current = ScanCursor::new();
                std::mem::swap(self, &mut current);
                let ScanCursor { buffer: _, done, received, returned, dropped } = current;
                let ghost delivered = received@ + items@;
                proof {
                    assert(delivered =~= returned@ + dropped@ + items@);
                }
                *self = ScanCursor { buffer: items, done, received: Ghost(delivered), returned, dropped };
                false
            },
            None => {
                self.done = true;
                true
            },
        }
    }

    /// Closes the scan early: it ends, and the buffered items are dropped.
    /// The caller then closes the runtime's cursor.
    pub fn close(&mut self)
        ensures
            final(self).wf(),
            final(self).is_done(),
            final(self).buffered() == Seq::<T>::empty(),
            final(self).received() == old(self).received(),
            final(self).returned() == old(self).returned(),
            final(self).dropped() == old(self).dropped() + old(self).buffered(),
    {
        proof {
            use_type_invariant(&*self);
        }
        let mut current = ScanCursor::new();
        std::mem::swap(self, &mut current);
        let ScanCursor { buffer, done: _, received, returned, dropped } = current;
        let ghost discarded = dropped@ + buffer@;
        let empty: std::collections::VecDeque<T> = std::collections::VecDeque::new();
        proof {
            assert(received@ =~= returned@ + discarded + empty@);
        }
        *self = ScanCursor { buffer: empty, done: true, received, returned, dropped: Ghost(discarded) };
    }
}

/// Items come out in the order the cursor delivered them: every item handed
/// out so far is the delivered sequence's prefix of that length, unless the
/// scan was closed early.
pub proof fn law_items_in_delivery_order<T>(c: ScanCursor<T>)
    requires
        c.wf(),
    ensures
        c.returned() == c.received().take(c.returned().len() as int),
        c.dropped().len() == 0 ==> c.received() == c.returned() + c.buffered(),
{
    assert(c.received().take(c.returned().len() as int) =~= c.returned());
    if c.dropped().len() == 0 {
        assert(c.received() =~= c.returned() + c.buffered());
    }
}

/// An ended scan stays ended and, once drained, answers every further step
/// with the end and changes no more: no fetch follows the end.
pub proof fn law_end_is_final<T>(c: ScanCursor<T>)
    requires
        c.wf(),
        c.is_done(),
        c.buffered().len() == 0,
    ensures
        c.received() == c.returned() + c.dropped(),
{
    assert(c.received() =~= c.returned() + c.dropped());
}

/// One `next` call of a scan, over the cursor's buffer and done flag and the
/// chunks the store has yet to hand over (`None` for its end): the result of
/// `next_step`, and on `Fetch`, `on_chunk` with the next chunk, repeated until
/// an item or the end comes. Gives the item (or `None` for the end), the new
/// buffer and done flag, and the chunks still to come.
pub open spec fn pull<T>(buffered: Seq<T>, done: bool, source: Seq<Option<Seq<T>>>) -> (Option<T>, Seq<T>, bool, Seq<Option<Seq<T>>>)
    decreases source.len(),
{
    if buffered.len() > 0 {
        (Some(buffered[0]), buffered.drop_first(), done, source)
    } else if done || source.len() == 0 {
        (None, buffered, done, source)
    } else {
        match source[0] {
            Some(items) => pull(items, false, source.drop_first()),
            None => (None, Seq::empty(), true, source.drop_first()),
        }
    }
}

/// What `n` successive `next` calls give.
pub open spec fn pulls<T>(buffered: Seq<T>, done: bool, source: Seq<Option<Seq<T>>>, n: nat) -> Seq<Option<T>>
    decreases n,
{
    if n == 0 {
        Seq::empty()
    } else {
        let (item, b, d, s) = pull(buffered, done, source);
        seq![item] + pulls(b, d, s, (n - 1) as nat)
    }
}

/// A store that hands over `chunks` and then ends.
pub open spec fn chunk_source<T>(chunks: Seq<Seq<T>>) -> Seq<Option<Seq<T>>> {
    chunks.map_values(|c: Seq<T>| Some(c)) + seq![None::<Seq<T>>]
}

/// The items `items` one per call, then the end for every further call.
pub open spec fn items_then_end<T>(items: Seq<T>, n: nat) -> Seq<Option<T>> {
    Seq::new(n, |i: int| if i < items.len() { Some(items[i]) } else { None })
}

proof fn lemma_source_step<T>(chunks: Seq<Seq<T>>)
    ensures
        chunk_source(chunks).len() == chunks.len() + 1,
        chunks.len() > 0 ==> chunk_source(chunks)[0] == Some(chunks[0])
            && chunk_source(chunks).drop_first() == chunk_source(chunks.drop_first()),
        chunks.len() == 0 ==> chunk_source(chunks)[0] == None::<Seq<T>>,
{
    if chunks.len() > 0 {
        assert(chunk_source(chunks).drop_first() =~= chunk_source(chunks.drop_first()));
    }
}

proof fn lemma_pull<T>(buffered: Seq<T>, chunks: Seq<Seq<T>>) -> (rest_chunks: Seq<Seq<T>>)
    ensures
        ({
            let rest = buffered + chunks.flatten();
            let (item, b, d, s) = pull(buffered, false, chunk_source(chunks));
            &&& rest.len() > 0 ==> item == Some(rest[0]) && !d && s == chunk_source(rest_chunks)
                && b + rest_chunks.flatten() == rest.drop_first()
            &&& rest.len() == 0 ==> item is None && d && b.len() == 0
        }),
    decreases chunks.len(),
{
    lemma_source_step(chunks);
    let rest = buffered + chunks.flatten();
    if buffered.len() > 0 {
        assert(rest[0] == buffered[0]);
        assert(buffered.drop_first() + chunks.flatten() =~= rest.drop_first());
        chunks
    } else if chunks.len() > 0 {
        assert(chunks.flatten() == chunks.first() + chunks.drop_first().flatten());
        assert(rest =~= chunks[0] + chunks.drop_first().flatten());
        lemma_pull(chunks[0], chunks.drop_first())
    } else {
        assert(rest =~= Seq::<T>::empty());
        chunks
    }
}

proof fn lemma_pulls_after_end<T>(source: Seq<Option<Seq<T>>>, n: nat)
    ensures
        pulls(Seq::<T>::empty(), true, source, n) == items_then_end(Seq::<T>::empty(), n),
    decreases n,
{
    if n > 0 {
        lemma_pulls_after_end(source, (n - 1) as nat);
        assert(pulls(Seq::<T>::empty(), true, source, n) =~= items_then_end(Seq::<T>::empty(), n));
    }
}

proof fn lemma_pulls<T>(buffered: Seq<T>, chunks: Seq<Seq<T>>, n: nat)
    ensures
        pulls(buffered, false, chunk_source(chunks), n) == items_then_end(buffered + chunks.flatten(), n),
    decreases n,
{
    if n > 0 {
        let rest = buffered + chunks.flatten();
        let rest_chunks = lemma_pull(buffered, chunks);
        let (item, b, d, s) = pull(buffered, false, chunk_source(chunks));
        if rest.len() > 0 {
            lemma_pulls(b, rest_chunks, (n - 1) as nat);
            assert(pulls(buffered, false, chunk_source(chunks), n) =~= items_then_end(rest, n));
        } else {
            assert(b =~= Seq::<T>::empty());
            lemma_pulls_after_end(s, (n - 1) as nat);
            assert(pulls(buffered, false, chunk_source(chunks), n) =~= items_then_end(rest, n));
        }
    }
}

/// A whole run of a scan: from a new cursor, over a store that hands over
/// `chunks` and then ends, successive `next` calls give every item of the
/// chunks exactly once, in order, and then the end on every further call;
/// once ended, a call takes no further chunk from the store.
pub proof fn law_scan_run<T>(chunks: Seq<Seq<T>>, n: nat, source: Seq<Option<Seq<T>>>)
    ensures
        pulls(Seq::<T>::empty(), false, chunk_source(chunks), n) == items_then_end(chunks.flatten(), n),
        pull(Seq::<T>::empty(), true, source) == (None::<T>, Seq::<T>::empty(), true, source),
{
    lemma_pulls(Seq::<T>::empty(), chunks, n);
    assert(Seq::<T>::empty() + chunks.flatten() =~= chunks.flatten());
}

} // verus!
