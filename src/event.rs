use vstd::prelude::*;

verus! {

/// An append-only log of events of one kind, read through independent cursors.
pub struct EventChannel<E> {
    log: Vec<E>,
}

/// A subscriber's read position in an `EventChannel`.
pub struct ReaderId {
    pos: usize,
}

impl ReaderId {
    /// Index of the first event this subscriber has not read yet.
    pub closed spec fn position(&self) -> nat {
        self.pos as nat
    }
}

impl<E: Copy> EventChannel<E> {
    /// Every event published so far, in publish order.
    pub closed spec fn events(&self) -> Seq<E> {
        self.log@
    }

    /// Events published after `reader`'s last read, in publish order.
    pub open spec fn unread(&self, reader: ReaderId) -> Seq<E> {
        self.events().subrange(reader.position() as int, self.events().len() as int)
    }

    pub fn new() -> (c: Self)
        ensures
            c.events() == Seq::<E>::empty(),
    {
        EventChannel { log: Vec::new() }
    }

    /// Number of events published so far.
    pub fn len(&self) -> (r: usize)
        ensures
            r == self.events().len(),
    {
        self.log.len()
    }

    /// Appends `e` to the log.
    pub fn single_write(&mut self, e: E)
        ensures
            final(self).events() == old(self).events().push(e),
    {
        self.log.push(e);
    }

    /// A cursor that starts at the current end of the log: nothing published
    /// before the call is replayed to it.
    pub fn register_reader(&self) -> (r: ReaderId)
        ensures
            r.position() == self.events().len(),
    {
        ReaderId { pos: self.log.len() }
    }

    /// Returns every event published since `reader`'s last read, in publish
    /// order, and moves `reader` past them.
    pub fn read(&self, reader: &mut ReaderId) -> (r: Vec<E>)
        requires
            old(reader).position() <= self.events().len(),
        ensures
            r@ == self.unread(*old(reader)),
            final(reader).position() == self.events().len(),
    {
        let mut out: Vec<E> = Vec::new();
        let mut i: usize = reader.pos;
        while i < self.log.len()
            invariant
                reader.pos <= i <= self.log@.len(),
                out@ == self.log@.subrange(reader.pos as int, i as int),
            decreases self.log@.len() - i,
        {
            out.push(self.log[i]);
            i = i + 1;
        }
        reader.pos = self.log.len();
        out
    }
}

} // verus!
