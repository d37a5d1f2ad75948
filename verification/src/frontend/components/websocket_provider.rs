//! The client's web socket, apart from the browser calls: whether it is
//! open, what it sends with, and the handlers that every incoming message
//! goes to, by id.

use vstd::prelude::*;

verus! {

/// Each id occurs once.
pub open spec fn ids_distinct<H>(s: Seq<(Seq<char>, H)>) -> bool {
    forall|i: int, j: int| 0 <= i < j < s.len() ==> s[i].0 != s[j].0
}

/// Some entry has the id.
pub open spec fn has_id<H>(s: Seq<(Seq<char>, H)>, id: Seq<char>) -> bool {
    exists|i: int| 0 <= i < s.len() && s[i].0 == id
}

/// The position of the entry with the id, where there is one.
pub open spec fn index_of_id<H>(s: Seq<(Seq<char>, H)>, id: Seq<char>) -> int {
    choose|i: int| 0 <= i < s.len() && s[i].0 == id
}

/// The entries after a handler is registered under `id`: it replaces the
/// handler that had the id, in its place, or else comes last.
pub open spec fn with_handler<H>(s: Seq<(Seq<char>, H)>, id: Seq<char>, h: H) -> Seq<(Seq<char>, H)> {
    if has_id(s, id) {
        s.update(index_of_id(s, id), (id, h))
    } else {
        s.push((id, h))
    }
}

/// The entries after the handler with `id` is unregistered.
pub open spec fn without_handler<H>(s: Seq<(Seq<char>, H)>, id: Seq<char>) -> Seq<(Seq<char>, H)> {
    if has_id(s, id) {
        s.remove(index_of_id(s, id))
    } else {
        s
    }
}

proof fn lemma_index_of_id_unique<H>(s: Seq<(Seq<char>, H)>, id: Seq<char>, i: int)
    requires
        ids_distinct(s),
        0 <= i < s.len(),
        s[i].0 == id,
    ensures
        has_id(s, id),
        index_of_id(s, id) == i,
{
    let k = index_of_id(s, id);
    assert(0 <= k < s.len() && s[k].0 == id);
    if k < i {
        assert(s[k].0 != s[i].0);
    } else if i < k {
        assert(s[i].0 != s[k].0);
    }
}

/// The ids' texts with their handlers.
pub open spec fn entries_view<H>(v: Seq<(String, H)>) -> Seq<(Seq<char>, H)> {
    Seq::new(v.len(), |i: int| (v[i].0@, v[i].1))
}

/// The message handlers of the socket, in registration order.
pub struct SocketHandlers<H> {
    entries: Vec<(String, H)>,
}

impl<H> View for SocketHandlers<H> {
    type V = Seq<(Seq<char>, H)>;

    closed spec fn view(&self) -> Seq<(Seq<char>, H)> {
        entries_view(self.entries@)
    }
}

impl<H> SocketHandlers<H> {
    #[verifier::type_invariant]
    spec fn distinct(self) -> bool {
        ids_distinct(self@)
    }

    /// No handlers.
    pub fn new() -> (r: Self)
        ensures
            r@ == Seq::<(Seq<char>, H)>::empty(),
    {
        let r = SocketHandlers { entries: Vec::new() };
        assert(r@ =~= Seq::<(Seq<char>, H)>::empty());
        r
    }

    fn position(&self, id: &String) -> (r: Option<usize>)
        ensures
            r matches Some(i) ==> i < self@.len() && self@[i as int].0 == id@,
            r is None ==> !has_id(self@, id@),
    {
        let mut i: usize = 0;
        while i < self.entries.len()
            invariant
                i <= self@.len(),
                self@.len() == self.entries@.len(),
                forall|j: int| 0 <= j < i ==> self@[j].0 != id@,
            decreases self.entries@.len() - i,
        {
            if self.entries[i].0 == *id {
                return Some(i);
            }
            i += 1;
        }
        None
    }

    /// Registers `handler` under `id`, replacing the handler that had the id.
    pub fn register(&mut self, id: String, handler: H)
        ensures
            final(self)@ == with_handler(old(self)@, id@, handler),
            ids_distinct(final(self)@),
    {
        proof {
            use_type_invariant(&*self);
        }
        let ghost before = self@;
        let ghost id_view = id@;
        match self.position(&id) {
            Some(i) => {
                proof {
                    lemma_index_of_id_unique(before, id_view, i as int);
                }
                let mut entries: Vec<(String, H)> = Vec::new();
                std::mem::swap(&mut entries, &mut self.entries);
                entries.set(i, (id, handler));
                let ghost after = before.update(i as int, (id_view, handler));
                assert(entries_view(entries@) =~= after);
                assert forall|a: int, b: int| 0 <= a < b < after.len() implies after[a].0
                    != after[b].0 by {
                    assert(before[a].0 != before[b].0);
                }
                self.entries = entries;
                proof {
                    use_type_invariant(&*self);
                }
            },
            None => {
                let mut entries: Vec<(String, H)> = Vec::new();
                std::mem::swap(&mut entries, &mut self.entries);
                entries.push((id, handler));
                let ghost after = before.push((id_view, handler));
                assert(entries_view(entries@) =~= after);
                assert forall|a: int, b: int| 0 <= a < b < after.len() implies after[a].0
                    != after[b].0 by {
                    if b < before.len() {
                        assert(before[a].0 != before[b].0);
                    } else {
                        assert(!(before[a].0 == id_view));
                    }
                }
                self.entries = entries;
                proof {
                    use_type_invariant(&*self);
                }
            },
        }
    }

    /// Removes the handler with `id`, if there is one.
    pub fn unregister(&mut self, id: String)
        ensures
            final(self)@ == without_handler(old(self)@, id@),
            ids_distinct(final(self)@),
    {
        proof {
            use_type_invariant(&*self);
        }
        let ghost before = self@;
        match self.position(&id) {
            Some(i) => {
                proof {
                    lemma_index_of_id_unique(before, id@, i as int);
                }
                let mut entries: Vec<(String, H)> = Vec::new();
                std::mem::swap(&mut entries, &mut self.entries);
                entries.remove(i);
                let ghost after = before.remove(i as int);
                assert(entries_view(entries@) =~= after);
                assert forall|a: int, b: int| 0 <= a < b < after.len() implies after[a].0
                    != after[b].0 by {
                    if b < i {
                        assert(before[a].0 != before[b].0);
                    } else if a < i {
                        assert(before[a].0 != before[b + 1].0);
                    } else {
                        assert(before[a + 1].0 != before[b + 1].0);
                    }
                }
                self.entries = entries;
                proof {
                    use_type_invariant(&*self);
                }
            },
            None => {},
        }
    }

    /// The handlers that an incoming message goes to: all of them, in
    /// registration order.
    pub fn handlers(&self) -> (r: Vec<&H>)
        ensures
            r@.len() == self@.len(),
            forall|i: int| 0 <= i < self@.len() ==> *r@[i] == self@[i].1,
    {
        let mut r: Vec<&H> = Vec::new();
        let mut i: usize = 0;
        while i < self.entries.len()
            invariant
                i <= self.entries@.len(),
                self@.len() == self.entries@.len(),
                r@.len() == i,
                forall|j: int| 0 <= j < i ==> *r@[j] == self@[j].1,
            decreases self.entries@.len() - i,
        {
            r.push(&self.entries[i].1);
            i += 1;
        }
        r
    }
}

/// Registering a handler and then unregistering its id leaves the handlers
/// as unregistering the id alone would.
pub proof fn lemma_unregister_undoes_register<H>(s: Seq<(Seq<char>, H)>, id: Seq<char>, h: H)
    requires
        ids_distinct(s),
    ensures
        without_handler(with_handler(s, id, h), id) == without_handler(s, id),
{
    let t = with_handler(s, id, h);
    if has_id(s, id) {
        let i = index_of_id(s, id);
        lemma_index_of_id_unique(s, id, i);
        assert forall|a: int, b: int| 0 <= a < b < t.len() implies t[a].0 != t[b].0 by {
            assert(s[a].0 != s[b].0);
        }
        lemma_index_of_id_unique(t, id, i);
        assert(t.remove(i) =~= s.remove(i));
    } else {
        let n = s.len() as int;
        assert forall|a: int, b: int| 0 <= a < b < t.len() implies t[a].0 != t[b].0 by {
            if b == n {
                assert(!(s[a].0 == id));
            } else {
                assert(s[a].0 != s[b].0);
            }
        }
        lemma_index_of_id_unique(t, id, n);
        assert(t.remove(n) =~= s);
    }
}

/// After a handler is registered under an id, the id has exactly that
/// handler, and every other id keeps its own.
pub proof fn lemma_registered_handler_present<H>(
    s: Seq<(Seq<char>, H)>,
    id: Seq<char>,
    h: H,
    other: Seq<char>,
)
    requires
        ids_distinct(s),
    ensures
        has_id(with_handler(s, id, h), id),
        with_handler(s, id, h)[index_of_id(with_handler(s, id, h), id)].1 == h,
        other != id ==> (has_id(with_handler(s, id, h), other) <==> has_id(s, other)),
        other != id && has_id(s, other) ==> with_handler(s, id, h)[index_of_id(
            with_handler(s, id, h),
            other,
        )].1 == s[index_of_id(s, other)].1,
{
    let t = with_handler(s, id, h);
    let n = s.len() as int;
    if has_id(s, id) {
        let i = index_of_id(s, id);
        lemma_index_of_id_unique(s, id, i);
        assert forall|a: int, b: int| 0 <= a < b < t.len() implies t[a].0 != t[b].0 by {
            assert(s[a].0 != s[b].0);
        }
        lemma_index_of_id_unique(t, id, i);
    } else {
        assert forall|a: int, b: int| 0 <= a < b < t.len() implies t[a].0 != t[b].0 by {
            if b == n {
                assert(!(s[a].0 == id));
            } else {
                assert(s[a].0 != s[b].0);
            }
        }
        lemma_index_of_id_unique(t, id, n);
    }
    if other != id && has_id(s, other) {
        let k = index_of_id(s, other);
        lemma_index_of_id_unique(s, other, k);
        assert(t[k].0 == other);
        lemma_index_of_id_unique(t, other, k);
    }
    if other != id && has_id(t, other) {
        let k = index_of_id(t, other);
        assert(s[k].0 == other);
    }
}

/// Whether the socket is open, and what sends on it while it is.
pub struct WebSocketLink<S> {
    pub connected: bool,
    pub sender: Option<S>,
}

impl<S> WebSocketLink<S> {
    /// Not yet open.
    pub fn new() -> (r: Self)
        ensures
            !r.connected,
            r.sender is None,
    {
        WebSocketLink { connected: false, sender: None }
    }

    /// The socket opened: it is connected and sends with `sender`.
    pub fn opened(&mut self, sender: S)
        ensures
            final(self).connected,
            final(self).sender == Some(sender),
    {
        self.connected = true;
        self.sender = Some(sender);
    }

    /// The socket closed, or its page went away: it is disconnected and
    /// nothing sends.
    pub fn closed(&mut self)
        ensures
            !final(self).connected,
            final(self).sender is None,
    {
        self.connected = false;
        self.sender = None;
    }

    /// Two links give the same context to the page exactly when both are
    /// connected or both are not.
    pub fn same_context(&self, other: &Self) -> (r: bool)
        ensures
            r == (self.connected == other.connected),
    {
        self.connected == other.connected
    }
}

} // verus!
