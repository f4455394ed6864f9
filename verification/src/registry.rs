//! The listener registry: the shared record of ports that are actively
//! serving, that is, whose accept loop has observed at least one connection.
//!
//! A port is added by its accept loop on the first accepted connection and
//! removed by the same loop when it stops, whether cancelled or failed. The
//! registry never holds a port twice, no matter how many connections the port
//! has accepted.

use vstd::prelude::*;

verus! {

broadcast use vstd::seq_lib::lemma_seq_contains_after_push;

/// `s` with every occurrence of `p` removed, order otherwise kept.
pub open spec fn remove_port(s: Seq<u16>, p: u16) -> Seq<u16>
    decreases s.len(),
{
    if s.len() == 0 {
        Seq::empty()
    } else if s.last() == p {
        remove_port(s.drop_last(), p)
    } else {
        remove_port(s.drop_last(), p).push(s.last())
    }
}

/// `s` with `p` appended when absent, unchanged when already present.
pub open spec fn insert_once(s: Seq<u16>, p: u16) -> Seq<u16> {
    if s.contains(p) {
        s
    } else {
        s.push(p)
    }
}

/// What removal guarantees: `p` is gone, every other port is untouched,
/// distinctness survives, and removing an absent port changes nothing.
pub proof fn lemma_remove_port(s: Seq<u16>, p: u16)
    ensures
        !remove_port(s, p).contains(p),
        forall|q: u16| q != p ==> (remove_port(s, p).contains(q) <==> s.contains(q)),
        s.no_duplicates() ==> remove_port(s, p).no_duplicates(),
        !s.contains(p) ==> remove_port(s, p) == s,
    decreases s.len(),
{
    if s.len() == 0 {
        assert(remove_port(s, p) =~= s);
    } else {
        let butlast = s.drop_last();
        lemma_remove_port(butlast, p);
        assert(s =~= butlast.push(s.last()));
        if s.last() != p {
            let r = remove_port(butlast, p);
            if s.no_duplicates() {
                assert(butlast.no_duplicates());
                assert(!butlast.contains(s.last())) by {
                    if butlast.contains(s.last()) {
                        let i = choose|i: int|
                            0 <= i < butlast.len() && butlast[i] == s.last();
                        assert(s[i] == s[s.len() - 1]);
                    }
                }
                assert forall|i: int, j: int|
                    0 <= i < j < r.push(s.last()).len() implies r.push(s.last())[i]
                    != r.push(s.last())[j] by {
                    if j < r.len() {
                    } else {
                        assert(r.contains(r[i]));
                    }
                }
            }
            if !s.contains(p) {
                assert(remove_port(s, p) =~= s);
            }
        }
    }
}

/// Appending a fresh port keeps the registry's contents distinct.
pub proof fn lemma_insert_once_no_duplicates(s: Seq<u16>, p: u16)
    requires
        s.no_duplicates(),
    ensures
        insert_once(s, p).no_duplicates(),
        insert_once(s, p).contains(p),
        forall|q: u16| #[trigger] insert_once(s, p).contains(q) <==> (s.contains(q) || q == p),
{
    if !s.contains(p) {
        let t = s.push(p);
        assert forall|i: int, j: int| 0 <= i < j < t.len() implies t[i] != t[j] by {
            if j < s.len() {
            } else {
                assert(s.contains(s[i]));
            }
        }
    }
}

/// The shared record of ports with at least one observed connection.
pub struct Registry {
    ports: Vec<u16>,
}

impl View for Registry {
    type V = Seq<u16>;

    closed spec fn view(&self) -> Seq<u16> {
        self.ports@
    }
}

impl Registry {
    /// The registry's invariant: no port appears twice.
    pub open spec fn wf(&self) -> bool {
        self@.no_duplicates()
    }

    /// An empty registry: no port is serving yet.
    pub fn new() -> (r: Registry)
        ensures
            r@ == Seq::<u16>::empty(),
            r.wf(),
    {
        Registry { ports: Vec::new() }
    }

    /// Whether `p` currently stands in the registry.
    pub fn contains(&self, p: u16) -> (r: bool)
        ensures
            r == self@.contains(p),
    {
        let mut i: usize = 0;
        while i < self.ports.len()
            invariant
                i <= self.ports.len(),
                forall|k: int| 0 <= k < i ==> self.ports@[k] != p,
            decreases self.ports.len() - i,
        {
            if self.ports[i] == p {
                return true;
            }
            i = i + 1;
        }
        false
    }

    /// The ports currently serving, in the order they first accepted.
    pub fn ports(&self) -> (r: Vec<u16>)
        ensures
            r@ == self@,
    {
        let mut r: Vec<u16> = Vec::new();
        let mut i: usize = 0;
        while i < self.ports.len()
            invariant
                i <= self.ports.len(),
                r@ == self.ports@.subrange(0, i as int),
            decreases self.ports.len() - i,
        {
            r.push(self.ports[i]);
            proof {
                assert(r@ =~= self.ports@.subrange(0, i + 1 as int));
            }
            i = i + 1;
        }
        proof {
            assert(r@ =~= self@);
        }
        r
    }

    /// Number of ports currently serving.
    pub fn len(&self) -> (n: usize)
        ensures
            n == self@.len(),
    {
        self.ports.len()
    }

    /// Records that `p` accepted a connection: adds `p` when absent, leaves
    /// the registry unchanged when `p` already stands in it.
    pub fn observe_connection(&mut self, p: u16)
        ensures
            final(self)@ == insert_once(old(self)@, p),
            final(self)@.contains(p),
            old(self).wf() ==> final(self).wf(),
    {
        if !self.contains(p) {
            self.ports.push(p);
        }
        proof {
            if old(self).wf() {
                lemma_insert_once_no_duplicates(old(self)@, p);
            }
        }
    }

    /// Removes `p`: afterwards `p` is gone and every other port is untouched.
    /// Removing a port that is not serving changes nothing.
    pub fn deregister(&mut self, p: u16)
        ensures
            final(self)@ == remove_port(old(self)@, p),
            !final(self)@.contains(p),
            forall|q: u16| q != p ==> (final(self)@.contains(q) <==> old(self)@.contains(q)),
            !old(self)@.contains(p) ==> final(self)@ == old(self)@,
            old(self).wf() ==> final(self).wf(),
    {
        let ghost orig = self.ports@;
        let mut kept: Vec<u16> = Vec::new();
        let mut i: usize = 0;
        while i < self.ports.len()
            invariant
                i <= self.ports.len(),
                self.ports@ == orig,
                kept@ == remove_port(orig.subrange(0, i as int), p),
            decreases self.ports.len() - i,
        {
            let x = self.ports[i];
            proof {
                assert(orig.subrange(0, i + 1 as int).drop_last() =~= orig.subrange(
                    0,
                    i as int,
                ));
                assert(orig.subrange(0, i + 1 as int).last() == orig[i as int]);
            }
            if x != p {
                kept.push(x);
            }
            i = i + 1;
        }
        proof {
            assert(orig.subrange(0, orig.len() as int) =~= orig);
        }
        self.ports = kept;
        proof {
            lemma_remove_port(orig, p);
        }
    }
}

/// Observing `p` twice is the same as observing it once: the registry records
/// a port, not how many connections it has accepted.
pub proof fn lemma_insert_once_idempotent(s: Seq<u16>, p: u16)
    ensures
        insert_once(insert_once(s, p), p) == insert_once(s, p),
{
    broadcast use vstd::seq_lib::lemma_seq_contains_after_push;

}

/// Registry contents after each port of `s`, in order, has its first
/// connection observed, starting from contents `r`.
pub open spec fn observe_all(r: Seq<u16>, s: Seq<u16>) -> Seq<u16>
    decreases s.len(),
{
    if s.len() == 0 {
        r
    } else {
        observe_all(insert_once(r, s[0]), s.drop_first())
    }
}

/// Binding distinct new ports loses none and duplicates none: observing one
/// connection on each of `s.len()` distinct ports, none of them already
/// serving, grows the registry by exactly `s.len()` entries, keeps it free of
/// duplicates, and makes it hold exactly the old ports and the new ones.
pub proof fn lemma_observe_all_distinct(r: Seq<u16>, s: Seq<u16>)
    requires
        r.no_duplicates(),
        s.no_duplicates(),
        forall|q: u16| s.contains(q) ==> !r.contains(q),
    ensures
        observe_all(r, s).no_duplicates(),
        observe_all(r, s).len() == r.len() + s.len(),
        forall|q: u16|
            #[trigger] observe_all(r, s).contains(q) <==> (r.contains(q) || s.contains(q)),
    decreases s.len(),
{
    if s.len() > 0 {
        let p = s[0];
        let rest = s.drop_first();
        assert(s.contains(p));
        assert(!r.contains(p));
        lemma_insert_once_no_duplicates(r, p);
        let r1 = insert_once(r, p);
        assert(r1 == r.push(p));
        assert forall|i: int, j: int| 0 <= i < j < rest.len() implies rest[i] != rest[j] by {
            assert(s[i + 1] != s[j + 1]);
        }
        assert forall|q: u16| rest.contains(q) implies !r1.contains(q) by {
            let i = choose|i: int| 0 <= i < rest.len() && rest[i] == q;
            assert(s[i + 1] == q);
            assert(s.contains(q));
            assert(q != p) by {
                assert(s[0] == p);
            }
        }
        lemma_observe_all_distinct(r1, rest);
        assert forall|q: u16| #[trigger] observe_all(r, s).contains(q) implies (r.contains(q)
            || s.contains(q)) by {
            if r1.contains(q) && !r.contains(q) {
                assert(s.contains(q)) by {
                    assert(s[0] == q);
                }
            }
            if rest.contains(q) {
                let i = choose|i: int| 0 <= i < rest.len() && rest[i] == q;
                assert(s[i + 1] == q);
            }
        }
        assert forall|q: u16| r.contains(q) || s.contains(q) implies observe_all(
            r,
            s,
        ).contains(q) by {
            if s.contains(q) && q != p {
                let i = choose|i: int| 0 <= i < s.len() && s[i] == q;
                assert(i != 0);
                assert(rest[i - 1] == q);
                assert(rest.contains(q));
            }
        }
    }
}

/// Every port present in a well-formed registry appears at most once: no two
/// distinct positions hold the same port, however many connections each port
/// has accepted.
pub proof fn lemma_port_at_most_once(r: Registry)
    requires
        r.wf(),
    ensures
        forall|i: int, j: int| 0 <= i < j < r@.len() ==> r@[i] != r@[j],
{
}

} // verus!
