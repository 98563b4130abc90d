//! The subscription registry: the single source of truth for which
//! server-assigned subscription ids are active, and with which channel and
//! market filter.
//!
//! Entries are held in confirmation order with pairwise-distinct sids.  The
//! registry is mutated only by routed control confirmations and by explicit
//! update or unsubscribe calls; `clear` drops every entry on disconnect, so
//! no stale subscription survives a reconnect.

use vstd::prelude::*;
use crate::channels::Channel;
use crate::strings::{str_eq, str_views};

verus! {

/// Represents an active subscription.
#[derive(Debug, PartialEq)]
pub struct Subscription {
    pub sid: i32,
    pub channel: Channel,
    pub market_tickers: Vec<String>,
}

impl Subscription {
    /// Field-for-field agreement, with the ticker list compared by content.
    pub open spec fn same_as(self, other: Subscription) -> bool {
        self.sid == other.sid && self.channel == other.channel
            && self.market_tickers@ == other.market_tickers@
    }
}

/// Adding one ticker: appended at the end unless already present.
pub open spec fn spec_add_one(acc: Seq<Seq<char>>, x: Seq<char>) -> Seq<Seq<char>> {
    if acc.contains(x) {
        acc
    } else {
        acc.push(x)
    }
}

/// Adding a list of tickers, first to last, each skipped if present.
pub open spec fn spec_add_all(acc: Seq<Seq<char>>, add: Seq<Seq<char>>) -> Seq<Seq<char>>
    decreases add.len(),
{
    if add.len() == 0 {
        acc
    } else {
        spec_add_all(spec_add_one(acc, add[0]), add.drop_first())
    }
}

/// Removing every ticker that occurs in `rm`, keeping the others in order.
pub open spec fn spec_remove_all(orig: Seq<Seq<char>>, rm: Seq<Seq<char>>) -> Seq<Seq<char>>
    decreases orig.len(),
{
    if orig.len() == 0 {
        Seq::empty()
    } else if rm.contains(orig[0]) {
        spec_remove_all(orig.drop_first(), rm)
    } else {
        seq![orig[0]] + spec_remove_all(orig.drop_first(), rm)
    }
}

/// Processing tickers one by one agrees with processing them all at once.
proof fn lemma_add_all_snoc(acc: Seq<Seq<char>>, add: Seq<Seq<char>>, x: Seq<char>)
    ensures
        spec_add_all(acc, add.push(x)) == spec_add_one(spec_add_all(acc, add), x),
    decreases add.len(),
{
    if add.len() == 0 {
        assert(add.push(x)[0] == x);
        assert(add.push(x).drop_first() =~= Seq::<Seq<char>>::empty());
        let step = spec_add_one(acc, x);
        assert(spec_add_all(acc, add.push(x)) == spec_add_all(step, add.push(x).drop_first()));
        assert(spec_add_all(step, Seq::<Seq<char>>::empty()) == step);
        assert(spec_add_all(acc, add) == acc);
    } else {
        assert(add.push(x)[0] == add[0]);
        assert(add.push(x).drop_first() =~= add.drop_first().push(x));
        let step = spec_add_one(acc, add[0]);
        assert(spec_add_all(acc, add.push(x)) == spec_add_all(step, add.drop_first().push(x)));
        lemma_add_all_snoc(step, add.drop_first(), x);
        assert(spec_add_all(acc, add) == spec_add_all(step, add.drop_first()));
    }
}

/// Filtering distributes over appending one element at the end.
proof fn lemma_remove_all_snoc(orig: Seq<Seq<char>>, x: Seq<char>, rm: Seq<Seq<char>>)
    ensures
        spec_remove_all(orig.push(x), rm) == if rm.contains(x) {
            spec_remove_all(orig, rm)
        } else {
            spec_remove_all(orig, rm).push(x)
        },
    decreases orig.len(),
{
    if orig.len() == 0 {
        assert(orig.push(x)[0] == x);
        assert(orig.push(x).drop_first() =~= Seq::<Seq<char>>::empty());
        assert(orig =~= Seq::<Seq<char>>::empty());
        assert(spec_remove_all(Seq::<Seq<char>>::empty(), rm)
            == Seq::<Seq<char>>::empty());
        if rm.contains(x) {
            assert(spec_remove_all(orig.push(x), rm)
                == spec_remove_all(orig.push(x).drop_first(), rm));
        } else {
            assert(spec_remove_all(orig.push(x), rm)
                == seq![x] + spec_remove_all(orig.push(x).drop_first(), rm));
            assert(seq![x] + Seq::<Seq<char>>::empty() =~= Seq::<Seq<char>>::empty().push(x));
        }
    } else {
        assert(orig.push(x)[0] == orig[0]);
        assert(orig.push(x).drop_first() =~= orig.drop_first().push(x));
        lemma_remove_all_snoc(orig.drop_first(), x, rm);
        if rm.contains(orig[0]) {
            assert(spec_remove_all(orig.push(x), rm)
                == spec_remove_all(orig.drop_first().push(x), rm));
            assert(spec_remove_all(orig, rm) == spec_remove_all(orig.drop_first(), rm));
        } else {
            assert(spec_remove_all(orig.push(x), rm)
                == seq![orig[0]] + spec_remove_all(orig.drop_first().push(x), rm));
            assert(spec_remove_all(orig, rm)
                == seq![orig[0]] + spec_remove_all(orig.drop_first(), rm));
            if !rm.contains(x) {
                assert(seq![orig[0]] + spec_remove_all(orig.drop_first(), rm).push(x)
                    =~= (seq![orig[0]] + spec_remove_all(orig.drop_first(), rm)).push(x));
            }
        }
    }
}

/// Removing tickers that never occur changes nothing.
proof fn lemma_remove_all_absent(orig: Seq<Seq<char>>, rm: Seq<Seq<char>>)
    requires
        forall|i: int| 0 <= i < orig.len() ==> !rm.contains(#[trigger] orig[i]),
    ensures
        spec_remove_all(orig, rm) == orig,
    decreases orig.len(),
{
    if orig.len() > 0 {
        assert(!rm.contains(orig[0]));
        lemma_remove_all_absent(orig.drop_first(), rm);
        assert(seq![orig[0]] + orig.drop_first() =~= orig);
    }
}

/// Round-trip idempotence of the ticker filter: adding a ticker that is not
/// yet present and then removing it restores the original list exactly.
/// (For a ticker that is already present the pair is not a round trip:
/// adding it is a no-op and removing it deletes the pre-existing entry.)
pub proof fn lemma_ticker_round_trip(orig: Seq<Seq<char>>, x: Seq<char>)
    requires
        !orig.contains(x),
    ensures
        spec_remove_all(spec_add_all(orig, seq![x]), seq![x]) == orig,
{
    assert(seq![x].drop_first() =~= Seq::<Seq<char>>::empty());
    assert(seq![x][0] == x);
    let step = spec_add_one(orig, x);
    assert(step == orig.push(x));
    assert(spec_add_all(step, Seq::<Seq<char>>::empty()) == step);
    assert(spec_add_all(orig, seq![x]) == orig.push(x));
    assert(Seq::<Seq<char>>::empty().push(x) =~= seq![x]);
    lemma_remove_all_snoc(orig, x, seq![x]);
    assert(seq![x].contains(x));
    assert(forall|i: int| 0 <= i < orig.len()
        ==> !seq![x].contains(#[trigger] orig[i])) by {
        assert forall|i: int| 0 <= i < orig.len()
            implies !seq![x].contains(orig[i]) by {
            if seq![x].contains(orig[i]) {
                assert(orig[i] == x);
                assert(orig.contains(x));
            }
        }
    }
    lemma_remove_all_absent(orig, seq![x]);
}

/// Whether a ticker list contains the given ticker, by content.
fn has_ticker(v: &Vec<String>, t: &String) -> (r: bool)
    ensures
        r == str_views(v@).contains(t@),
{
    let mut i: usize = 0;
    while i < v.len()
        invariant
            i <= v.len(),
            forall|j: int| 0 <= j < i ==> str_views(v@)[j] != t@,
        decreases v.len() - i,
    {
        if str_eq(v[i].as_str(), t.as_str()) {
            assert(str_views(v@)[i as int] == t@);
            return true;
        }
        i = i + 1;
    }
    assert(forall|j: int| 0 <= j < v@.len() ==> str_views(v@)[j] != t@);
    false
}

/// Copies a ticker list.
pub(crate) fn clone_strings(v: &Vec<String>) -> (r: Vec<String>)
    ensures
        r@ == v@,
{
    let mut out: Vec<String> = Vec::new();
    let mut i: usize = 0;
    while i < v.len()
        invariant
            i <= v.len(),
            out@.len() == i,
            forall|j: int| 0 <= j < i ==> out@[j] == v@[j],
        decreases v.len() - i,
    {
        out.push(v[i].clone());
        i = i + 1;
    }
    assert(out@ =~= v@);
    out
}

/// The in-memory map from server-assigned subscription id to channel and
/// market filter.
#[derive(Debug)]
pub struct Registry {
    pub subs: Vec<Subscription>,
}

impl Registry {
    /// The entries, in confirmation order.
    pub open spec fn entries(&self) -> Seq<Subscription> {
        self.subs@
    }

    /// Well-formed: no sid appears twice.
    pub open spec fn wf(&self) -> bool {
        forall|i: int, j: int| 0 <= i < j < self.subs@.len()
            ==> self.subs@[i].sid != self.subs@[j].sid
    }

    /// Whether an entry with this sid exists.
    pub open spec fn spec_has(&self, sid: i32) -> bool {
        exists|i: int| 0 <= i < self.subs@.len() && self.subs@[i].sid == sid
    }

    /// An empty registry.
    pub fn new() -> (r: Registry)
        ensures
            r.entries() == Seq::<Subscription>::empty(),
            r.wf(),
    {
        Registry { subs: Vec::new() }
    }

    fn find_index(&self, sid: i32) -> (r: Option<usize>)
        ensures
            match r {
                Some(i) => i < self.subs@.len() && self.subs@[i as int].sid == sid,
                None => !self.spec_has(sid),
            },
    {
        let mut i: usize = 0;
        while i < self.subs.len()
            invariant
                i <= self.subs@.len(),
                forall|j: int| 0 <= j < i ==> self.subs@[j].sid != sid,
            decreases self.subs@.len() - i,
        {
            if self.subs[i].sid == sid {
                return Some(i);
            }
            i = i + 1;
        }
        None
    }

    /// Inserts an entry, overwriting any prior entry with the same sid in
    /// place (last write wins).
    pub fn insert(&mut self, sid: i32, channel: Channel, market_tickers: Vec<String>)
        requires
            old(self).wf(),
        ensures
            final(self).wf(),
            old(self).spec_has(sid) ==> {
                &&& final(self).entries().len() == old(self).entries().len()
                &&& forall|j: int| 0 <= j < old(self).entries().len()
                    && old(self).entries()[j].sid != sid
                    ==> final(self).entries()[j] == old(self).entries()[j]
                &&& forall|j: int| 0 <= j < old(self).entries().len()
                    && old(self).entries()[j].sid == sid
                    ==> final(self).entries()[j]
                        == (Subscription { sid, channel, market_tickers })
            },
            !old(self).spec_has(sid) ==> final(self).entries()
                == old(self).entries().push(Subscription { sid, channel, market_tickers }),
    {
        let sub = Subscription { sid, channel, market_tickers };
        match self.find_index(sid) {
            Some(i) => {
                self.subs[i] = sub;
            },
            None => {
                self.subs.push(sub);
            },
        }
    }

    /// The entry with this sid, if any.
    pub fn get(&self, sid: i32) -> (r: Option<&Subscription>)
        requires
            self.wf(),
        ensures
            r is Some <==> self.spec_has(sid),
            r matches Some(sub) ==> sub.sid == sid
                && exists|i: int| 0 <= i < self.entries().len()
                    && self.entries()[i] == *sub,
    {
        match self.find_index(sid) {
            Some(i) => {
                let r = &self.subs[i];
                assert(self.entries()[i as int] == *r);
                Some(r)
            },
            None => None,
        }
    }

    /// Removes the entry with this sid, if any; the others keep their order.
    pub fn remove(&mut self, sid: i32)
        requires
            old(self).wf(),
        ensures
            final(self).wf(),
            !final(self).spec_has(sid),
            old(self).spec_has(sid) ==> exists|i: int|
                0 <= i < old(self).entries().len() && old(self).entries()[i].sid == sid
                && final(self).entries() == old(self).entries().remove(i),
            !old(self).spec_has(sid) ==> final(self).entries() == old(self).entries(),
    {
        match self.find_index(sid) {
            Some(i) => {
                self.subs.remove(i);
                proof {
                    let removed = old(self).entries().remove(i as int);
                    assert(final(self).entries() == removed);
                    assert forall|k: int| 0 <= k < removed.len()
                        implies removed[k].sid != sid by {
                        if k < i {
                            assert(removed[k] == old(self).entries()[k]);
                        } else {
                            assert(removed[k] == old(self).entries()[k + 1]);
                        }
                    }
                }
            },
            None => {},
        }
    }

    /// Adds each ticker, in order, to the entry with this sid, skipping
    /// tickers already present; a missing sid is a no-op.
    pub fn add_tickers(&mut self, sid: i32, new_tickers: &Vec<String>)
        requires
            old(self).wf(),
        ensures
            final(self).wf(),
            final(self).entries().len() == old(self).entries().len(),
            forall|j: int| 0 <= j < old(self).entries().len()
                && old(self).entries()[j].sid != sid
                ==> final(self).entries()[j] == old(self).entries()[j],
            forall|j: int| 0 <= j < old(self).entries().len()
                && old(self).entries()[j].sid == sid
                ==> {
                    let e = final(self).entries()[j];
                    let o = old(self).entries()[j];
                    e.sid == o.sid && e.channel == o.channel
                        && str_views(e.market_tickers@) == spec_add_all(
                        str_views(o.market_tickers@),
                        str_views(new_tickers@),
                    )
                },
    {
        let i = match self.find_index(sid) {
            Some(i) => i,
            None => {
                return;
            },
        };
        let ghost orig = self.subs@[i as int].market_tickers@;
        let sid_v = self.subs[i].sid;
        let ch = self.subs[i].channel;
        let mut list = clone_strings(&self.subs[i].market_tickers);
        let mut k: usize = 0;
        while k < new_tickers.len()
            invariant
                k <= new_tickers@.len(),
                str_views(list@) == spec_add_all(
                    str_views(orig),
                    str_views(new_tickers@).take(k as int),
                ),
            decreases new_tickers@.len() - k,
        {
            let ghost before = str_views(list@);
            let present = has_ticker(&list, &new_tickers[k]);
            if !present {
                list.push(new_tickers[k].clone());
            }
            proof {
                let added = str_views(new_tickers@).take(k as int);
                lemma_add_all_snoc(str_views(orig), added, new_tickers@[k as int]@);
                assert(added.push(new_tickers@[k as int]@)
                    =~= str_views(new_tickers@).take(k + 1));
                if !present {
                    assert(str_views(list@) =~= before.push(new_tickers@[k as int]@));
                }
            }
            k = k + 1;
        }
        proof {
            assert(str_views(new_tickers@).take(new_tickers@.len() as int)
                =~= str_views(new_tickers@));
            assert(str_views(orig).take(0) =~= Seq::<Seq<char>>::empty());
        }
        self.subs[i] = Subscription { sid: sid_v, channel: ch, market_tickers: list };
    }

    /// Removes each listed ticker from the entry with this sid; tickers not
    /// present are skipped, and a missing sid is a no-op.
    pub fn remove_tickers(&mut self, sid: i32, tickers: &Vec<String>)
        requires
            old(self).wf(),
        ensures
            final(self).wf(),
            final(self).entries().len() == old(self).entries().len(),
            forall|j: int| 0 <= j < old(self).entries().len()
                && old(self).entries()[j].sid != sid
                ==> final(self).entries()[j] == old(self).entries()[j],
            forall|j: int| 0 <= j < old(self).entries().len()
                && old(self).entries()[j].sid == sid
                ==> {
                    let e = final(self).entries()[j];
                    let o = old(self).entries()[j];
                    e.sid == o.sid && e.channel == o.channel
                        && str_views(e.market_tickers@) == spec_remove_all(
                        str_views(o.market_tickers@),
                        str_views(tickers@),
                    )
                },
    {
        let i = match self.find_index(sid) {
            Some(i) => i,
            None => {
                return;
            },
        };
        let ghost orig = self.subs@[i as int].market_tickers@;
        let sid_v = self.subs[i].sid;
        let ch = self.subs[i].channel;
        let mut kept: Vec<String> = Vec::new();
        let mut k: usize = 0;
        proof {
            assert(str_views(orig).take(0) =~= Seq::<Seq<char>>::empty());
        }
        while k < self.subs[i].market_tickers.len()
            invariant
                0 <= i < self.subs@.len(),
                k <= self.subs@[i as int].market_tickers@.len(),
                self.subs@ == old(self).subs@,
                orig == self.subs@[i as int].market_tickers@,
                str_views(kept@) == spec_remove_all(
                    str_views(orig).take(k as int),
                    str_views(tickers@),
                ),
            decreases self.subs@[i as int].market_tickers@.len() - k,
        {
            let ghost before = str_views(kept@);
            let t = self.subs[i].market_tickers[k].clone();
            let drop_it = has_ticker(tickers, &t);
            if !drop_it {
                kept.push(t);
            }
            proof {
                let prefix = str_views(orig).take(k as int);
                lemma_remove_all_snoc(prefix, orig[k as int]@, str_views(tickers@));
                assert(prefix.push(orig[k as int]@) =~= str_views(orig).take(k + 1));
                if !drop_it {
                    assert(str_views(kept@) =~= before.push(orig[k as int]@));
                }
            }
            k = k + 1;
        }
        proof {
            assert(str_views(orig).take(orig.len() as int) =~= str_views(orig));
        }
        self.subs[i] = Subscription { sid: sid_v, channel: ch, market_tickers: kept };
    }

    /// Drops every entry; called on disconnect.
    pub fn clear(&mut self)
        ensures
            final(self).entries() == Seq::<Subscription>::empty(),
            final(self).wf(),
    {
        self.subs.clear();
    }

    /// A consistent point-in-time copy of every entry, in order.
    pub fn snapshot(&self) -> (r: Vec<Subscription>)
        ensures
            r@.len() == self.entries().len(),
            forall|j: int| 0 <= j < r@.len()
                ==> #[trigger] r@[j].same_as(self.entries()[j]),
    {
        let mut out: Vec<Subscription> = Vec::new();
        let mut i: usize = 0;
        while i < self.subs.len()
            invariant
                i <= self.subs@.len(),
                out@.len() == i,
                forall|j: int| 0 <= j < i ==> #[trigger] out@[j].same_as(self.subs@[j]),
            decreases self.subs@.len() - i,
        {
            let sub = Subscription {
                sid: self.subs[i].sid,
                channel: self.subs[i].channel,
                market_tickers: clone_strings(&self.subs[i].market_tickers),
            };
            out.push(sub);
            i = i + 1;
        }
        out
    }
}

} // verus!
