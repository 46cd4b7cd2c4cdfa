//! Decisions of a pointer-arbitration round, and the reply slots it fills.
//!
//! A host interaction loop casts rays at its scene and asks, per object,
//! whether the controller is pointing at it. The decisions — which ray hit
//! wins, which queries are answered, when the laser shortens — are plain
//! functions of the hit distances, and live here, verified. The casting of
//! rays, and the sharing of reply slots between the asker and the round,
//! stay with the host.

use vstd::prelude::*;
use crate::fixed::Fx;

verus! {

/// A slot where a value can be left for a later reader.
pub struct Anywhere<T> {
    value: Option<T>,
}

impl<T> View for Anywhere<T> {
    type V = Option<T>;

    closed spec fn view(&self) -> Option<T> {
        self.value
    }
}

impl<T> Anywhere<T> {
    /// An empty slot.
    pub fn new() -> (r: Anywhere<T>)
        ensures
            r@ is None,
    {
        Anywhere { value: None }
    }

    /// A slot already holding `v`.
    pub fn with(v: T) -> (r: Anywhere<T>)
        ensures
            r@ == Some(v),
    {
        Anywhere { value: Some(v) }
    }

    /// Take the held value out, leaving the slot empty.
    pub fn take(&mut self) -> (r: Option<T>)
        ensures
            r == old(self)@,
            final(self)@ is None,
    {
        self.value.take()
    }

    /// Leave `v` in the slot, replacing whatever was there.
    pub fn put(&mut self, v: T)
        ensures
            final(self)@ == Some(v),
    {
        self.value = Some(v);
    }

    /// Take the held value out of a slot known to be filled.
    pub fn expect(&mut self, _msg: &str) -> (r: T)
        requires
            old(self)@ is Some,
        ensures
            old(self)@ == Some(r),
            final(self)@ is None,
    {
        let taken = self.value.take();
        match taken {
            Some(v) => v,
            None => vstd::pervasive::unreached(),
        }
    }
}

/// One registered pointing query: the time of impact of the ray hit, and
/// whether answering this query stops the arbitration round.
#[derive(Clone, Copy, Debug, PartialEq, Eq, Structural)]
pub struct PointingQuery {
    /// The time of impact along the pointing ray.
    pub toi: Fx,
    /// Whether the round stops once this query is answered.
    pub stop: bool,
}

/// Whether the queries are ordered farthest hit first.
pub open spec fn sorted_desc(s: Seq<PointingQuery>) -> bool {
    forall|i: int, j: int| 0 <= i <= j < s.len() ==> #[trigger] s[i].toi@ >= #[trigger] s[j].toi@
}

/// The answers of an arbitration round over queries ordered farthest first:
/// each query is answered affirmatively in turn, and the round stops after
/// the first stopping query; every query after it is answered negatively.
pub open spec fn spec_replies(s: Seq<PointingQuery>) -> Seq<bool>
    decreases s.len(),
{
    if s.len() == 0 {
        Seq::empty()
    } else if s[0].stop {
        seq![true] + Seq::new((s.len() - 1) as nat, |i: int| false)
    } else {
        seq![true] + spec_replies(s.drop_first())
    }
}

/// The smaller of a current best time of impact and a new one, where absent
/// means no hit yet.
pub open spec fn spec_nearer(cur: Option<Fx>, new_toi: Fx) -> Option<Fx> {
    match cur {
        Some(o) => if o@ > new_toi@ {
            Some(new_toi)
        } else {
            Some(o)
        },
        None => Some(new_toi),
    }
}

/// The decision state of one controller's arbitration round: the registered
/// queries, ordered farthest hit first, whether new queries are blocked, and
/// the nearest laser hit so far.
pub struct ControllerGuru {
    /// The registered queries, ordered farthest hit first; [`Self::wf`]
    /// states the order.
    pub queries: Vec<PointingQuery>,
    /// Whether the round stopped accepting queries.
    pub blocked: bool,
    /// The nearest laser time of impact seen so far.
    pub laser_toi: Option<Fx>,
}

impl ControllerGuru {
    /// Whether the query order invariant holds.
    pub open spec fn wf(self) -> bool {
        sorted_desc(self.queries@)
    }

    /// The registered queries, farthest hit first.
    pub open spec fn spec_queries(self) -> Seq<PointingQuery> {
        self.queries@
    }

    /// A fresh round: no queries, not blocked, no laser hit.
    pub fn new() -> (r: ControllerGuru)
        ensures
            r.wf(),
            r.spec_queries().len() == 0,
            !r.blocked,
            r.laser_toi is None,
    {
        ControllerGuru { queries: Vec::new(), blocked: false, laser_toi: None }
    }

    /// Record a laser hit at `toi`, keeping the nearest hit seen so far.
    pub fn laser(&mut self, toi: Fx)
        ensures
            final(self).laser_toi == spec_nearer(old(self).laser_toi, toi),
            final(self).queries == old(self).queries,
            final(self).blocked == old(self).blocked,
    {
        match self.laser_toi {
            Some(o) => if o.gt(toi) {
                self.laser_toi = Some(toi);
            },
            None => {
                self.laser_toi = Some(toi);
            },
        }
    }

    /// The position where a hit at `toi` joins the round: after every query
    /// at least as far, before the first strictly nearer one.
    fn insert_pos(&self, toi: Fx) -> (i: usize)
        requires
            self.wf(),
        ensures
            i <= self.queries@.len(),
            forall|k: int| 0 <= k < i ==> #[trigger] self.queries@[k].toi@ >= toi@,
            i < self.queries@.len() ==> self.queries@[i as int].toi@ < toi@,
    {
        let n = self.queries.len();
        let mut i: usize = 0;
        while i < n
            invariant
                n == self.queries@.len(),
                0 <= i <= n,
                forall|k: int| 0 <= k < i ==> #[trigger] self.queries@[k].toi@ >= toi@,
            decreases n - i,
        {
            if self.queries[i].toi.lt(toi) {
                return i;
            }
            i = i + 1;
        }
        i
    }

    /// Register a pointing query for a ray hit at `toi`. The query joins the
    /// round in hit order and its reply index is returned — unless the round
    /// is blocked, in which case nothing is registered.
    pub fn pointing(&mut self, toi: Fx, stop: bool) -> (r: Option<usize>)
        requires
            old(self).wf(),
        ensures
            final(self).wf(),
            final(self).blocked == old(self).blocked,
            final(self).laser_toi == old(self).laser_toi,
            old(self).blocked ==> r is None && final(self).queries == old(self).queries,
            !old(self).blocked ==> match r {
                Some(i) => i <= old(self).spec_queries().len()
                    && final(self).spec_queries() == old(self).spec_queries().insert(
                    i as int,
                    PointingQuery { toi, stop },
                ),
                None => false,
            },
    {
        if self.blocked {
            return None;
        }
        let i = self.insert_pos(toi);
        let q = PointingQuery { toi, stop };
        proof {
            self.queries@.insert_ensures(i as int, q);
        }
        self.queries.insert(i, q);
        proof {
            let s = old(self).queries@;
            let s2 = self.queries@;
            assert forall|p: int, j: int| 0 <= p <= j < s2.len() implies #[trigger] s2[p].toi@
                >= #[trigger] s2[j].toi@ by {
                if p < i as int {
                    assert(s2[p] == s[p]);
                } else if p > i as int {
                    assert(s2[p] == s[p - 1]);
                } else {
                    assert(s2[p] == q);
                }
                if j < i as int {
                    assert(s2[j] == s[j]);
                } else if j > i as int {
                    assert(s2[j] == s[j - 1]);
                } else {
                    assert(s2[j] == q);
                }
                if (i as int) < s.len() {
                    assert(s[i as int].toi@ < toi@);
                }
            }
        }
        Some(i)
    }

    /// Block the round: drop every registered query, so that each pending
    /// reply is answered negatively, and accept no further queries.
    pub fn block_pointing(&mut self)
        ensures
            final(self).wf(),
            final(self).blocked,
            final(self).spec_queries().len() == 0,
            final(self).laser_toi == old(self).laser_toi,
    {
        self.blocked = true;
        self.queries.clear();
    }

    /// Decide the round: answer the farthest queries affirmatively in turn,
    /// stop after the first stopping query, and answer the rest negatively.
    /// The answer at each index belongs to the query at that index.
    pub fn apply(self) -> (r: Vec<bool>)
        ensures
            r@ == spec_replies(self.spec_queries()),
    {
        let n = self.queries.len();
        let mut replies: Vec<bool> = Vec::new();
        let mut stopped: bool = false;
        let mut i: usize = 0;
        proof {
            assert(self.queries@.subrange(0, n as int) =~= self.queries@);
            assert(replies@ + spec_replies(self.queries@) =~= spec_replies(self.queries@));
        }
        while i < n
            invariant
                n == self.queries@.len(),
                0 <= i <= n,
                replies@.len() == i,
                spec_replies(self.queries@) == replies@ + (if stopped {
                    Seq::new((n - i) as nat, |k: int| false)
                } else {
                    spec_replies(self.queries@.subrange(i as int, n as int))
                }),
            decreases n - i,
        {
            if stopped {
                replies.push(false);
            } else {
                replies.push(true);
                if self.queries[i].stop {
                    stopped = true;
                }
                proof {
                    let tail = self.queries@.subrange(i as int, n as int);
                    assert(tail[0] == self.queries@[i as int]);
                    assert(tail.drop_first() =~= self.queries@.subrange(i + 1, n as int));
                    if self.queries@[i as int].stop {
                        assert(spec_replies(tail) =~= seq![true] + Seq::new(
                            (n - i - 1) as nat,
                            |k: int| false,
                        ));
                    }
                }
            }
            proof {
                if stopped {
                    assert(Seq::new((n - i) as nat, |k: int| false) =~= seq![false] + Seq::new(
                        (n - i - 1) as nat,
                        |k: int| false,
                    ));
                }
                assert(replies@ + (if stopped {
                    Seq::new((n - i - 1) as nat, |k: int| false)
                } else {
                    spec_replies(self.queries@.subrange(i + 1, n as int))
                }) =~= spec_replies(self.queries@));
            }
            i = i + 1;
        }
        proof {
            if !stopped {
                assert(self.queries@.subrange(n as int, n as int).len() == 0);
            }
            assert(replies@ =~= spec_replies(self.queries@));
        }
        replies
    }
}

/// The decision state of one arbitration round over both controllers.
pub struct VrGuru {
    /// The round of the primary controller.
    pub primary: ControllerGuru,
    /// The round of the secondary controller.
    pub secondary: ControllerGuru,
}

impl VrGuru {
    /// A fresh round for both controllers.
    pub fn new() -> (r: VrGuru)
        ensures
            r.primary.wf(),
            r.primary.spec_queries().len() == 0,
            !r.primary.blocked,
            r.primary.laser_toi is None,
            r.secondary.wf(),
            r.secondary.spec_queries().len() == 0,
            !r.secondary.blocked,
            r.secondary.laser_toi is None,
    {
        VrGuru { primary: ControllerGuru::new(), secondary: ControllerGuru::new() }
    }

    /// Decide both rounds, answering each controller's queries in turn.
    pub fn apply(self) -> (r: (Vec<bool>, Vec<bool>))
        ensures
            r.0@ == spec_replies(self.primary.spec_queries()),
            r.1@ == spec_replies(self.secondary.spec_queries()),
    {
        let VrGuru { primary, secondary } = self;
        (primary.apply(), secondary.apply())
    }
}

} // verus!
