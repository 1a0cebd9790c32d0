//! Where each still-running tracked task was spawned, so a drain that times out can name the
//! tasks it left behind instead of only counting them.
//!
//! Each spawn registers its site under an id of its own, so two tasks spawned from the same
//! line are released independently when each ends.

use vstd::prelude::*;

use crate::lifecycle::DrainOutcome;

verus! {

broadcast use vstd::seq_lib::group_to_multiset_ensures;

/// Whether `a` sorts no later than `b`, character by character: the order `String`'s own
/// comparison gives, since UTF-8 keeps code-point order.
pub open spec fn text_le(a: Seq<char>, b: Seq<char>) -> bool
    decreases a.len(),
{
    if a.len() == 0 {
        true
    } else if b.len() == 0 {
        false
    } else if a[0] != b[0] {
        a[0] < b[0]
    } else {
        text_le(a.drop_first(), b.drop_first())
    }
}

/// Whether each text sorts no later than the one after it.
pub open spec fn texts_sorted(s: Seq<Seq<char>>) -> bool {
    forall|i: int| 0 <= i < s.len() - 1 ==> text_le(#[trigger] s[i], s[i + 1])
}

/// Any two texts are ordered one way or the other.
pub proof fn lemma_text_le_total(a: Seq<char>, b: Seq<char>)
    ensures
        text_le(a, b) || text_le(b, a),
    decreases a.len(),
{
    if a.len() > 0 && b.len() > 0 && a[0] == b[0] {
        lemma_text_le_total(a.drop_first(), b.drop_first());
    }
}

/// Whether `a` sorts no later than `b`; see [`text_le`].
pub fn text_no_later(a: &str, b: &str) -> (r: bool)
    ensures
        r == text_le(a@, b@),
{
    let na = a.unicode_len();
    let nb = b.unicode_len();
    let mut i: usize = 0;
    proof {
        assert(a@.skip(0) =~= a@);
        assert(b@.skip(0) =~= b@);
    }
    while i < na && i < nb
        invariant
            i <= na == a@.len(),
            i <= nb == b@.len(),
            text_le(a@, b@) == text_le(a@.skip(i as int), b@.skip(i as int)),
        decreases na - i,
    {
        let ca = a.get_char(i);
        let cb = b.get_char(i);
        proof {
            assert(a@.skip(i as int).drop_first() =~= a@.skip(i + 1));
            assert(b@.skip(i as int).drop_first() =~= b@.skip(i + 1));
            assert(a@.skip(i as int)[0] == ca);
            assert(b@.skip(i as int)[0] == cb);
        }
        if ca != cb {
            return ca < cb;
        }
        i = i + 1;
    }
    i == na
}

/// The views of a list of texts.
pub open spec fn text_views(v: Seq<String>) -> Seq<Seq<char>> {
    v.map_values(|s: String| s@)
}

/// The spawn sites of the tracked tasks still running.
#[derive(Debug)]
pub struct CallSites {
    live: Vec<(u64, String)>,
    next_id: u64,
}

impl CallSites {
    /// Every registered site, in registration order, with its id.
    pub closed spec fn entries(&self) -> Seq<(u64, Seq<char>)> {
        self.live@.map_values(|e: (u64, String)| (e.0, e.1@))
    }

    /// The id the next registration gets.
    pub closed spec fn next(&self) -> u64 {
        self.next_id
    }

    /// Every id is below the next one to be handed out, and no id is registered twice.
    #[verifier::type_invariant]
    spec fn ids_unique(self) -> bool {
        &&& forall|i: int| 0 <= i < self.live@.len() ==> #[trigger] self.live@[i].0 < self.next_id
        &&& forall|i: int, j: int|
            0 <= i < j < self.live@.len() ==> #[trigger] self.live@[i].0 != #[trigger] self.live@[j].0
    }

    /// No task registered yet.
    pub fn new() -> (c: CallSites)
        ensures
            c.entries().len() == 0,
            c.next() == 0,
    {
        CallSites { live: Vec::new(), next_id: 0 }
    }

    /// The id the next registration gets.
    pub fn next_id(&self) -> (n: u64)
        ensures
            n == self.next(),
    {
        self.next_id
    }

    /// Register the site a task was spawned from, under a fresh id; the task's end releases
    /// that id.
    pub fn record(&mut self, site: String) -> (id: u64)
        requires
            old(self).next() < u64::MAX,
        ensures
            id == old(self).next(),
            final(self).next() == id + 1,
            final(self).entries() == old(self).entries().push((id, site@)),
    {
        proof {
            use_type_invariant(&*self);
        }
        let id = self.next_id;
        let ghost text = site@;
        let mut live = Vec::new();
        std::mem::swap(&mut live, &mut self.live);
        live.push((id, site));
        *self = CallSites { live, next_id: id + 1 };
        proof {
            assert(self.entries() =~= old(self).entries().push((id, text)));
        }
        id
    }

    /// Release the site registered under `id`, when its task ends. Every other site stays.
    pub fn release(&mut self, id: u64)
        ensures
            final(self).next() == old(self).next(),
            (forall|j: int| 0 <= j < old(self).entries().len() ==> #[trigger] old(self).entries()[j].0
                != id) ==> final(self).entries() == old(self).entries(),
            forall|j: int|
                0 <= j < old(self).entries().len() && #[trigger] old(self).entries()[j].0 == id
                    ==> final(self).entries() == old(self).entries().remove(j),
    {
        proof {
            use_type_invariant(&*self);
        }
        let mut k: usize = 0;
        while k < self.live.len()
            invariant
                k <= self.live@.len(),
                *self == *old(self),
                forall|j: int| 0 <= j < k ==> #[trigger] self.live@[j].0 != id,
            decreases self.live@.len() - k,
        {
            proof {
                use_type_invariant(&*self);
            }
            if self.live[k].0 == id {
                let next_id = self.next_id;
                let mut live = Vec::new();
                std::mem::swap(&mut live, &mut self.live);
                let ghost before = live@;
                live.remove(k);
                proof {
                    assert forall|i: int, j: int|
                        0 <= i < j < live@.len() implies #[trigger] live@[i].0
                        != #[trigger] live@[j].0 by {
                        let oi = if i < k {
                            i
                        } else {
                            i + 1
                        };
                        let oj = if j < k {
                            j
                        } else {
                            j + 1
                        };
                        assert(live@[i] == before[oi] && live@[j] == before[oj]);
                    }
                    assert forall|i: int| 0 <= i < live@.len() implies #[trigger] live@[i].0
                        < next_id by {
                        if i >= k {
                            assert(live@[i] == before[i + 1]);
                        }
                    }
                }
                *self = CallSites { live, next_id };
                proof {
                    assert(old(self).entries()[k as int].0 == id);
                    assert(self.entries() =~= old(self).entries().remove(k as int));
                    assert forall|j: int|
                        0 <= j < old(self).entries().len() && #[trigger] old(self).entries()[j].0
                            == id implies j == k by {
                        if j != k {
                            assert(old(self).live@[j].0 == old(self).live@[k as int].0);
                        }
                    }
                }
                return;
            }
            k = k + 1;
        }
        proof {
            assert(self.entries() =~= old(self).entries());
        }
    }

    /// Where every still-running task was spawned, sorted so repeated runs give comparable
    /// lists: each live site exactly once.
    pub fn outstanding(&self) -> (r: Vec<String>)
        ensures
            texts_sorted(text_views(r@)),
            text_views(r@).to_multiset() == self.entries().map_values(
                |e: (u64, Seq<char>)| e.1,
            ).to_multiset(),
    {
        let ghost sites = self.entries().map_values(|e: (u64, Seq<char>)| e.1);
        let mut out: Vec<String> = Vec::new();
        let mut k: usize = 0;
        proof {
            assert(sites.take(0) =~= Seq::<Seq<char>>::empty());
            assert(text_views(out@) =~= Seq::<Seq<char>>::empty());
        }
        while k < self.live.len()
            invariant
                k <= self.live@.len(),
                sites == self.entries().map_values(|e: (u64, Seq<char>)| e.1),
                sites.len() == self.live@.len(),
                texts_sorted(text_views(out@)),
                text_views(out@).to_multiset() == sites.take(k as int).to_multiset(),
            decreases self.live@.len() - k,
        {
            let site = self.live[k].1.clone();
            let mut j: usize = 0;
            while j < out.len() && text_no_later(out[j].as_str(), site.as_str())
                invariant
                    j <= out@.len(),
                    j > 0 ==> text_le(out@[j - 1]@, site@),
                decreases out@.len() - j,
            {
                j = j + 1;
            }
            let ghost before = text_views(out@);
            proof {
                if j < out@.len() {
                    lemma_text_le_total(out@[j as int]@, site@);
                }
            }
            out.insert(j, site);
            proof {
                let now = text_views(out@);
                assert(now =~= before.insert(j as int, site@));
                assert forall|i: int| 0 <= i < now.len() - 1 implies text_le(
                    #[trigger] now[i],
                    now[i + 1],
                ) by {
                    if i < j - 1 {
                        assert(now[i] == before[i] && now[i + 1] == before[i + 1]);
                    } else if i == j - 1 {
                        assert(now[i] == before[i] && now[i + 1] == site@);
                    } else if i == j {
                        assert(now[i] == site@ && now[i + 1] == before[i]);
                    } else {
                        assert(now[i] == before[i - 1] && now[i + 1] == before[i]);
                    }
                }
                assert(sites.take(k + 1) =~= sites.take(k as int).push(site@));
                assert(site@ == sites[k as int]);
            }
            k = k + 1;
        }
        proof {
            assert(sites.take(k as int) =~= sites);
        }
        out
    }
}

/// Releasing the id a registration just handed out leaves the table as it was before the
/// registration: a task that starts and ends leaves no trace.
pub proof fn lemma_release_undoes_record(e: Seq<(u64, Seq<char>)>, id: u64, site: Seq<char>)
    ensures
        e.push((id, site))[e.len() as int].0 == id,
        e.push((id, site)).remove(e.len() as int) == e,
{
    assert(e.push((id, site)).remove(e.len() as int) =~= e);
}

/// What a drain reports: `tasks` were running when it began, and either every one finished
/// within the grace, or `still_running` were left when it ran out, each named by the site it
/// was spawned from (sampled while the tasks are still alive).
pub fn drain_outcome(tasks: usize, finished: bool, still_running: usize, sites: &CallSites) -> (d:
    DrainOutcome)
    ensures
        finished ==> d == (DrainOutcome::Drained { tasks }),
        !finished ==> (d matches DrainOutcome::TimedOut { abandoned, sites: named } && abandoned
            == still_running && texts_sorted(text_views(named@)) && text_views(named@).to_multiset()
            == sites.entries().map_values(|e: (u64, Seq<char>)| e.1).to_multiset()),
{
    if finished {
        DrainOutcome::Drained { tasks }
    } else {
        DrainOutcome::TimedOut { abandoned: still_running, sites: sites.outstanding() }
    }
}

} // verus!
