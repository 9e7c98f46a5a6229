//! The method registry and its two ranking queries.
//!
//! The registry holds two append-only collections: control methods and
//! outcome logs. A query scores each eligible method against the logs that
//! match it and the queried pest, filters by the risk policy, and returns
//! the survivors sorted by K descending, ties broken by E descending, and
//! final ties kept in registry order (the insertion below is stable).

use vstd::prelude::*;
use crate::fixed::SCALE;
use crate::ker::{score_method, spec_score};
use crate::model::{ControlFamily, ControlMethod, KerScore, LocationType, OutcomeLog, PestSpecies};

verus! {

/// Tier-0 E uplift for exclusion and sanitation methods.
pub const TIER0_E_UPLIFT: u64 = 50_000;

/// Risk ceiling of the tier-0 query.
pub const TIER0_R_CEILING: u64 = 200_000;

/// A log feeds the score of a method if it names the method and the queried
/// pest.
pub open spec fn log_matches(l: OutcomeLog, id: Seq<char>, pest: PestSpecies) -> bool {
    l.method_id@ == id && l.context.pest == pest
}

/// The sub-list of logs that feed the score of the method named `id`
/// for `pest`, in registry order.
pub open spec fn spec_logs_for(logs: Seq<OutcomeLog>, id: Seq<char>, pest: PestSpecies)
    -> Seq<OutcomeLog> {
    logs.filter(|l: OutcomeLog| log_matches(l, id, pest))
}

/// Exclusion and sanitation form tier 0, the preferred first line.
pub open spec fn is_tier0_family(family: ControlFamily) -> bool {
    family == ControlFamily::Exclusion || family == ControlFamily::Sanitation
}

/// The tier-0 E uplift: E raised by 0.05, capped at 1.
pub open spec fn spec_uplift(s: KerScore) -> KerScore {
    KerScore {
        k: s.k,
        e: (if s.e + TIER0_E_UPLIFT > SCALE {
            SCALE as int
        } else {
            s.e + TIER0_E_UPLIFT
        }) as u64,
        r: s.r,
        coords: s.coords,
        hard_violation: s.hard_violation,
    }
}

/// Sensitive locations reject disposable electronics and persistent
/// plastics.
pub open spec fn is_sensitive_location(location: LocationType) -> bool {
    location == LocationType::Home || location == LocationType::Hospital
}

/// Ranking order of the query results: K descending, then E descending.
/// Incomparable scalars cannot arise in fixed point, so this is a total
/// preorder.
pub open spec fn spec_rank_le(a: (ControlMethod, KerScore), b: (ControlMethod, KerScore)) -> bool {
    a.1.k > b.1.k || (a.1.k == b.1.k && a.1.e >= b.1.e)
}

/// The result sequence is ranked: every earlier entry ranks at or before
/// every later one.
pub open spec fn spec_ranked(s: Seq<(ControlMethod, KerScore)>) -> bool {
    forall|i: int, j: int| 0 <= i < j < s.len() ==> spec_rank_le(#[trigger] s[i], #[trigger] s[j])
}

/// In-memory registry of methods and outcome logs; both collections only
/// grow.
pub struct MethodRegistry {
    pub methods: Vec<ControlMethod>,
    pub logs: Vec<OutcomeLog>,
}

impl MethodRegistry {
    /// Score of `m` over the registry logs that match it and `pest`, with
    /// the tier-0 uplift applied for exclusion and sanitation methods.
    pub open spec fn spec_query_score(self, m: ControlMethod, pest: PestSpecies) -> KerScore {
        let base = spec_score(m, spec_logs_for(self.logs@, m.id@, pest));
        if is_tier0_family(m.family) {
            spec_uplift(base)
        } else {
            base
        }
    }

    /// Score of `m` for the tier-0 query: no uplift.
    pub open spec fn spec_tier0_score(self, m: ControlMethod, pest: PestSpecies) -> KerScore {
        spec_score(m, spec_logs_for(self.logs@, m.id@, pest))
    }

    /// A method survives the safest-methods query: not monitoring-only, no
    /// hard violation, R within the ceiling, and no problematic materials in
    /// sensitive locations.
    pub open spec fn spec_query_passes(
        self,
        m: ControlMethod,
        pest: PestSpecies,
        location: LocationType,
        max_r: u64,
    ) -> bool {
        let s = self.spec_query_score(m, pest);
        &&& m.family != ControlFamily::MonitoringOnly
        &&& !s.hard_violation
        &&& s.r <= max_r
        &&& (is_sensitive_location(location) ==> !(m.uses_disposable_electronics
            || m.generates_persistent_plastic))
    }

    /// A method survives the tier-0 query: exclusion or sanitation family,
    /// no hard violation, and R at most the tier-0 ceiling.
    pub open spec fn spec_tier0_passes(self, m: ControlMethod, pest: PestSpecies) -> bool {
        let s = self.spec_tier0_score(m, pest);
        &&& is_tier0_family(m.family)
        &&& !s.hard_violation
        &&& s.r <= TIER0_R_CEILING
    }

    /// The unsorted candidate list of the safest-methods query, in registry
    /// order.
    pub open spec fn spec_query_candidates(
        self,
        pest: PestSpecies,
        location: LocationType,
        max_r: u64,
    ) -> Seq<(ControlMethod, KerScore)> {
        self.methods@.filter(|m: ControlMethod| self.spec_query_passes(m, pest, location, max_r))
            .map_values(|m: ControlMethod| (m, self.spec_query_score(m, pest)))
    }

    /// The unsorted candidate list of the tier-0 query, in registry order.
    pub open spec fn spec_tier0_candidates(self, pest: PestSpecies) -> Seq<
        (ControlMethod, KerScore),
    > {
        self.methods@.filter(|m: ControlMethod| self.spec_tier0_passes(m, pest)).map_values(
            |m: ControlMethod| (m, self.spec_tier0_score(m, pest)),
        )
    }

    /// An empty registry.
    pub fn new() -> (r: MethodRegistry)
        ensures
            r.methods@ == Seq::<ControlMethod>::empty(),
            r.logs@ == Seq::<OutcomeLog>::empty(),
    {
        MethodRegistry { methods: Vec::new(), logs: Vec::new() }
    }

    /// Append a method; everything already registered stays as it is.
    pub fn add_method(&mut self, method: ControlMethod)
        ensures
            final(self).methods@ == old(self).methods@.push(method),
            final(self).logs@ == old(self).logs@,
    {
        self.methods.push(method);
    }

    /// Append an outcome log; everything already registered stays as it is.
    pub fn add_log(&mut self, log: OutcomeLog)
        ensures
            final(self).methods@ == old(self).methods@,
            final(self).logs@ == old(self).logs@.push(log),
    {
        self.logs.push(log);
    }

    /// Collect the logs that name `method_id` and `pest`, in registry order.
    #[verifier::loop_isolation(false)]
    pub fn logs_for_method(&self, method_id: &String, pest: PestSpecies) -> (out: Vec<OutcomeLog>)
        ensures
            out@ == spec_logs_for(self.logs@, method_id@, pest),
    {
        let ghost pred = |l: OutcomeLog| log_matches(l, method_id@, pest);
        let mut out: Vec<OutcomeLog> = Vec::new();
        let mut i: usize = 0;
        proof {
            reveal(Seq::filter);
            assert(self.logs@.take(0).filter(pred) =~= Seq::<OutcomeLog>::empty());
        }
        while i < self.logs.len()
            invariant
                0 <= i <= self.logs@.len(),
                out@ == self.logs@.take(i as int).filter(pred),
            decreases self.logs@.len() - i,
        {
            proof {
                lemma_filter_take_step(self.logs@, i as int, pred);
            }
            let l = &self.logs[i];
            if l.method_id == *method_id && l.context.pest == pest {
                out.push(l.clone());
            }
            i = i + 1;
        }
        proof {
            assert(self.logs@.take(self.logs@.len() as int) =~= self.logs@);
        }
        out
    }
}

/// One unfolding step of `filter` over a `take` prefix.
proof fn lemma_filter_take_step<A>(s: Seq<A>, i: int, pred: spec_fn(A) -> bool)
    requires
        0 <= i < s.len(),
    ensures
        pred(s[i]) ==> s.take(i + 1).filter(pred) == s.take(i).filter(pred).push(s[i]),
        !pred(s[i]) ==> s.take(i + 1).filter(pred) == s.take(i).filter(pred),
{
    reveal(Seq::filter);
    let t = s.take(i + 1);
    assert(t.drop_last() =~= s.take(i));
    assert(t.last() == s[i]);
}

/// Ranking comparison, executable form.
fn rank_le(a: &(ControlMethod, KerScore), b: &(ControlMethod, KerScore)) -> (r: bool)
    ensures
        r == spec_rank_le(*a, *b),
{
    a.1.k > b.1.k || (a.1.k == b.1.k && a.1.e >= b.1.e)
}

/// Insert `item` into a ranked vector, after every element that ranks at or
/// before it, so repeated insertion in registry order is a stable sort.
#[verifier::loop_isolation(false)]
fn insert_ranked(out: &mut Vec<(ControlMethod, KerScore)>, item: (ControlMethod, KerScore))
    requires
        spec_ranked(old(out)@),
    ensures
        spec_ranked(final(out)@),
        final(out)@.to_multiset() == old(out)@.to_multiset().insert(item),
        forall|p: (ControlMethod, KerScore)| #[trigger]
            final(out)@.contains(p) ==> old(out)@.contains(p) || p == item,
{
    broadcast use vstd::seq_lib::group_to_multiset_ensures;
    broadcast use vstd::multiset::group_multiset_axioms;

    let mut pos: usize = 0;
    while pos < out.len() && rank_le(&out[pos], &item)
        invariant
            0 <= pos <= out@.len(),
            forall|k: int| 0 <= k < pos ==> spec_rank_le(#[trigger] out@[k], item),
        decreases out@.len() - pos,
    {
        pos = pos + 1;
    }
    let ghost prefix = out@.take(pos as int);
    let ghost suffix = out@.skip(pos as int);
    let ghost before = out@;
    out.insert(pos, item);
    proof {
        assert(before =~= prefix + suffix);
        assert(out@ =~= prefix.push(item) + suffix);
        // Sortedness of the spliced sequence.
        assert forall|i: int, j: int| 0 <= i < j < out@.len() implies spec_rank_le(
            out@[i],
            out@[j],
        ) by {
            if j < pos {
                assert(spec_rank_le(before[i], before[j]));
            } else if i < pos && j == pos {
                assert(spec_rank_le(before[i], item));
            } else if i < pos && j > pos {
                assert(spec_rank_le(before[i], before[j - 1]));
            } else if i == pos && j > pos {
                // item ranks before everything the scan stopped at.
                if pos < before.len() {
                    assert(!spec_rank_le(before[pos as int], item));
                    assert(spec_rank_le(item, before[pos as int]));
                    assert(spec_rank_le(before[pos as int], before[j - 1]) || pos == j - 1);
                }
            } else {
                assert(spec_rank_le(before[i - 1], before[j - 1]));
            }
        }
        // Multiset equality of the spliced sequence.
        vstd::seq_lib::lemma_multiset_commutative(prefix.push(item), suffix);
        vstd::seq_lib::lemma_multiset_commutative(prefix, suffix);
        assert(out@.to_multiset() =~= before.to_multiset().insert(item));
    }
}

impl MethodRegistry {
    /// The safest methods for `pest` at `location` under the risk ceiling
    /// `max_r`: every non-monitoring method is scored over its matching
    /// logs, tier-0 families get the E uplift, candidates with a hard
    /// violation or `R > max_r` are dropped, sensitive locations also drop
    /// methods with disposable electronics or persistent plastics, and the
    /// survivors are returned sorted by K then E, both descending.
    #[verifier::loop_isolation(false)]
    pub fn query_safest_methods(
        &self,
        pest: PestSpecies,
        location: LocationType,
        max_r: u64,
    ) -> (out: Vec<(ControlMethod, KerScore)>)
        ensures
            out@.to_multiset() == self.spec_query_candidates(pest, location, max_r).to_multiset(),
            out@.len() == self.spec_query_candidates(pest, location, max_r).len(),
            spec_ranked(out@),
            forall|p: (ControlMethod, KerScore)| #[trigger]
                out@.contains(p) ==> self.spec_query_passes(p.0, pest, location, max_r) && p.1
                    == self.spec_query_score(p.0, pest) && self.methods@.contains(p.0),
    {
        broadcast use vstd::seq_lib::group_to_multiset_ensures;

        let ghost pass = |m: ControlMethod| self.spec_query_passes(m, pest, location, max_r);
        let ghost to_pair = |m: ControlMethod| (m, self.spec_query_score(m, pest));
        let mut out: Vec<(ControlMethod, KerScore)> = Vec::new();
        let mut i: usize = 0;
        proof {
            reveal(Seq::filter);
            assert(self.methods@.take(0).filter(pass) =~= Seq::<ControlMethod>::empty());
            assert(self.methods@.take(0).filter(pass).map_values(to_pair) =~= Seq::<
                (ControlMethod, KerScore),
            >::empty());
            assert(out@.to_multiset() =~= self.methods@.take(0).filter(pass).map_values(
                to_pair,
            ).to_multiset());
        }
        while i < self.methods.len()
            invariant
                0 <= i <= self.methods@.len(),
                spec_ranked(out@),
                out@.to_multiset() == self.methods@.take(i as int).filter(pass).map_values(
                    to_pair,
                ).to_multiset(),
                forall|p: (ControlMethod, KerScore)| #[trigger]
                    out@.contains(p) ==> self.spec_query_passes(p.0, pest, location, max_r) && p.1
                        == self.spec_query_score(p.0, pest) && self.methods@.contains(p.0),
            decreases self.methods@.len() - i,
        {
            let ghost prev = self.methods@.take(i as int).filter(pass).map_values(to_pair);
            proof {
                lemma_filter_take_step(self.methods@, i as int, pass);
            }
            let m = &self.methods[i];
            if !matches!(m.family, ControlFamily::MonitoringOnly) {
                let logs = self.logs_for_method(&m.id, pest);
                let base = score_method(m, &logs);
                let ker = if matches!(m.family, ControlFamily::Exclusion | ControlFamily::Sanitation) {
                    let lifted = if base.e + TIER0_E_UPLIFT > SCALE {
                        SCALE
                    } else {
                        base.e + TIER0_E_UPLIFT
                    };
                    KerScore {
                        k: base.k,
                        e: lifted,
                        r: base.r,
                        coords: base.coords,
                        hard_violation: base.hard_violation,
                    }
                } else {
                    base
                };
                let allowed_here = match location {
                    LocationType::Home | LocationType::Hospital => !(m.uses_disposable_electronics
                        || m.generates_persistent_plastic),
                    _ => true,
                };
                proof {
                    assert(ker == self.spec_query_score(self.methods@[i as int], pest));
                }
                if !ker.hard_violation && ker.r <= max_r && allowed_here {
                    proof {
                        assert(pass(self.methods@[i as int]));
                        assert(self.methods@.take(i as int + 1).filter(pass).map_values(to_pair)
                            =~= prev.push(to_pair(self.methods@[i as int])));
                    }
                    insert_ranked(&mut out, (m.clone(), ker));
                } else {
                    proof {
                        assert(!pass(self.methods@[i as int]));
                    }
                }
            } else {
                proof {
                    assert(!pass(self.methods@[i as int]));
                }
            }
            i = i + 1;
        }
        proof {
            assert(self.methods@.take(self.methods@.len() as int) =~= self.methods@);
            assert(out@.len() == out@.to_multiset().len());
            assert(self.spec_query_candidates(pest, location, max_r).len()
                == self.spec_query_candidates(pest, location, max_r).to_multiset().len());
        }
        out
    }

    /// The tier-0 shortlist for `pest`: exclusion and sanitation methods
    /// scored over their matching logs (no uplift), kept only without a hard
    /// violation and with R at most 0.2, sorted by K then E, both
    /// descending. The `location` argument is accepted for interface parity;
    /// tier-0 methods are material-safe by construction and no location
    /// filter applies.
    #[verifier::loop_isolation(false)]
    pub fn tier0_exclusion_hygiene(&self, pest: PestSpecies, location: LocationType) -> (out: Vec<
        (ControlMethod, KerScore),
    >)
        ensures
            out@.to_multiset() == self.spec_tier0_candidates(pest).to_multiset(),
            out@.len() == self.spec_tier0_candidates(pest).len(),
            spec_ranked(out@),
            forall|p: (ControlMethod, KerScore)| #[trigger]
                out@.contains(p) ==> self.spec_tier0_passes(p.0, pest) && p.1
                    == self.spec_tier0_score(p.0, pest) && self.methods@.contains(p.0),
    {
        broadcast use vstd::seq_lib::group_to_multiset_ensures;

        let _ = location;
        let ghost pass = |m: ControlMethod| self.spec_tier0_passes(m, pest);
        let ghost to_pair = |m: ControlMethod| (m, self.spec_tier0_score(m, pest));
        let mut out: Vec<(ControlMethod, KerScore)> = Vec::new();
        let mut i: usize = 0;
        proof {
            reveal(Seq::filter);
            assert(self.methods@.take(0).filter(pass) =~= Seq::<ControlMethod>::empty());
            assert(self.methods@.take(0).filter(pass).map_values(to_pair) =~= Seq::<
                (ControlMethod, KerScore),
            >::empty());
            assert(out@.to_multiset() =~= self.methods@.take(0).filter(pass).map_values(
                to_pair,
            ).to_multiset());
        }
        while i < self.methods.len()
            invariant
                0 <= i <= self.methods@.len(),
                spec_ranked(out@),
                out@.to_multiset() == self.methods@.take(i as int).filter(pass).map_values(
                    to_pair,
                ).to_multiset(),
                forall|p: (ControlMethod, KerScore)| #[trigger]
                    out@.contains(p) ==> self.spec_tier0_passes(p.0, pest) && p.1
                        == self.spec_tier0_score(p.0, pest) && self.methods@.contains(p.0),
            decreases self.methods@.len() - i,
        {
            let ghost prev = self.methods@.take(i as int).filter(pass).map_values(to_pair);
            proof {
                lemma_filter_take_step(self.methods@, i as int, pass);
            }
            let m = &self.methods[i];
            if matches!(m.family, ControlFamily::Exclusion | ControlFamily::Sanitation) {
                let logs = self.logs_for_method(&m.id, pest);
                let ker = score_method(m, &logs);
                if !ker.hard_violation && ker.r <= TIER0_R_CEILING {
                    proof {
                        assert(pass(self.methods@[i as int]));
                        assert(self.methods@.take(i as int + 1).filter(pass).map_values(to_pair)
                            =~= prev.push(to_pair(self.methods@[i as int])));
                    }
                    insert_ranked(&mut out, (m.clone(), ker));
                } else {
                    proof {
                        assert(!pass(self.methods@[i as int]));
                    }
                }
            } else {
                proof {
                    assert(!pass(self.methods@[i as int]));
                }
            }
            i = i + 1;
        }
        proof {
            assert(self.methods@.take(self.methods@.len() as int) =~= self.methods@);
            assert(out@.len() == out@.to_multiset().len());
            assert(self.spec_tier0_candidates(pest).len() == self.spec_tier0_candidates(
                pest,
            ).to_multiset().len());
        }
        out
    }
}

} // verus!
