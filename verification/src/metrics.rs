//! The metrics registry model: per-endpoint request counters labeled by
//! endpoint name and outcome, incremented by every handler, and the trusted
//! boundary to the exporter that renders the process-wide registry in its
//! standard text format.

use vstd::prelude::*;

verus! {

/// An external type: the exporter's handle to the process-wide recorder.
#[verifier::external_type_specification]
#[verifier::external_body]
pub struct ExPrometheusHandle(metrics_exporter_prometheus::PrometheusHandle);

/// Relies on `PrometheusHandle::render`: the exporter's text rendering of
/// the process-wide registry. The text depends on what the process has
/// recorded so far, so nothing is claimed of it.
#[verifier::external_body]
pub fn render_metrics(h: &metrics_exporter_prometheus::PrometheusHandle) -> String {
    h.render()
}

/// How a handled call ended, as a counter label.
#[derive(Clone, Copy, PartialEq, Eq, Structural, Debug)]
pub enum Outcome {
    Success,
    ClientError,
    UpstreamError,
    InternalError,
}

/// One counter: how many calls to `endpoint` ended with `outcome`.
pub struct CounterEntry {
    pub endpoint: String,
    pub outcome: Outcome,
    pub count: u64,
}

/// The mathematical value of a `CounterEntry`.
#[verifier::ext_equal]
pub struct CounterEntryView {
    pub endpoint: Seq<char>,
    pub outcome: Outcome,
    pub count: u64,
}

impl View for CounterEntry {
    type V = CounterEntryView;

    open spec fn view(&self) -> CounterEntryView {
        CounterEntryView { endpoint: self.endpoint@, outcome: self.outcome, count: self.count }
    }
}

/// The count the first entry labeled (`n`, `o`) carries, if any.
pub open spec fn spec_count(s: Seq<CounterEntryView>, n: Seq<char>, o: Outcome) -> Option<u64>
    decreases s.len(),
{
    if s.len() == 0 {
        None
    } else if s[0].endpoint == n && s[0].outcome == o {
        Some(s[0].count)
    } else {
        spec_count(s.drop_first(), n, o)
    }
}

/// A counter incremented with saturation: counters never overflow and never
/// wrap back.
pub open spec fn spec_bump(c: u64) -> u64 {
    if c < u64::MAX {
        (c + 1) as u64
    } else {
        c
    }
}

proof fn lemma_count_push(s: Seq<CounterEntryView>, e: CounterEntryView, n: Seq<char>, o: Outcome)
    ensures
        spec_count(s.push(e), n, o) == (if spec_count(s, n, o) is Some {
            spec_count(s, n, o)
        } else if e.endpoint == n && e.outcome == o {
            Some(e.count)
        } else {
            None::<u64>
        }),
    decreases s.len(),
{
    if s.len() == 0 {
        assert(s.push(e).drop_first() =~= Seq::<CounterEntryView>::empty());
        assert(spec_count(Seq::<CounterEntryView>::empty(), n, o) is None);
    } else {
        assert(s.push(e)[0] == s[0]);
        assert(s.push(e).drop_first() =~= s.drop_first().push(e));
        lemma_count_push(s.drop_first(), e, n, o);
    }
}

proof fn lemma_count_update(
    s: Seq<CounterEntryView>,
    i: int,
    e2: CounterEntryView,
    n: Seq<char>,
    o: Outcome,
)
    requires
        0 <= i < s.len(),
        s[i].endpoint == n,
        s[i].outcome == o,
        forall|k: int| 0 <= k < i ==> !(#[trigger] s[k].endpoint == n && s[k].outcome == o),
        e2.endpoint == n,
        e2.outcome == o,
    ensures
        spec_count(s.update(i, e2), n, o) == Some(e2.count),
        forall|n2: Seq<char>, o2: Outcome|
            !(n2 == n && o2 == o) ==> spec_count(s.update(i, e2), n2, o2) == spec_count(s, n2, o2),
    decreases i,
{
    if i == 0 {
        assert(s.update(0, e2)[0] == e2);
        assert(s.update(0, e2).drop_first() =~= s.drop_first());
        assert forall|n2: Seq<char>, o2: Outcome| !(n2 == n && o2 == o) implies spec_count(
            s.update(0, e2),
            n2,
            o2,
        ) == spec_count(s, n2, o2) by {
            assert(!(e2.endpoint == n2 && e2.outcome == o2));
            assert(!(s[0].endpoint == n2 && s[0].outcome == o2));
        }
    } else {
        assert(s.update(i, e2)[0] == s[0]);
        assert(s.update(i, e2).drop_first() =~= s.drop_first().update(i - 1, e2));
        assert(!(s[0].endpoint == n && s[0].outcome == o));
        assert forall|k: int| 0 <= k < i - 1 implies !(#[trigger] s.drop_first()[k].endpoint == n
            && s.drop_first()[k].outcome == o) by {
            assert(s.drop_first()[k] == s[k + 1]);
        }
        lemma_count_update(s.drop_first(), i - 1, e2, n, o);
        assert forall|n2: Seq<char>, o2: Outcome| !(n2 == n && o2 == o) implies spec_count(
            s.update(i, e2),
            n2,
            o2,
        ) == spec_count(s, n2, o2) by {
            if s[0].endpoint == n2 && s[0].outcome == o2 {
                assert(spec_count(s.update(i, e2), n2, o2) == Some(s[0].count));
                assert(spec_count(s, n2, o2) == Some(s[0].count));
            } else {
                assert(spec_count(s.update(i, e2), n2, o2) == spec_count(
                    s.drop_first().update(i - 1, e2),
                    n2,
                    o2,
                ));
                assert(spec_count(s, n2, o2) == spec_count(s.drop_first(), n2, o2));
            }
        }
    }
}

/// The registry: a set of per-endpoint counters, one per (endpoint,
/// outcome) label.
pub struct MetricsRegistry {
    pub counters: Vec<CounterEntry>,
}

impl View for MetricsRegistry {
    type V = Seq<CounterEntryView>;

    open spec fn view(&self) -> Seq<CounterEntryView> {
        self.counters@.map_values(|c: CounterEntry| c@)
    }
}

impl MetricsRegistry {
    /// A registry with no counters yet.
    pub fn new() -> (r: MetricsRegistry)
        ensures
            r@ =~= Seq::<CounterEntryView>::empty(),
    {
        MetricsRegistry { counters: Vec::new() }
    }

    /// Counts one more call to `endpoint` that ended with `outcome`: the
    /// counter under that label is one higher (first call: one), saturating
    /// at the maximum; every other label's counter is untouched.
    pub fn record(&mut self, endpoint: &String, outcome: Outcome)
        ensures
            spec_count(final(self)@, endpoint@, outcome) == (match spec_count(
                old(self)@,
                endpoint@,
                outcome,
            ) {
                None => Some(1u64),
                Some(c) => Some(spec_bump(c)),
            }),
            forall|n2: Seq<char>, o2: Outcome|
                !(n2 == endpoint@ && o2 == outcome) ==> spec_count(final(self)@, n2, o2)
                    == spec_count(old(self)@, n2, o2),
    {
        let ghost v = self@;
        let n: usize = self.counters.len();
        let mut i: usize = 0;
        while i < n
            invariant
                i <= n,
                n == self.counters.len(),
                v == self@,
                self == old(self),
                forall|k: int|
                    0 <= k < i ==> !(#[trigger] v[k].endpoint == endpoint@ && v[k].outcome
                        == outcome),
            decreases n - i,
        {
            assert(v[i as int] == self.counters@[i as int]@);
            if self.counters[i].endpoint.eq(endpoint) && self.counters[i].outcome == outcome {
                let c = self.counters[i].count;
                let bumped = if c < u64::MAX {
                    c + 1
                } else {
                    c
                };
                let entry = CounterEntry {
                    endpoint: self.counters[i].endpoint.clone(),
                    outcome,
                    count: bumped,
                };
                let ghost e2 = entry@;
                self.counters.set(i, entry);
                proof {
                    assert(self@ =~= v.update(i as int, e2));
                    lemma_count_update(v, i as int, e2, endpoint@, outcome);
                    lemma_count_first_match(v, i as int, endpoint@, outcome);
                }
                return ;
            }
            i += 1;
        }
        let entry = CounterEntry { endpoint: endpoint.clone(), outcome, count: 1 };
        let ghost e2 = entry@;
        self.counters.push(entry);
        proof {
            assert(self@ =~= v.push(e2));
            lemma_count_push(v, e2, endpoint@, outcome);
            lemma_count_no_match(v, endpoint@, outcome);
            assert forall|n2: Seq<char>, o2: Outcome| !(n2 == endpoint@ && o2
                == outcome) implies spec_count(self@, n2, o2) == spec_count(v, n2, o2) by {
                lemma_count_push(v, e2, n2, o2);
            }
        }
    }
}

/// When the first `i` entries miss the label and entry `i` hits it, the
/// label's count is entry `i`'s.
proof fn lemma_count_first_match(s: Seq<CounterEntryView>, i: int, n: Seq<char>, o: Outcome)
    requires
        0 <= i < s.len(),
        s[i].endpoint == n,
        s[i].outcome == o,
        forall|k: int| 0 <= k < i ==> !(#[trigger] s[k].endpoint == n && s[k].outcome == o),
    ensures
        spec_count(s, n, o) == Some(s[i].count),
    decreases i,
{
    if i > 0 {
        assert(s.drop_first()[i - 1] == s[i]);
        assert forall|k: int| 0 <= k < i - 1 implies !(#[trigger] s.drop_first()[k].endpoint == n
            && s.drop_first()[k].outcome == o) by {
            assert(s.drop_first()[k] == s[k + 1]);
        }
        lemma_count_first_match(s.drop_first(), i - 1, n, o);
    }
}

/// When no entry carries the label, the label has no count.
proof fn lemma_count_no_match(s: Seq<CounterEntryView>, n: Seq<char>, o: Outcome)
    requires
        forall|k: int| 0 <= k < s.len() ==> !(#[trigger] s[k].endpoint == n && s[k].outcome == o),
    ensures
        spec_count(s, n, o) is None,
    decreases s.len(),
{
    if s.len() > 0 {
        assert forall|k: int| 0 <= k < s.len() - 1 implies !(#[trigger] s.drop_first()[k].endpoint
            == n && s.drop_first()[k].outcome == o) by {
            assert(s.drop_first()[k] == s[k + 1]);
        }
        lemma_count_no_match(s.drop_first(), n, o);
    }
}

} // verus!
