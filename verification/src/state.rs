//! The shared state handed to every request handler: the configuration
//! store, the per-endpoint counters, and the exporter handle through which
//! the metrics endpoint renders the process-wide registry. Metrics
//! retrieval is fallible: without an exporter handle the registry is
//! unavailable.

use vstd::prelude::*;
use vstd::string::StringExecFns;
use crate::config::Store;
use crate::errors::RestError;
use crate::errors::RestErrorView;
use crate::metrics::MetricsRegistry;

verus! {

/// The state object shared by all request handlers. Handlers read the
/// store's current snapshot and record counters; only a reload replaces the
/// snapshot.
pub struct State {
    pub store: Store,
    pub registry: MetricsRegistry,
    pub handle: Option<metrics_exporter_prometheus::PrometheusHandle>,
}

impl State {
    /// A fresh state: empty configuration at version zero, no counters,
    /// and whatever exporter handle the process managed to install.
    pub fn new(handle: Option<metrics_exporter_prometheus::PrometheusHandle>) -> (s: State)
        ensures
            s.store@.version == 0,
            s.store@.endpoints =~= Seq::<crate::config::EndpointView>::empty(),
            s.registry@ =~= Seq::<crate::metrics::CounterEntryView>::empty(),
            s.handle is Some <==> handle is Some,
    {
        State { store: Store::new(), registry: MetricsRegistry::new(), handle }
    }

    /// The exporter handle, when the registry is available; the internal
    /// error surfaced as a 500 otherwise.
    pub fn get_metrics(&self) -> (r: Result<&metrics_exporter_prometheus::PrometheusHandle, RestError>)
        ensures
            r is Ok <==> self.handle is Some,
            r matches Err(e) ==> e@ == (RestErrorView::Internal {
                detail: "metrics registry unavailable"@,
            }),
    {
        match &self.handle {
            Some(h) => Ok(h),
            None => Err(RestError::Internal { detail: String::from_str("metrics registry unavailable") }),
        }
    }
}

} // verus!
