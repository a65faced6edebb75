//! The gateway's cross-cutting guarantees, stated and proved over the same
//! spec functions the executable contracts use.

use vstd::prelude::*;
use crate::config::ConfigSnapshotView;
use crate::config::EndpointView;
use crate::config::lemma_lookup_some;
use crate::config::spec_contains_name;
use crate::config::spec_lookup;
use crate::errors::RestErrorView;
use crate::errors::spec_error_code;
use crate::handlers::spec_health_payload;
use crate::handlers::spec_help_payload;
use crate::handlers::spec_not_found_body;
use crate::handlers::spec_root_payload;

verus! {

/// Idempotence of the fixed handlers: any two payloads of `health`, of
/// `help`, or of `root` on the same metadata are identical; the handlers
/// read and mutate no state, so repetition changes nothing.
pub proof fn lemma_fixed_handlers_idempotent(
    h1: Seq<char>,
    h2: Seq<char>,
    p1: Seq<char>,
    p2: Seq<char>,
)
    requires
        h1 == spec_health_payload(),
        h2 == spec_health_payload(),
        p1 == spec_help_payload(),
        p2 == spec_help_payload(),
    ensures
        h1 == h2,
        p1 == p2,
{
}

/// Idempotence of `root`: for one set of process metadata, any two
/// payloads are identical.
pub proof fn lemma_root_idempotent(
    name: Seq<char>,
    version: Seq<char>,
    description: Seq<char>,
    r1: Seq<char>,
    r2: Seq<char>,
)
    requires
        r1 == spec_root_payload(name, version, description),
        r2 == spec_root_payload(name, version, description),
    ensures
        r1 == r2,
{
}

/// Reload atomicity: a forward resolves names against the one snapshot it
/// fetched, and that snapshot is either the pre-reload or the post-reload
/// entry list in full — there is no mixed list for it to resolve through.
/// So a name configured only in the new entries resolves only through the
/// new list, a name removed by the new entries resolves only through the
/// old one, and a name in neither never resolves.
pub proof fn lemma_reload_atomicity(
    pre: Seq<EndpointView>,
    post: Seq<EndpointView>,
    observed: Seq<EndpointView>,
    n: Seq<char>,
)
    requires
        observed == pre || observed == post,
    ensures
        spec_lookup(observed, n) is Some ==> spec_contains_name(pre, n) || spec_contains_name(
            post,
            n,
        ),
        !spec_contains_name(pre, n) && spec_lookup(observed, n) is Some ==> observed == post,
        !spec_contains_name(post, n) && spec_lookup(observed, n) is Some ==> observed == pre,
        !spec_contains_name(pre, n) && !spec_contains_name(post, n) ==> spec_lookup(observed, n)
            is None,
{
    lemma_lookup_some(observed, n);
}

/// A failed reload preserves the old state: when `reload` answers with an
/// error, the store's snapshot is the one from before the call, so every
/// endpoint name resolves exactly as it did, and the reported error is a
/// client-side 400.
pub proof fn lemma_failed_reload_preserves_lookups(
    pre: ConfigSnapshotView,
    post: ConfigSnapshotView,
    e: RestErrorView,
    n: Seq<char>,
)
    requires
        post == pre,
        e matches RestErrorView::Config { .. },
    ensures
        spec_lookup(post.endpoints, n) == spec_lookup(pre.endpoints, n),
        post.version == pre.version,
        spec_error_code(e) == 400,
{
}

/// An unknown endpoint is a structured 404: a name no entry carries never
/// resolves, and the error the forwarder answers with for it carries the
/// stable code 404 beside the transport status.
pub proof fn lemma_unknown_endpoint_404(s: Seq<EndpointView>, n: Seq<char>, e: RestErrorView)
    requires
        !spec_contains_name(s, n),
        e == (RestErrorView::UnknownEndpoint { name: n }),
    ensures
        spec_lookup(s, n) is None,
        spec_error_code(e) == 404,
{
    lemma_lookup_some(s, n);
}

/// The not-found body is one constant: every unmatched path gets the same
/// structured answer.
pub proof fn lemma_not_found_stable(b1: Seq<char>, b2: Seq<char>)
    requires
        b1 == spec_not_found_body(),
        b2 == spec_not_found_body(),
    ensures
        b1 == b2,
{
}

} // verus!

