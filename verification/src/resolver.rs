//! The resolver: the priority-ordered strategy chain.
//!
//! Strategies are tried in the order product UUID, primary MAC, sentinel.
//! On the one platform where the product-UUID query applies, its failure is
//! terminal: a query that could not be started or produced malformed output
//! surfaces as a typed failure rather than silently falling through. On
//! every other platform the MAC strategy runs, and its internal failures
//! are absorbed into the sentinel identifier, so that path never errors.

use vstd::prelude::*;
use crate::mac::mac_identifier_chars;
use crate::mac::mac_opt_wf;
use crate::mac::mac_strategy_identifier;
use crate::outcome::ResolutionFailure;
use crate::outcome::ResolutionOutcome;
use crate::platform::Platform;
use crate::platform::Strategy;
use crate::query::parse_uuid_query_output;
use crate::query::uuid_identifier_of;
use crate::query::uuid_query_ok;

verus! {

/// What the host observed when it attempted the system-information query.
#[derive(Debug)]
pub enum UuidQueryOutcome {
    /// The process ran; these are the lines of its standard output.
    Produced(Vec<String>),
    /// The process could not be started.
    Unavailable,
}

/// The outcome owed on the product-UUID path for a given query observation.
pub open spec fn uuid_resolution_post(q: UuidQueryOutcome, r: ResolutionOutcome) -> bool {
    match q {
        UuidQueryOutcome::Produced(lines) => if uuid_query_ok(lines@) {
            r is Ok && r->Ok_0@ == uuid_identifier_of(lines@)
        } else {
            r is Err && r->Err_0 is MalformedOutput
        },
        UuidQueryOutcome::Unavailable => r is Err && r->Err_0 is QueryUnavailable,
    }
}

/// The outcome owed on the MAC path for a given primary MAC address (or its
/// absence): always the canonical MAC identifier, never a failure.
pub open spec fn mac_resolution_post(m: Option<Seq<u8>>, r: ResolutionOutcome) -> bool {
    r is Ok && r->Ok_0@ == mac_identifier_chars(m)
}

/// The outcome owed by one resolution, as a function of the platform, the
/// host's query observation, and the machine's primary MAC address.
pub open spec fn resolution_post(
    p: Platform,
    q: Option<UuidQueryOutcome>,
    m: Option<Seq<u8>>,
    r: ResolutionOutcome,
) -> bool {
    if p is Windows {
        q matches Some(qq) && uuid_resolution_post(qq, r)
    } else {
        mac_resolution_post(m, r)
    }
}

/// Resolves the machine's hardware identity.
///
/// The host passes the current platform and, exactly on the platform where
/// the product-UUID strategy applies, what it observed of the
/// system-information query; everywhere else no query process is ever
/// attempted and the MAC strategy runs instead, degrading to the sentinel
/// rather than failing.
pub fn get_hardware_id(platform: Platform, uuid_query: Option<UuidQueryOutcome>) -> (r:
    ResolutionOutcome)
    requires
        uuid_query is Some <==> Strategy::PlatformProductUuid.spec_applicable_on(platform),
    ensures
        exists|m: Option<Seq<u8>>|
            mac_opt_wf(m) && #[trigger] resolution_post(platform, uuid_query, m, r),
        platform is Windows ==> (uuid_query matches Some(q) && uuid_resolution_post(q, r)),
        !(platform is Windows) ==> r is Ok,
        r is Err ==> platform is Windows,
        r is Ok ==> r->Ok_0@.len() > 0,
{
    match platform {
        Platform::Windows => {
            let q = uuid_query.unwrap();
            let res: ResolutionOutcome = match q {
                UuidQueryOutcome::Unavailable => Err(ResolutionFailure::QueryUnavailable),
                UuidQueryOutcome::Produced(lines) => parse_uuid_query_output(&lines),
            };
            proof {
                assert(mac_opt_wf(None::<Seq<u8>>) && resolution_post(
                    platform,
                    uuid_query,
                    None::<Seq<u8>>,
                    res,
                ));
            }
            res
        },
        _ => {
            let id = mac_strategy_identifier();
            let res: ResolutionOutcome = Ok(id);
            proof {
                let m = choose|m: Option<Seq<u8>>|
                    mac_opt_wf(m) && #[trigger] mac_identifier_chars(m) == res->Ok_0@;
                crate::mac::lemma_mac_identifier_namespaced(m);
                assert(mac_opt_wf(m) && resolution_post(platform, uuid_query, m, res));
            }
            res
        },
    }
}

/// Idempotence of resolution: for one machine state (the same platform, the
/// same query observation, and the same primary MAC address), any two
/// resolutions yield the same outcome: identifiers with the same characters
/// on success, and the same failure otherwise.
pub proof fn lemma_resolution_deterministic(
    p: Platform,
    q: Option<UuidQueryOutcome>,
    m: Option<Seq<u8>>,
    r1: ResolutionOutcome,
    r2: ResolutionOutcome,
)
    requires
        resolution_post(p, q, m, r1),
        resolution_post(p, q, m, r2),
    ensures
        r1 is Ok <==> r2 is Ok,
        r1 is Ok ==> r1->Ok_0@ == r2->Ok_0@,
        r1 is Err ==> r1->Err_0 == r2->Err_0,
{
}

/// The chain never reports `NoIdentifierFound`: the sentinel fallback is
/// configured on the only path whose strategies can come up empty.
pub proof fn lemma_no_identifier_found_unreachable(
    p: Platform,
    q: Option<UuidQueryOutcome>,
    m: Option<Seq<u8>>,
    r: ResolutionOutcome,
)
    requires
        resolution_post(p, q, m, r),
    ensures
        r is Err ==> !(r->Err_0 is NoIdentifierFound),
{
}

} // verus!
