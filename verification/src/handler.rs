//! The per-request state machine: authenticate, split the configured
//! domain, resolve the subdomain label, build the record set and drive the
//! reconciliation loop.

use vstd::prelude::*;
use crate::domain::{
    compose_full_subdomain, extract_subdomain, join_dot, join_labels, spec_full_subdomain,
    split_labels,
};
use crate::ident::{generate_label, generated_label};
use crate::provider::PorkbunAPI;
use crate::reconcile::{reconcile, reconcile_post, OpLogEntry, ReconciliationResult, Status};
use crate::records::{build_records, opt_view, planned_records, ObservedAddress, UpdateRequest};

verus! {

/// The long-lived, immutable service configuration the handler reads: the
/// configured root domain and the optional required token.
pub struct ServiceConfig {
    pub domain: String,
    pub token: Option<String>,
}

/// Whether a presented token satisfies the configured requirement: no
/// requirement admits everything; a required token admits exactly itself.
pub open spec fn authorized(required: Option<Seq<char>>, presented: Option<Seq<char>>) -> bool {
    match required {
        Option::None => true,
        Option::Some(t) => presented == Option::Some(t),
    }
}

/// Compares the presented token against the configured requirement by exact
/// string equality.
pub fn check_token(required: &Option<String>, presented: &Option<String>) -> (r: bool)
    ensures
        r == authorized(opt_view(*required), opt_view(*presented)),
{
    match required.as_ref() {
        Option::None => true,
        Option::Some(t) => match presented.as_ref() {
            Option::None => false,
            Option::Some(p) => *t == *p,
        },
    }
}

/// The effective clear flag of a request: absent means false.
pub open spec fn clear_flag(clear: Option<bool>) -> bool {
    match clear {
        Option::Some(b) => b,
        Option::None => false,
    }
}

/// Whether `label` is the subdomain label the request resolves to: the
/// requested one when the request pins it, otherwise a well-formed generated
/// label.
pub open spec fn resolved_label(requested: Option<Seq<char>>, label: Seq<char>) -> bool {
    match requested {
        Option::Some(s) => label == s,
        Option::None => generated_label(label),
    }
}

/// The base subdomain of a configured domain: its leading labels, joined.
pub open spec fn spec_base_subdomain(domain: Seq<char>) -> Seq<char> {
    join_labels(split_labels(domain).take(split_labels(domain).len() - 2))
}

/// The root domain of a configured domain: its last two labels, joined.
pub open spec fn spec_root_domain(domain: Seq<char>) -> Seq<char> {
    join_labels(split_labels(domain).skip(split_labels(domain).len() - 2))
}

/// The full domain a resolved label names under the configured domain.
pub open spec fn spec_full_domain(label: Seq<char>, domain: Seq<char>) -> Seq<char> {
    spec_full_subdomain(label, spec_base_subdomain(domain)) + seq!['.'] + spec_root_domain(domain)
}

/// Handles one update request end to end and returns the result together
/// with the log of provider calls made.
///
/// With a configured token and a non-matching (or absent) request token the
/// result is Unauthorized, with empty domain and record list and no provider
/// call made, whatever the other parameters.  Otherwise the request resolves
/// to some subdomain label — the requested one, or a generated one — and the
/// reconciliation loop's full contract holds of the planned record set and
/// the composed full domain.
pub fn handle_update<P: PorkbunAPI>(
    provider: &P,
    config: &ServiceConfig,
    req: &UpdateRequest,
    observed: &ObservedAddress,
) -> (r: (ReconciliationResult, Vec<OpLogEntry>))
    requires
        split_labels(config.domain@).len() >= 2,
    ensures
        !authorized(opt_view(config.token), opt_view(req.token)) ==> ({
            &&& r.0.status == Status::Unauthorized
            &&& r.0.domain@ == Seq::<char>::empty()
            &&& r.0.records@.len() == 0
            &&& r.0.clear == clear_flag(req.clear)
            &&& r.1@.len() == 0
        }),
        authorized(opt_view(config.token), opt_view(req.token)) ==> (exists|label: Seq<char>| {
            &&& #[trigger] resolved_label(opt_view(req.subdomain), label)
            &&& reconcile_post(
                planned_records(
                    opt_view(req.a),
                    opt_view(req.aaaa),
                    opt_view(req.txt),
                    observed.ipv4,
                    observed.text@,
                ),
                clear_flag(req.clear),
                spec_full_domain(label, config.domain@),
                r.0,
                r.1@,
            )
        }),
{
    let clear = match req.clear {
        Option::Some(b) => b,
        Option::None => false,
    };
    if !check_token(&config.token, &req.token) {
        let result = ReconciliationResult {
            status: Status::Unauthorized,
            domain: String::new(),
            clear,
            records: Vec::new(),
        };
        return (result, Vec::new());
    }
    let (base, root) = extract_subdomain(config.domain.clone());
    let label = match &req.subdomain {
        Option::Some(s) => s.clone(),
        Option::None => generate_label(),
    };
    let full_subdomain = compose_full_subdomain(&label, &base);
    let full_domain = join_dot(full_subdomain.as_str(), root.as_str());
    let records = build_records(req, observed);
    let out = reconcile(provider, &full_subdomain, &full_domain, &records, clear);
    proof {
        assert(resolved_label(opt_view(req.subdomain), label@));
        assert(full_domain@ == spec_full_domain(label@, config.domain@));
    }
    out
}

} // verus!
