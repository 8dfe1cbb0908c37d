//! The DNS provider capability: one authenticated record operation per call
//! against a single configured zone, and an in-memory stand-in for tests.

use vstd::prelude::*;
use vstd::string::StringExecFns;
use crate::domain::join_dot;

verus! {

/// The fixed time-to-live, in seconds, a created or replaced record is
/// given at the provider.
pub const DEFAULT_TTL_SECONDS: u64 = 300;

/// Why a provider operation failed: the connection failed, the remote
/// rejected the request, or the response body could not be decoded.  The
/// reconciliation loop treats the three alike; callers that log need to
/// tell them apart.
#[derive(Clone, Copy, PartialEq, Eq, Structural, Debug)]
pub enum ProviderError {
    Network,
    Remote,
    Decode,
}

/// The capability a DNS provider client offers: create, get, update and
/// delete of a single record (name, type, content) in one configured zone.
/// Every call is independently fallible; deleting an absent record is a
/// normal, successful no-op at the provider, not an error.
pub trait PorkbunAPI {
    fn create_record(&self, subdomain: &str, record_type: &str, content: &str) -> Result<
        String,
        ProviderError,
    >;

    fn get_record(&self, subdomain: &str, record_type: &str) -> Result<String, ProviderError>;

    fn update_record(&self, subdomain: &str, record_type: &str, content: &str) -> Result<
        String,
        ProviderError,
    >;

    fn delete_record(&self, subdomain: &str, record_type: &str, content: &str) -> Result<
        String,
        ProviderError,
    >;
}

/// An in-memory provider that accepts every operation and answers with the
/// operation's name and the record's fully qualified domain name.
pub struct MockPorkbun {
    domain: String,
}

impl View for MockPorkbun {
    type V = Seq<char>;

    closed spec fn view(&self) -> Seq<char> {
        self.domain@
    }
}

impl MockPorkbun {
    pub fn new(domain: String) -> (r: Self)
        ensures
            r@ == domain@,
    {
        MockPorkbun { domain }
    }

    /// The fully qualified name of a record under this provider's zone.
    pub fn fqdn(&self, subdomain: &str) -> (r: String)
        ensures
            r@ == subdomain@ + seq!['.'] + self@,
    {
        join_dot(subdomain, self.domain.as_str())
    }
}

impl PorkbunAPI for MockPorkbun {
    fn create_record(&self, subdomain: &str, _record_type: &str, _content: &str) -> (r: Result<
        String,
        ProviderError,
    >)
        ensures
            r matches Ok(s) && s@ == "create_record: "@ + subdomain@ + seq!['.'] + self@,
    {
        let fqdn = self.fqdn(subdomain);
        let mut reply = String::from_str("create_record: ");
        reply.append(fqdn.as_str());
        proof {
            assert(reply@ =~= "create_record: "@ + subdomain@ + seq!['.'] + self@);
        }
        Result::Ok(reply)
    }

    fn get_record(&self, subdomain: &str, _record_type: &str) -> (r: Result<String, ProviderError>)
        ensures
            r matches Ok(s) && s@ == "get_record: "@ + subdomain@ + seq!['.'] + self@,
    {
        let fqdn = self.fqdn(subdomain);
        let mut reply = String::from_str("get_record: ");
        reply.append(fqdn.as_str());
        proof {
            assert(reply@ =~= "get_record: "@ + subdomain@ + seq!['.'] + self@);
        }
        Result::Ok(reply)
    }

    fn update_record(&self, subdomain: &str, _record_type: &str, _content: &str) -> (r: Result<
        String,
        ProviderError,
    >)
        ensures
            r matches Ok(s) && s@ == "update_record: "@ + subdomain@ + seq!['.'] + self@,
    {
        let fqdn = self.fqdn(subdomain);
        let mut reply = String::from_str("update_record: ");
        reply.append(fqdn.as_str());
        proof {
            assert(reply@ =~= "update_record: "@ + subdomain@ + seq!['.'] + self@);
        }
        Result::Ok(reply)
    }

    fn delete_record(&self, subdomain: &str, _record_type: &str, _content: &str) -> (r: Result<
        String,
        ProviderError,
    >)
        ensures
            r matches Ok(s) && s@ == "delete_record: "@ + subdomain@ + seq!['.'] + self@,
    {
        let fqdn = self.fqdn(subdomain);
        let mut reply = String::from_str("delete_record: ");
        reply.append(fqdn.as_str());
        proof {
            assert(reply@ =~= "delete_record: "@ + subdomain@ + seq!['.'] + self@);
        }
        Result::Ok(reply)
    }
}

} // verus!
