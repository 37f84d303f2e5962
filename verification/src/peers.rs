//! The peer registry: host names extracted from peer addresses.

use crate::ledger::BlockChain;
use vstd::prelude::*;

verus! {

/// The host component of `address` parsed as an absolute URL, or `None`
/// when the parse fails or the URL carries no host; a function of the
/// string alone.
pub uninterp spec fn url_host_of(address: Seq<char>) -> Option<Seq<char>>;

/// Relies on `url::Url::parse` and `url::Url::host`: parses an absolute
/// URL and yields its host component, `None` on a parse error or for a URL
/// without a host.
#[verifier::external_body]
fn parse_host(address: &str) -> (r: Option<String>)
    ensures
        r matches Some(h) ==> url_host_of(address@) == Some(h@),
        r is None ==> url_host_of(address@) is None,
{
    match url::Url::parse(address) {
        Ok(u) => match u.host() {
            Some(host) => Some(host.to_string()),
            None => None,
        },
        Err(_) => None,
    }
}

impl BlockChain {
    /// Parses `address` and appends its host to the peer registry; a string
    /// that is not an absolute URL, or one whose URL has no host, leaves
    /// the registry untouched.
    pub fn register_node(&mut self, address: String)
        ensures
            final(self).chain == old(self).chain,
            final(self).current_transactions == old(self).current_transactions,
            match url_host_of(address@) {
                Some(h) => final(self).nodes@.len() == old(self).nodes@.len() + 1
                    && final(self).nodes@.last()@ == h && final(self).nodes@.drop_last() == old(
                    self,
                ).nodes@,
                None => final(self).nodes == old(self).nodes,
            },
    {
        match parse_host(address.as_str()) {
            Some(host) => {
                self.nodes.push(host);
                proof {
                    assert(self.nodes@.drop_last() =~= old(self).nodes@);
                }
            },
            None => {},
        }
    }
}

} // verus!
