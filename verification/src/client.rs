//! Where a client finds the server, and in which namespace it speaks.

use vstd::prelude::*;
use vstd::string::StringExecFns;

verus! {

/// The server's address and the namespace of the caller, if one is set.
#[derive(Debug, PartialEq, Eq)]
pub struct ScopeClient {
    endpoint: String,
    namespace: Option<String>,
}

/// What a scope holds, as plain values.
pub ghost struct ScopeView {
    pub endpoint: Seq<char>,
    pub namespace: Option<Seq<char>>,
}

impl View for ScopeClient {
    type V = ScopeView;

    closed spec fn view(&self) -> ScopeView {
        ScopeView {
            endpoint: self.endpoint@,
            namespace: match self.namespace {
                Some(name) => Some(name@),
                None => None,
            },
        }
    }
}

impl Default for ScopeClient {
    /// A scope with an empty address and no namespace.
    fn default() -> (scope: ScopeClient)
        ensures
            scope@ == (ScopeView { endpoint: Seq::<char>::empty(), namespace: None }),
    {
        ScopeClient { endpoint: String::new(), namespace: None }
    }
}

impl Clone for ScopeClient {
    fn clone(&self) -> (copy: Self)
        ensures
            copy@ == self@,
    {
        ScopeClient {
            endpoint: self.endpoint.clone(),
            namespace: match &self.namespace {
                Some(name) => Some(name.clone()),
                None => None,
            },
        }
    }
}

impl ScopeClient {
    /// The same scope at another address.
    pub fn endpoint(self, endpoint: &str) -> (scope: ScopeClient)
        ensures
            scope@ == (ScopeView { endpoint: endpoint@, namespace: self@.namespace }),
    {
        ScopeClient { endpoint: String::from_str(endpoint), namespace: self.namespace }
    }

    /// The same scope in another namespace.
    pub fn namespace(self, namespace: &str) -> (scope: ScopeClient)
        ensures
            scope@ == (ScopeView { endpoint: self@.endpoint, namespace: Some(namespace@) }),
    {
        ScopeClient { endpoint: self.endpoint, namespace: Some(String::from_str(namespace)) }
    }

    /// The address of `path` on the server.
    pub fn url(&self, path: &str) -> (url: String)
        ensures
            url@ == self@.endpoint + path@,
    {
        self.endpoint.clone().concat(path)
    }

    /// The header that every request of the scope carries: `t-ns` with the
    /// namespace, or none where no namespace is set.
    pub fn header(&self) -> (header: Option<(String, String)>)
        ensures
            match self@.namespace {
                Some(name) => header matches Some(pair) && pair.0@ == "t-ns"@ && pair.1@ == name,
                None => header is None,
            },
    {
        match &self.namespace {
            Some(name) => Some(("t-ns".to_string(), name.clone())),
            None => None,
        }
    }
}

} // verus!
