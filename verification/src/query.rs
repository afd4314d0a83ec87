//! Query results over the things of a kind, and the host graph settings.

use vstd::prelude::*;

verus! {

/// The results of a query, in order.
pub struct Query<T> {
    pub items: Vec<T>,
}

impl<T> Query<T> {
    /// The first result, if any.
    pub fn one(self) -> (r: Option<T>)
        ensures
            r == (if self.items@.len() > 0 {
                Some(self.items@[0])
            } else {
                None
            }),
    {
        let mut items = self.items;
        if items.len() > 0 {
            Some(items.remove(0))
        } else {
            None
        }
    }

    /// All results, in order.
    pub fn all(self) -> (r: Vec<T>)
        ensures
            r@ == self.items@,
    {
        self.items
    }
}

/// The graph store backing the host runtime.
#[derive(Clone, Copy, Debug, PartialEq, Eq, Structural)]
pub enum GraphBackend {
    InMemory,
}

/// Where a Neo4j server is and how to log in.
#[derive(Debug)]
pub struct Neo4jConfig {
    pub uri: String,
    pub user: String,
    pub password: String,
}

/// The graph store settings of the host runtime.
#[derive(Debug)]
pub struct GraphConfig {
    pub backend: GraphBackend,
    pub neo4j: Neo4jConfig,
}

/// The Neo4j address used when none is set.
pub open spec fn default_uri() -> Seq<char> {
    seq!['b', 'o', 'l', 't', ':', '/', '/', '1', '2', '7', '.', '0', '.', '0', '.', '1', ':', '7', '6', '8', '7']
}

/// The Neo4j user used when none is set.
pub open spec fn default_user() -> Seq<char> {
    seq!['n', 'e', 'o', '4', 'j']
}

/// The Neo4j password used when none is set.
pub open spec fn default_password() -> Seq<char> {
    seq!['s', 'e', 'c', 'r', 'e', 't']
}

/// A setting, or its default.
pub open spec fn setting_or(o: Option<String>, d: Seq<char>) -> Seq<char> {
    match o {
        Some(s) => s@,
        None => d,
    }
}

impl GraphConfig {
    /// Settings from the values found (absent ones take their defaults); the
    /// store is in memory, the only backend this build has.
    pub fn from_settings(uri: Option<String>, user: Option<String>, password: Option<String>) -> (c: GraphConfig)
        ensures
            c.backend == GraphBackend::InMemory,
            c.neo4j.uri@ == setting_or(uri, default_uri()),
            c.neo4j.user@ == setting_or(user, default_user()),
            c.neo4j.password@ == setting_or(password, default_password()),
    {
        proof {
            reveal_strlit("bolt://127.0.0.1:7687");
            assert("bolt://127.0.0.1:7687"@ =~= seq!['b', 'o', 'l', 't', ':', '/', '/', '1', '2', '7', '.', '0', '.', '0', '.', '1', ':', '7', '6', '8', '7']);
            reveal_strlit("neo4j");
            assert("neo4j"@ =~= seq!['n', 'e', 'o', '4', 'j']);
            reveal_strlit("secret");
            assert("secret"@ =~= seq!['s', 'e', 'c', 'r', 'e', 't']);
        }
        let uri = match uri {
            Some(s) => s,
            None => String::from_str("bolt://127.0.0.1:7687"),
        };
        let user = match user {
            Some(s) => s,
            None => String::from_str("neo4j"),
        };
        let password = match password {
            Some(s) => s,
            None => String::from_str("secret"),
        };
        GraphConfig { backend: GraphBackend::InMemory, neo4j: Neo4jConfig { uri, user, password } }
    }
}

} // verus!
