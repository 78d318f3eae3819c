//! The routing state of a proxy instance: three tables, filled before serving
//! begins and only read afterwards.

use vstd::hash_map::StringHashMap;
use vstd::prelude::*;

verus! {

/// What the routing tables hold, as mathematical maps.
pub struct Routes {
    /// Edge: the single destination bound to each client identity.
    pub endpoints: Map<Seq<char>, Seq<char>>,
    /// Edge: the application each client identity belongs to.
    pub applications: Map<Seq<char>, Seq<char>>,
    /// Worker: the candidate endpoints of each application, in the order
    /// they were given.
    pub pools: Map<Seq<char>, Seq<Seq<char>>>,
}

/// The three lookup tables. A key is bound to at most one value; binding it
/// again replaces the value.
pub struct RoutingTables {
    endpoints: StringHashMap<String>,
    applications: StringHashMap<String>,
    pools: StringHashMap<Vec<String>>,
}

impl View for RoutingTables {
    type V = Routes;

    closed spec fn view(&self) -> Routes {
        Routes {
            endpoints: self.endpoints@.map_values(|endpoint: String| endpoint@),
            applications: self.applications@.map_values(|name: String| name@),
            pools: self.pools@.map_values(|pool: Vec<String>| pool.deep_view()),
        }
    }
}

impl RoutingTables {
    /// Tables that bind nothing.
    pub fn new() -> (tables: Self)
        ensures
            tables@.endpoints == Map::<Seq<char>, Seq<char>>::empty(),
            tables@.applications == Map::<Seq<char>, Seq<char>>::empty(),
            tables@.pools == Map::<Seq<char>, Seq<Seq<char>>>::empty(),
    {
        let tables = RoutingTables {
            endpoints: StringHashMap::new(),
            applications: StringHashMap::new(),
            pools: StringHashMap::new(),
        };
        assert(tables@.endpoints =~= Map::<Seq<char>, Seq<char>>::empty());
        assert(tables@.applications =~= Map::<Seq<char>, Seq<char>>::empty());
        assert(tables@.pools =~= Map::<Seq<char>, Seq<Seq<char>>>::empty());
        tables
    }

    /// Binds `client` to the destination `endpoint`.
    pub fn bind_endpoint(&mut self, client: String, endpoint: String)
        ensures
            final(self)@ == (Routes {
                endpoints: old(self)@.endpoints.insert(client@, endpoint@),
                ..old(self)@
            }),
    {
        self.endpoints.insert(client, endpoint);
        assert(self@.endpoints =~= old(self)@.endpoints.insert(client@, endpoint@));
    }

    /// Binds `client` to the application `name`.
    pub fn bind_application(&mut self, client: String, name: String)
        ensures
            final(self)@ == (Routes {
                applications: old(self)@.applications.insert(client@, name@),
                ..old(self)@
            }),
    {
        self.applications.insert(client, name);
        assert(self@.applications =~= old(self)@.applications.insert(client@, name@));
    }

    /// Binds the application `name` to its candidate endpoints.
    pub fn bind_pool(&mut self, name: String, pool: Vec<String>)
        ensures
            final(self)@ == (Routes {
                pools: old(self)@.pools.insert(name@, pool.deep_view()),
                ..old(self)@
            }),
    {
        self.pools.insert(name, pool);
        assert(self@.pools =~= old(self)@.pools.insert(name@, pool.deep_view()));
    }

    /// The destination bound to `client`, if any.
    pub fn lookup_endpoint(&self, client: &str) -> (found: Option<&String>)
        ensures
            found is Some <==> self@.endpoints.contains_key(client@),
            found is Some ==> found->0@ == self@.endpoints[client@],
    {
        self.endpoints.get(client)
    }

    /// The application bound to `client`, if any.
    pub fn lookup_application(&self, client: &str) -> (found: Option<&String>)
        ensures
            found is Some <==> self@.applications.contains_key(client@),
            found is Some ==> found->0@ == self@.applications[client@],
    {
        self.applications.get(client)
    }

    /// The candidate endpoints of the application `name`, if it is bound.
    pub fn lookup_worker_pool(&self, name: &str) -> (found: Option<&Vec<String>>)
        ensures
            found is Some <==> self@.pools.contains_key(name@),
            found is Some ==> found->0.deep_view() == self@.pools[name@],
    {
        self.pools.get(name)
    }
}

} // verus!
