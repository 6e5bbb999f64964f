//! Exact routing from public hostnames to tunnels.

use vstd::prelude::*;
use vstd::string::*;

use crate::names::{HttpHostname, TunnelId};

verus! {

pub const MAX_HTTP_HOST_ROUTES: usize = 64;

/// Whether a catalog's route may be used.
#[derive(Debug, Clone, Copy, PartialEq, Eq, Structural)]
pub enum HttpsRouteStatus {
    Enabled,
    Disabled,
}

/// How far the source of a catalog can be relied on.
#[derive(Debug, Clone, Copy, PartialEq, Eq, Structural)]
pub enum HttpsRouteSourceHealth {
    Live,
    Stale,
    Expired,
}

/// One route of a catalog.
#[derive(Debug)]
pub struct HttpsRouteRecord {
    pub hostname: HttpHostname,
    pub tunnel_id: TunnelId,
    pub status: HttpsRouteStatus,
}

/// The catalog that a route source published last, and how far that source can
/// be relied on.
#[derive(Debug)]
pub struct HttpsRouteCatalog {
    pub version: u64,
    pub health: HttpsRouteSourceHealth,
    pub routes: Vec<HttpsRouteRecord>,
}

/// One fixed route.
#[derive(Debug)]
pub struct HttpHostRoute {
    pub hostname: HttpHostname,
    pub tunnel_id: TunnelId,
}

/// Where routes come from: a fixed table, or a catalog that is replaced whole.
#[derive(Debug)]
pub enum HttpHostRouteSource {
    Static(Vec<HttpHostRoute>),
    Dynamic(HttpsRouteCatalog),
}

/// The routes from hostnames to tunnels.
#[derive(Debug)]
pub struct HttpHostRoutes {
    pub source: HttpHostRouteSource,
}

/// Why a fixed table is refused.
#[derive(Debug, PartialEq, Eq)]
pub enum HttpHostRoutesError {
    Empty,
    TooManyRoutes,
    DuplicateHostname(HttpHostname),
}

/// A fixed route as the names it joins.
pub open spec fn route_names(route: HttpHostRoute) -> (Seq<char>, Seq<char>) {
    (route.hostname@, route.tunnel_id@)
}

/// The enabled routes of a catalog, in its order.
pub open spec fn enabled_routes(records: Seq<HttpsRouteRecord>) -> Seq<(Seq<char>, Seq<char>)>
    decreases records.len(),
{
    if records.len() == 0 {
        Seq::empty()
    } else {
        let front = enabled_routes(records.drop_last());
        if records.last().status is Enabled {
            front.push((records.last().hostname@, records.last().tunnel_id@))
        } else {
            front
        }
    }
}

/// The tunnel of the first route for a hostname.
pub open spec fn lookup(routes: Seq<(Seq<char>, Seq<char>)>, hostname: Seq<char>) -> Option<
    Seq<char>,
>
    decreases routes.len(),
{
    if routes.len() == 0 {
        None
    } else {
        match lookup(routes.drop_last(), hostname) {
            Some(tunnel) => Some(tunnel),
            None => if routes.last().0 == hostname { Some(routes.last().1) } else { None },
        }
    }
}

/// Whether some route leads to a tunnel.
pub open spec fn leads_to(routes: Seq<(Seq<char>, Seq<char>)>, tunnel: Seq<char>) -> bool {
    exists|i: int| 0 <= i < routes.len() && #[trigger] routes[i].1 == tunnel
}

/// Whether the hostname at `i` stands before it already.
pub open spec fn repeats(routes: Seq<(HttpHostname, TunnelId)>, i: int) -> bool {
    exists|j: int| 0 <= j < i && #[trigger] routes[j].0@ == routes[i].0@
}

impl View for HttpHostRoutes {
    type V = Seq<(Seq<char>, Seq<char>)>;

    /// The routes in force: a fixed table whole, or what a catalog enables while
    /// its source has not expired.
    open spec fn view(&self) -> Seq<(Seq<char>, Seq<char>)> {
        match self.source {
            HttpHostRouteSource::Static(routes) => routes@.map_values(
                |route: HttpHostRoute| route_names(route),
            ),
            HttpHostRouteSource::Dynamic(catalog) => if catalog.health is Expired {
                Seq::empty()
            } else {
                enabled_routes(catalog.routes@)
            },
        }
    }
}

impl Clone for HttpsRouteRecord {
    fn clone(&self) -> (copy: HttpsRouteRecord)
        ensures
            copy == *self,
    {
        HttpsRouteRecord {
            hostname: self.hostname.clone(),
            tunnel_id: self.tunnel_id.clone(),
            status: self.status,
        }
    }
}

impl Clone for HttpsRouteCatalog {
    fn clone(&self) -> (copy: HttpsRouteCatalog)
        ensures
            copy.version == self.version,
            copy.health == self.health,
            copy.routes@ == self.routes@,
    {
        let mut routes: Vec<HttpsRouteRecord> = Vec::new();
        let mut i: usize = 0;
        while i < self.routes.len()
            invariant
                i <= self.routes@.len(),
                routes@ == self.routes@.take(i as int),
            decreases self.routes@.len() - i,
        {
            routes.push(self.routes[i].clone());
            assert(self.routes@.take(i + 1) =~= self.routes@.take(i as int).push(
                self.routes@[i as int],
            ));
            i = i + 1;
        }
        assert(self.routes@.take(i as int) =~= self.routes@);
        HttpsRouteCatalog { version: self.version, health: self.health, routes }
    }
}

impl Clone for HttpHostRoute {
    fn clone(&self) -> (copy: HttpHostRoute)
        ensures
            copy == *self,
    {
        HttpHostRoute { hostname: self.hostname.clone(), tunnel_id: self.tunnel_id.clone() }
    }
}

/// Whether two sources hold the same routes in the same way.
pub open spec fn same_source(a: HttpHostRouteSource, b: HttpHostRouteSource) -> bool {
    match (a, b) {
        (HttpHostRouteSource::Static(a), HttpHostRouteSource::Static(b)) => a@ == b@,
        (HttpHostRouteSource::Dynamic(a), HttpHostRouteSource::Dynamic(b)) => a.version == b.version
            && a.health == b.health && a.routes@ == b.routes@,
        _ => false,
    }
}

/// What routes come from once a catalog was published: a fixed table stays, and any
/// earlier catalog is replaced whole.
pub open spec fn following(
    source: HttpHostRouteSource,
    catalog: HttpsRouteCatalog,
) -> HttpHostRouteSource {
    match source {
        HttpHostRouteSource::Static(routes) => HttpHostRouteSource::Static(routes),
        HttpHostRouteSource::Dynamic(_) => HttpHostRouteSource::Dynamic(catalog),
    }
}

impl Clone for HttpHostRoutes {
    fn clone(&self) -> (copy: HttpHostRoutes)
        ensures
            same_source(copy.source, self.source),
            copy@ == self@,
    {
        match &self.source {
            HttpHostRouteSource::Static(table) => {
                let mut routes: Vec<HttpHostRoute> = Vec::new();
                let mut i: usize = 0;
                while i < table.len()
                    invariant
                        i <= table@.len(),
                        routes@ == table@.take(i as int),
                    decreases table@.len() - i,
                {
                    routes.push(table[i].clone());
                    assert(table@.take(i + 1) =~= table@.take(i as int).push(table@[i as int]));
                    i = i + 1;
                }
                assert(table@.take(i as int) =~= table@);
                HttpHostRoutes { source: HttpHostRouteSource::Static(routes) }
            },
            HttpHostRouteSource::Dynamic(catalog) => HttpHostRoutes {
                source: HttpHostRouteSource::Dynamic(catalog.clone()),
            },
        }
    }
}

impl HttpHostRoutes {
    /// A fixed table, in which no hostname stands twice.
    pub fn new(routes: Vec<(HttpHostname, TunnelId)>) -> (result: Result<
        HttpHostRoutes,
        HttpHostRoutesError,
    >)
        ensures
            result matches Err(HttpHostRoutesError::Empty) <==> routes@.len() == 0,
            result matches Err(HttpHostRoutesError::TooManyRoutes) <==> routes@.len()
                > MAX_HTTP_HOST_ROUTES,
            result matches Err(HttpHostRoutesError::DuplicateHostname(hostname)) ==> exists|i: int|
                #![trigger routes@[i]]
                0 <= i < routes@.len() && repeats(routes@, i) && hostname@ == routes@[i].0@ && (
                forall|k: int| 0 <= k < i ==> !#[trigger] repeats(routes@, k)),
            result is Ok <==> 1 <= routes@.len() <= MAX_HTTP_HOST_ROUTES && (forall|k: int|
                0 <= k < routes@.len() ==> !#[trigger] repeats(routes@, k)),
            result matches Ok(table) ==> table.source is Static && table@ == routes@.map_values(
                |route: (HttpHostname, TunnelId)| (route.0@, route.1@),
            ),
    {
        if routes.len() == 0 {
            return Err(HttpHostRoutesError::Empty);
        }
        if routes.len() > MAX_HTTP_HOST_ROUTES {
            return Err(HttpHostRoutesError::TooManyRoutes);
        }
        let mut indexed: Vec<HttpHostRoute> = Vec::new();
        let mut i: usize = 0;
        while i < routes.len()
            invariant
                i <= routes@.len() <= MAX_HTTP_HOST_ROUTES,
                indexed@.len() == i,
                forall|k: int| 0 <= k < i ==> !#[trigger] repeats(routes@, k),
                forall|k: int|
                    0 <= k < i ==> route_names(#[trigger] indexed@[k]) == (
                        routes@[k].0@,
                        routes@[k].1@,
                    ),
            decreases routes@.len() - i,
        {
            let mut j: usize = 0;
            while j < i
                invariant
                    j <= i < routes@.len() <= MAX_HTTP_HOST_ROUTES,
                    forall|k: int| 0 <= k < i ==> !#[trigger] repeats(routes@, k),
                    forall|k: int| 0 <= k < j ==> (#[trigger] routes@[k]).0@ != routes@[i as int].0@,
                decreases i - j,
            {
                if routes[j].0.same(&routes[i].0) {
                    proof {
                        assert(repeats(routes@, i as int));
                    }
                    return Err(HttpHostRoutesError::DuplicateHostname(routes[i].0.clone()));
                }
                j = j + 1;
            }
            indexed.push(
                HttpHostRoute { hostname: routes[i].0.clone(), tunnel_id: routes[i].1.clone() },
            );
            i = i + 1;
        }
        let table = HttpHostRoutes { source: HttpHostRouteSource::Static(indexed) };
        proof {
            assert(table@ =~= routes@.map_values(
                |route: (HttpHostname, TunnelId)| (route.0@, route.1@),
            ));
        }
        Ok(table)
    }

    /// Routes that follow a catalog.
    pub fn dynamic(catalog: HttpsRouteCatalog) -> (routes: HttpHostRoutes)
        ensures
            routes.source == HttpHostRouteSource::Dynamic(catalog),
    {
        HttpHostRoutes { source: HttpHostRouteSource::Dynamic(catalog) }
    }

    /// Takes a catalog that was published: routes that follow one follow this one from
    /// now on.
    pub fn follow(&mut self, catalog: HttpsRouteCatalog)
        ensures
            final(self).source == following(old(self).source, catalog),
    {
        if let HttpHostRouteSource::Dynamic(_) = &self.source {
            self.source = HttpHostRouteSource::Dynamic(catalog);
        }
    }

    /// Routes that follow a catalog of which nothing has been heard: none.
    pub fn dynamic_unavailable() -> (routes: HttpHostRoutes)
        ensures
            routes.source matches HttpHostRouteSource::Dynamic(catalog) && catalog.version == 1
                && catalog.health is Expired && catalog.routes@.len() == 0,
            routes@.len() == 0,
    {
        HttpHostRoutes::dynamic(
            HttpsRouteCatalog {
                version: 1,
                health: HttpsRouteSourceHealth::Expired,
                routes: Vec::new(),
            },
        )
    }

    /// A fixed table of one route.
    pub fn single(hostname: HttpHostname, tunnel_id: TunnelId) -> (routes: HttpHostRoutes)
        ensures
            routes.source is Static,
            routes@ == seq![(hostname@, tunnel_id@)],
    {
        let mut table: Vec<HttpHostRoute> = Vec::new();
        table.push(HttpHostRoute { hostname, tunnel_id });
        let routes = HttpHostRoutes { source: HttpHostRouteSource::Static(table) };
        proof {
            assert(routes@ =~= seq![(hostname@, tunnel_id@)]);
        }
        routes
    }

    /// The tunnel that serves a hostname.
    pub fn resolve(&self, hostname: &HttpHostname) -> (tunnel: Option<TunnelId>)
        ensures
            match tunnel {
                Some(tunnel) => lookup(self@, hostname@) == Some(tunnel@),
                None => lookup(self@, hostname@) is None,
            },
    {
        match &self.source {
            HttpHostRouteSource::Static(routes) => {
                let ghost names = |route: HttpHostRoute| route_names(route);
                let mut i: usize = 0;
                proof {
                    assert(routes@.take(0).map_values(names).len() == 0);
                }
                while i < routes.len()
                    invariant
                        i <= routes@.len(),
                        names == (|route: HttpHostRoute| route_names(route)),
                        self@ == routes@.map_values(names),
                        lookup(routes@.take(i as int).map_values(names), hostname@) is None,
                    decreases routes@.len() - i,
                {
                    proof {
                        let longer = routes@.take(i + 1).map_values(names);
                        assert(longer.drop_last() =~= routes@.take(i as int).map_values(names));
                        assert(longer.last() == route_names(routes@[i as int]));
                    }
                    if routes[i].hostname.same(hostname) {
                        proof {
                            lemma_lookup_prefix(
                                self@,
                                hostname@,
                                i + 1,
                            );
                            assert(self@.take(i + 1) =~= routes@.take(i + 1).map_values(names));
                        }
                        return Some(routes[i].tunnel_id.clone());
                    }
                    i = i + 1;
                }
                proof {
                    assert(routes@.take(i as int) =~= routes@);
                }
                None
            },
            HttpHostRouteSource::Dynamic(catalog) => {
                if catalog.health == HttpsRouteSourceHealth::Expired {
                    return None;
                }
                let mut i: usize = 0;
                while i < catalog.routes.len()
                    invariant
                        i <= catalog.routes@.len(),
                        self@ == enabled_routes(catalog.routes@),
                        lookup(enabled_routes(catalog.routes@.take(i as int)), hostname@) is None,
                    decreases catalog.routes@.len() - i,
                {
                    let ghost shorter = catalog.routes@.take(i as int);
                    let ghost longer = catalog.routes@.take(i + 1);
                    proof {
                        assert(longer.drop_last() =~= shorter);
                        assert(longer.last() == catalog.routes@[i as int]);
                        let front = enabled_routes(shorter);
                        assert(front.push(
                            (longer.last().hostname@, longer.last().tunnel_id@),
                        ).drop_last() =~= front);
                    }
                    if catalog.routes[i].status == HttpsRouteStatus::Enabled
                        && catalog.routes[i].hostname.same(hostname) {
                        proof {
                            lemma_enabled_prefix(catalog.routes@, i + 1);
                            lemma_lookup_prefix(
                                self@,
                                hostname@,
                                enabled_routes(longer).len() as int,
                            );
                        }
                        return Some(catalog.routes[i].tunnel_id.clone());
                    }
                    i = i + 1;
                }
                proof {
                    assert(catalog.routes@.take(i as int) =~= catalog.routes@);
                }
                None
            },
        }
    }

    /// Whether some route leads to a tunnel.
    pub fn contains_tunnel(&self, tunnel_id: &TunnelId) -> (found: bool)
        ensures
            found == leads_to(self@, tunnel_id@),
    {
        match &self.source {
            HttpHostRouteSource::Static(routes) => {
                let mut i: usize = 0;
                while i < routes.len()
                    invariant
                        i <= routes@.len(),
                        self@ == routes@.map_values(|route: HttpHostRoute| route_names(route)),
                        forall|k: int| 0 <= k < i ==> (#[trigger] self@[k]).1 != tunnel_id@,
                    decreases routes@.len() - i,
                {
                    if routes[i].tunnel_id.same(tunnel_id) {
                        proof {
                            assert(self@[i as int].1 == tunnel_id@);
                        }
                        return true;
                    }
                    i = i + 1;
                }
                false
            },
            HttpHostRouteSource::Dynamic(catalog) => {
                if catalog.health == HttpsRouteSourceHealth::Expired {
                    return false;
                }
                let mut i: usize = 0;
                while i < catalog.routes.len()
                    invariant
                        i <= catalog.routes@.len(),
                        self@ == enabled_routes(catalog.routes@),
                        !leads_to(enabled_routes(catalog.routes@.take(i as int)), tunnel_id@),
                    decreases catalog.routes@.len() - i,
                {
                    let ghost shorter = catalog.routes@.take(i as int);
                    let ghost longer = catalog.routes@.take(i + 1);
                    proof {
                        assert(longer.drop_last() =~= shorter);
                        assert(longer.last() == catalog.routes@[i as int]);
                    }
                    if catalog.routes[i].status == HttpsRouteStatus::Enabled
                        && catalog.routes[i].tunnel_id.same(tunnel_id) {
                        proof {
                            lemma_enabled_prefix(catalog.routes@, i + 1);
                            let n = enabled_routes(longer).len() as int;
                            assert(self@[n - 1] == self@.take(n)[n - 1]);
                            assert(self@[n - 1].1 == tunnel_id@);
                        }
                        return true;
                    }
                    proof {
                        assert forall|k: int| 0 <= k < enabled_routes(longer).len() implies (
                        #[trigger] enabled_routes(longer)[k]).1 != tunnel_id@ by {
                            if k < enabled_routes(shorter).len() {
                                assert(enabled_routes(longer)[k] == enabled_routes(shorter)[k]);
                            }
                        }
                    }
                    i = i + 1;
                }
                proof {
                    assert(catalog.routes@.take(i as int) =~= catalog.routes@);
                }
                false
            },
        }
    }

    /// How many routes are in force.
    pub fn len(&self) -> (count: usize)
        ensures
            count == self@.len(),
    {
        match &self.source {
            HttpHostRouteSource::Static(routes) => routes.len(),
            HttpHostRouteSource::Dynamic(catalog) => {
                if catalog.health == HttpsRouteSourceHealth::Expired {
                    return 0;
                }
                let mut count: usize = 0;
                let mut i: usize = 0;
                while i < catalog.routes.len()
                    invariant
                        i <= catalog.routes@.len(),
                        count <= i,
                        count == enabled_routes(catalog.routes@.take(i as int)).len(),
                    decreases catalog.routes@.len() - i,
                {
                    proof {
                        let longer = catalog.routes@.take(i + 1);
                        assert(longer.drop_last() =~= catalog.routes@.take(i as int));
                        assert(longer.last() == catalog.routes@[i as int]);
                    }
                    if catalog.routes[i].status == HttpsRouteStatus::Enabled {
                        count = count + 1;
                    }
                    i = i + 1;
                }
                proof {
                    assert(catalog.routes@.take(i as int) =~= catalog.routes@);
                }
                count
            },
        }
    }

    /// Whether no route is in force.
    pub fn is_empty(&self) -> (empty: bool)
        ensures
            empty == (self@.len() == 0),
    {
        self.len() == 0
    }

    /// Whether the routes follow a catalog.
    pub fn is_dynamic(&self) -> (dynamic: bool)
        ensures
            dynamic == self.source is Dynamic,
    {
        match &self.source {
            HttpHostRouteSource::Static(_) => false,
            HttpHostRouteSource::Dynamic(_) => true,
        }
    }

    /// How far the catalog's source can be relied on.
    pub fn dynamic_source_health(&self) -> (health: Option<HttpsRouteSourceHealth>)
        ensures
            health == (match self.source {
                HttpHostRouteSource::Static(_) => None,
                HttpHostRouteSource::Dynamic(catalog) => Some(catalog.health),
            }),
    {
        match &self.source {
            HttpHostRouteSource::Static(_) => None,
            HttpHostRouteSource::Dynamic(catalog) => Some(catalog.health),
        }
    }

    /// The version of the catalog that the routes follow.
    pub fn dynamic_catalog_version(&self) -> (version: Option<u64>)
        ensures
            version == (match self.source {
                HttpHostRouteSource::Static(_) => None,
                HttpHostRouteSource::Dynamic(catalog) => Some(catalog.version),
            }),
    {
        match &self.source {
            HttpHostRouteSource::Static(_) => None,
            HttpHostRouteSource::Dynamic(catalog) => Some(catalog.version),
        }
    }
}

proof fn lemma_lookup_prefix(
    routes: Seq<(Seq<char>, Seq<char>)>,
    hostname: Seq<char>,
    n: int,
)
    requires
        0 <= n <= routes.len(),
        lookup(routes.take(n), hostname) is Some,
    ensures
        lookup(routes, hostname) == lookup(routes.take(n), hostname),
    decreases routes.len() - n,
{
    if n == routes.len() {
        assert(routes.take(n) =~= routes);
    } else {
        assert(routes.take(n + 1).drop_last() =~= routes.take(n));
        lemma_lookup_prefix(routes, hostname, n + 1);
    }
}

proof fn lemma_enabled_prefix(records: Seq<HttpsRouteRecord>, n: int)
    requires
        0 <= n <= records.len(),
    ensures
        enabled_routes(records.take(n)).len() <= enabled_routes(records).len(),
        enabled_routes(records).take(enabled_routes(records.take(n)).len() as int)
            == enabled_routes(records.take(n)),
    decreases records.len() - n,
{
    let front = enabled_routes(records.take(n));
    if n == records.len() {
        assert(records.take(n) =~= records);
        assert(enabled_routes(records).take(front.len() as int) =~= front);
    } else {
        lemma_enabled_prefix(records, n + 1);
        assert(records.take(n + 1).drop_last() =~= records.take(n));
        let more = enabled_routes(records.take(n + 1));
        assert(more.take(front.len() as int) =~= front);
        assert(enabled_routes(records).take(front.len() as int) =~= more.take(front.len() as int));
    }
}

impl HttpHostRoutesError {
    /// The text shown to an operator.
    pub open spec fn text(self) -> Seq<char> {
        match self {
            HttpHostRoutesError::Empty => "at least one HTTP hostname route is required"@,
            HttpHostRoutesError::TooManyRoutes => "HTTP hostname routes exceed 64"@,
            HttpHostRoutesError::DuplicateHostname(hostname) => "duplicate HTTP hostname route "@
                + hostname@,
        }
    }

    /// The text shown to an operator.
    pub fn message(&self) -> (message: String)
        ensures
            message@ == self.text(),
    {
        match self {
            HttpHostRoutesError::Empty => "at least one HTTP hostname route is required".to_owned(),
            HttpHostRoutesError::TooManyRoutes => "HTTP hostname routes exceed 64".to_owned(),
            HttpHostRoutesError::DuplicateHostname(hostname) => {
                "duplicate HTTP hostname route ".to_owned().concat(hostname.as_str())
            },
        }
    }
}

/// Routes whose source has expired lead nowhere, whatever the catalog says.
pub proof fn expired_routes_fail_closed(routes: HttpHostRoutes, hostname: Seq<char>)
    requires
        routes.source matches HttpHostRouteSource::Dynamic(catalog) && catalog.health is Expired,
    ensures
        lookup(routes@, hostname) is None,
        routes@.len() == 0,
{
}

/// A hostname is served exactly where some route in force names it, letter for
/// letter, and by that route's tunnel where no other names it.
pub proof fn routing_is_exact(routes: Seq<(Seq<char>, Seq<char>)>, hostname: Seq<char>)
    ensures
        lookup(routes, hostname) is Some <==> exists|i: int|
            0 <= i < routes.len() && #[trigger] routes[i].0 == hostname,
        lookup(routes, hostname) is Some ==> exists|i: int|
            0 <= i < routes.len() && #[trigger] routes[i] == (hostname, lookup(routes, hostname)->0),
    decreases routes.len(),
{
    if routes.len() > 0 {
        let shorter = routes.drop_last();
        routing_is_exact(shorter, hostname);
        if lookup(shorter, hostname) is Some {
            let i: int = choose|i: int|
                0 <= i < shorter.len() && #[trigger] shorter[i] == (
                    hostname,
                    lookup(shorter, hostname)->0,
                );
            assert(routes[i] == shorter[i]);
            assert(routes[i].0 == hostname);
        } else {
            assert forall|i: int| 0 <= i < routes.len() && #[trigger] routes[i].0
                == hostname implies i == routes.len() - 1 by {
                if i < shorter.len() {
                    assert(shorter[i].0 == hostname);
                }
            }
            if routes.last().0 == hostname {
                assert(routes[routes.len() - 1] == (hostname, routes.last().1));
                assert(routes[routes.len() - 1].0 == hostname);
            }
        }
    }
}

/// A fixed table, in which no hostname stands twice, leads a hostname to a tunnel
/// exactly where it lists the two together.
pub proof fn fixed_routes_lead_where_they_say(
    listed: Seq<(HttpHostname, TunnelId)>,
    hostname: Seq<char>,
    tunnel: Seq<char>,
)
    requires
        forall|k: int| 0 <= k < listed.len() ==> !#[trigger] repeats(listed, k),
    ensures
        lookup(
            listed.map_values(|route: (HttpHostname, TunnelId)| (route.0@, route.1@)),
            hostname,
        ) == Some(tunnel) <==> exists|i: int|
            0 <= i < listed.len() && (#[trigger] listed[i]).0@ == hostname && listed[i].1@ == tunnel,
{
    let routes = listed.map_values(|route: (HttpHostname, TunnelId)| (route.0@, route.1@));
    let found = lookup(routes, hostname);
    routing_is_exact(routes, hostname);
    if found is Some {
        let at: int = choose|i: int|
            0 <= i < routes.len() && #[trigger] routes[i] == (hostname, found->0);
        assert(listed[at].0@ == hostname && listed[at].1@ == found->0);
        assert forall|i: int|
            0 <= i < listed.len() && (#[trigger] listed[i]).0@ == hostname implies i == at by {
            assert(!repeats(listed, i) && !repeats(listed, at));
        }
    } else {
        assert forall|i: int| 0 <= i < listed.len() implies (#[trigger] listed[i]).0@
            != hostname by {
            assert(routes[i].0 == listed[i].0@);
        }
    }
}

/// Whether the record at `i` is the first enabled one of a hostname.
pub open spec fn first_enabled(
    records: Seq<HttpsRouteRecord>,
    i: int,
    hostname: Seq<char>,
) -> bool {
    &&& 0 <= i < records.len()
    &&& records[i].status is Enabled
    &&& records[i].hostname@ == hostname
    &&& forall|j: int|
        0 <= j < i ==> !((#[trigger] records[j]).status is Enabled && records[j].hostname@
            == hostname)
}

proof fn lemma_enabled_lookup(records: Seq<HttpsRouteRecord>, hostname: Seq<char>)
    ensures
        match lookup(enabled_routes(records), hostname) {
            Some(tunnel) => exists|i: int| #[trigger]
                first_enabled(records, i, hostname) && records[i].tunnel_id@ == tunnel,
            None => forall|i: int|
                0 <= i < records.len() ==> !((#[trigger] records[i]).status is Enabled
                    && records[i].hostname@ == hostname),
        },
    decreases records.len(),
{
    if records.len() > 0 {
        let shorter = records.drop_last();
        let front = enabled_routes(shorter);
        let last = records.last();
        lemma_enabled_lookup(shorter, hostname);
        assert(front.push((last.hostname@, last.tunnel_id@)).drop_last() =~= front);
        match lookup(front, hostname) {
            Some(tunnel) => {
                let at: int = choose|i: int| #[trigger]
                    first_enabled(shorter, i, hostname) && shorter[i].tunnel_id@ == tunnel;
                assert(records[at] == shorter[at]);
                assert forall|j: int| 0 <= j < at implies !((#[trigger] records[j]).status is Enabled
                    && records[j].hostname@ == hostname) by {
                    assert(records[j] == shorter[j]);
                }
                assert(first_enabled(records, at, hostname));
            },
            None => {
                assert forall|j: int| 0 <= j < shorter.len() implies !((
                #[trigger] records[j]).status is Enabled && records[j].hostname@ == hostname) by {
                    assert(records[j] == shorter[j]);
                }
                if last.status is Enabled && last.hostname@ == hostname {
                    assert(first_enabled(records, records.len() - 1, hostname));
                }
            },
        }
    }
}

/// Routes that follow a catalog lead a hostname to a tunnel exactly where the
/// catalog's source has not expired and the first enabled record of the hostname names
/// that tunnel.
pub proof fn followed_routes_lead_where_the_catalog_says(
    catalog: HttpsRouteCatalog,
    hostname: Seq<char>,
    tunnel: Seq<char>,
)
    ensures
        lookup((HttpHostRoutes { source: HttpHostRouteSource::Dynamic(catalog) })@, hostname)
            == Some(tunnel) <==> !(catalog.health is Expired) && exists|i: int| #[trigger]
            first_enabled(catalog.routes@, i, hostname) && catalog.routes@[i].tunnel_id@ == tunnel,
{
    lemma_enabled_lookup(catalog.routes@, hostname);
    assert forall|i: int, j: int| #[trigger]
        first_enabled(catalog.routes@, i, hostname) && #[trigger] first_enabled(
            catalog.routes@,
            j,
            hostname,
        ) implies i == j by {
        assert(catalog.routes@[i].status is Enabled && catalog.routes@[j].status is Enabled);
    }
}

/// Routes and their copies resolve alike however many catalogs are published after the
/// copy was made: the last catalog alone decides where routes lead that follow one, and
/// none changes a fixed table.
pub proof fn copies_follow_the_same_catalog(
    routes: HttpHostRoutes,
    copy: HttpHostRoutes,
    earlier: HttpsRouteCatalog,
    catalog: HttpsRouteCatalog,
    hostname: Seq<char>,
)
    requires
        same_source(copy.source, routes.source),
    ensures
        following(following(routes.source, earlier), catalog) == following(routes.source, catalog),
        same_source(following(copy.source, catalog), following(routes.source, catalog)),
        lookup((HttpHostRoutes { source: following(copy.source, catalog) })@, hostname) == lookup(
            (HttpHostRoutes { source: following(routes.source, catalog) })@,
            hostname,
        ),
        routes.source is Dynamic ==> following(routes.source, catalog)
            == HttpHostRouteSource::Dynamic(catalog),
        routes.source is Static ==> following(routes.source, catalog) == routes.source,
{
}

} // verus!
