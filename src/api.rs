use vstd::prelude::*;

use crate::routes::{route_table, route_table_spec, Endpoint, Method, Route};

verus! {

/// The title under which the API is described.
pub const API_TITLE: &'static str = "Axum Backend API";

/// The version of the described API.
pub const API_VERSION: &'static str = "1.0.0";

/// The paths of a route table that the API description lists: those of its
/// JSON endpoints.
pub open spec fn documented_paths(t: Seq<(Method, Seq<char>, Endpoint)>) -> Set<Seq<char>> {
    Set::new(|p: Seq<char>| exists|i: int| 0 <= i < t.len() && #[trigger] t[i].2.documented_spec() && t[i].1 == p)
}

/// The schemas that the API description defines: every record of the API.
pub open spec fn schema_names_spec() -> Seq<Seq<char>> {
    seq![
        "HealthResponse"@,
        "User"@,
        "CreateUserRequest"@,
        "Wallet"@,
        "TransferRequest"@,
        "Product"@,
        "CreateProductRequest"@,
        "PaginationParams"@,
    ]
}

pub open spec fn views(v: Seq<String>) -> Seq<Seq<char>> {
    v.map_values(|s: String| s@)
}

/// A machine-readable description of the API: its title and version, the
/// path templates it serves and the names of the schemas of its records.
#[derive(Clone, Debug, PartialEq, Eq)]
pub struct OpenApiDoc {
    pub title: String,
    pub version: String,
    pub paths: Vec<String>,
    pub schemas: Vec<String>,
}

impl OpenApiDoc {
    pub open spec fn path_set(&self) -> Set<Seq<char>> {
        views(self.paths@).to_set()
    }

    pub open spec fn schema_set(&self) -> Set<Seq<char>> {
        views(self.schemas@).to_set()
    }

    /// The description of this API: each path of the route table's JSON
    /// endpoints once, and every record's schema.
    pub open spec fn is_api_doc(&self) -> bool {
        &&& self.title@ == API_TITLE@
        &&& self.version@ == API_VERSION@
        &&& views(self.paths@).no_duplicates()
        &&& self.path_set() == documented_paths(route_table_spec())
        &&& views(self.schemas@) == schema_names_spec()
    }

    /// Whether the description lists the path template `path`.
    pub fn has_path(&self, path: &str) -> (r: bool)
        ensures
            r == self.path_set().contains(path@),
    {
        contains_text(&self.paths, path)
    }

    /// Whether the description defines a schema named `name`.
    pub fn has_schema(&self, name: &str) -> (r: bool)
        ensures
            r == self.schema_set().contains(name@),
    {
        contains_text(&self.schemas, name)
    }
}

fn contains_text(v: &Vec<String>, s: &str) -> (r: bool)
    ensures
        r == views(v@).to_set().contains(s@),
{
    let target = s.to_owned();
    let mut i: usize = 0;
    while i < v.len()
        invariant
            0 <= i <= v@.len(),
            target@ == s@,
            forall|j: int| 0 <= j < i ==> v@[j]@ != s@,
        decreases v@.len() - i,
    {
        if v[i] == target {
            assert(views(v@)[i as int] == s@);
            return true;
        }
        i += 1;
    }
    assert(!views(v@).contains(s@)) by {
        if views(v@).contains(s@) {
            let k = choose|k: int| 0 <= k < views(v@).len() && views(v@)[k] == s@;
            assert(v@[k]@ == s@);
        }
    }
    false
}

/// The API's description, built from the route table.
pub struct ApiDoc;

impl ApiDoc {
    /// Describes the API: the paths come from the route table, so the two
    /// cannot drift apart.
    pub fn openapi() -> (r: OpenApiDoc)
        ensures
            r.is_api_doc(),
    {
        let routes = route_table();
        let ghost t = routes@.map_values(|x: Route| x@);
        let mut paths: Vec<String> = Vec::new();
        let mut i: usize = 0;
        while i < routes.len()
            invariant
                0 <= i <= routes@.len(),
                t == routes@.map_values(|x: Route| x@),
                t == route_table_spec(),
                views(paths@).no_duplicates(),
                views(paths@).to_set() == documented_paths(t.take(i as int)),
            decreases routes@.len() - i,
        {
            let r = &routes[i];
            proof {
                assert(t[i as int] == r@);
            }
            let ghost before = views(paths@);
            let documented = r.endpoint.documented();
            if documented {
                let present = contains_text(&paths, r.path.as_str());
                if !present {
                    paths.push(r.path.clone());
                    proof {
                        assert(views(paths@) =~= before.push(r.path@));
                        assert(views(paths@).no_duplicates());
                    }
                }
            }
            proof {
                let now = views(paths@);
                let tn = t.take(i + 1);
                let tp = t.take(i as int);
                assert(now == before || (documented && now == before.push(r.path@)));
                assert(documented ==> now.contains(r.path@)) by {
                    if documented && now == before.push(r.path@) {
                        assert(now[before.len() as int] == r.path@);
                    }
                }
                assert(tn[i as int] == r@);
                assert forall|p: Seq<char>| now.to_set().contains(p) implies documented_paths(tn).contains(p) by {
                    if before.contains(p) {
                        assert(before.to_set().contains(p));
                        let k = choose|k: int| 0 <= k < tp.len() && #[trigger] tp[k].2.documented_spec() && tp[k].1 == p;
                        assert(tn[k] == tp[k]);
                        assert(tn[k].2.documented_spec() && tn[k].1 == p);
                    } else {
                        assert(now.contains(p));
                        let j = choose|j: int| 0 <= j < now.len() && now[j] == p;
                        if now == before {
                            assert(before.contains(p));
                        }
                        assert(documented && now == before.push(r.path@));
                        assert(j == before.len());
                        assert(tn[i as int].2.documented_spec() && tn[i as int].1 == p);
                    }
                }
                assert forall|p: Seq<char>| documented_paths(tn).contains(p) implies now.to_set().contains(p) by {
                    let k = choose|k: int| 0 <= k < tn.len() && #[trigger] tn[k].2.documented_spec() && tn[k].1 == p;
                    if k < i {
                        assert(tp[k] == tn[k]);
                        assert(documented_paths(tp).contains(p));
                        assert(before.to_set().contains(p));
                        let j = choose|j: int| 0 <= j < before.len() && before[j] == p;
                        assert(now[j] == p);
                    }
                }
                assert(now.to_set() =~= documented_paths(tn));
            }
            i += 1;
        }
        proof {
            assert(t.take(routes@.len() as int) =~= t);
        }
        let mut schemas: Vec<String> = Vec::new();
        schemas.push("HealthResponse".to_owned());
        schemas.push("User".to_owned());
        schemas.push("CreateUserRequest".to_owned());
        schemas.push("Wallet".to_owned());
        schemas.push("TransferRequest".to_owned());
        schemas.push("Product".to_owned());
        schemas.push("CreateProductRequest".to_owned());
        schemas.push("PaginationParams".to_owned());
        proof {
            assert(views(schemas@) =~= schema_names_spec());
        }
        OpenApiDoc {
            title: API_TITLE.to_owned(),
            version: API_VERSION.to_owned(),
            paths,
            schemas,
        }
    }
}

/// The path templates of the JSON endpoints that the route table serves.
pub open spec fn api_paths() -> Set<Seq<char>> {
    set![
        "/health"@,
        "/users"@,
        "/users/{id}"@,
        "/wallets/{user_id}"@,
        "/transfers"@,
        "/products"@,
        "/products/{id}"@,
    ]
}

/// An API description lists exactly the path templates of the JSON endpoints
/// (every route but the home page), and it defines a schema for every record
/// of the API.
pub proof fn lemma_api_doc_covers_routes(d: OpenApiDoc)
    requires
        d.is_api_doc(),
    ensures
        d.path_set() == api_paths(),
        forall|i: int| 0 <= i < schema_names_spec().len() ==> d.schema_set().contains(#[trigger] schema_names_spec()[i]),
{
    let t = route_table_spec();
    assert forall|p: Seq<char>| documented_paths(t).contains(p) implies api_paths().contains(p) by {
        let k = choose|k: int| 0 <= k < t.len() && #[trigger] t[k].2.documented_spec() && t[k].1 == p;
        assert(0 <= k < 10);
    }
    assert forall|p: Seq<char>| api_paths().contains(p) implies documented_paths(t).contains(p) by {
        if p == "/health"@ {
            assert(t[1].2.documented_spec() && t[1].1 == p);
        } else if p == "/users"@ {
            assert(t[2].2.documented_spec() && t[2].1 == p);
        } else if p == "/users/{id}"@ {
            assert(t[4].2.documented_spec() && t[4].1 == p);
        } else if p == "/wallets/{user_id}"@ {
            assert(t[5].2.documented_spec() && t[5].1 == p);
        } else if p == "/transfers"@ {
            assert(t[6].2.documented_spec() && t[6].1 == p);
        } else if p == "/products"@ {
            assert(t[7].2.documented_spec() && t[7].1 == p);
        } else {
            assert(t[9].2.documented_spec() && t[9].1 == p);
        }
    }
    assert(documented_paths(t) =~= api_paths());
    assert forall|i: int| 0 <= i < schema_names_spec().len() implies d.schema_set().contains(#[trigger] schema_names_spec()[i]) by {
        assert(views(d.schemas@)[i] == schema_names_spec()[i]);
    }
}

} // verus!
