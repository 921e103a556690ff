use vstd::prelude::*;

verus! {

/// The HTTP methods that the API answers.
#[derive(Clone, Copy, Debug, PartialEq, Eq, Structural)]
pub enum Method {
    Get,
    Post,
}

/// The handlers that routes lead to.
#[derive(Clone, Copy, Debug, PartialEq, Eq, Structural)]
pub enum Endpoint {
    HomePage,
    HealthCheck,
    GetUsers,
    CreateUser,
    GetUserById,
    GetUserWallets,
    CreateTransfer,
    GetProducts,
    CreateProduct,
    GetProductById,
}

impl Endpoint {
    /// Whether the endpoint answers JSON and so stands in the API description
    /// (all but the HTML home page).
    pub open spec fn documented_spec(self) -> bool {
        !(self is HomePage)
    }

    #[verifier::when_used_as_spec(documented_spec)]
    pub fn documented(self) -> (r: bool)
        ensures
            r == self.documented_spec(),
    {
        !matches!(self, Endpoint::HomePage)
    }
}

/// One entry of the route table: a method and a path template led to a handler.
#[derive(Clone, Debug, PartialEq, Eq)]
pub struct Route {
    pub method: Method,
    /// Path template; `{name}` stands for an integer segment.
    pub path: String,
    pub endpoint: Endpoint,
}

impl View for Route {
    type V = (Method, Seq<char>, Endpoint);

    open spec fn view(&self) -> (Method, Seq<char>, Endpoint) {
        (self.method, self.path@, self.endpoint)
    }
}

/// The route table.
pub open spec fn route_table_spec() -> Seq<(Method, Seq<char>, Endpoint)> {
    seq![
        (Method::Get, "/"@, Endpoint::HomePage),
        (Method::Get, "/health"@, Endpoint::HealthCheck),
        (Method::Get, "/users"@, Endpoint::GetUsers),
        (Method::Post, "/users"@, Endpoint::CreateUser),
        (Method::Get, "/users/{id}"@, Endpoint::GetUserById),
        (Method::Get, "/wallets/{user_id}"@, Endpoint::GetUserWallets),
        (Method::Post, "/transfers"@, Endpoint::CreateTransfer),
        (Method::Get, "/products"@, Endpoint::GetProducts),
        (Method::Post, "/products"@, Endpoint::CreateProduct),
        (Method::Get, "/products/{id}"@, Endpoint::GetProductById),
    ]
}

fn route(method: Method, path: &str, endpoint: Endpoint) -> (r: Route)
    ensures
        r@ == (method, path@, endpoint),
{
    Route { method, path: path.to_owned(), endpoint }
}

/// The route table, in order: each method and path template with its handler.
pub fn route_table() -> (r: Vec<Route>)
    ensures
        r@.map_values(|x: Route| x@) == route_table_spec(),
{
    let r = vec![
        route(Method::Get, "/", Endpoint::HomePage),
        route(Method::Get, "/health", Endpoint::HealthCheck),
        route(Method::Get, "/users", Endpoint::GetUsers),
        route(Method::Post, "/users", Endpoint::CreateUser),
        route(Method::Get, "/users/{id}", Endpoint::GetUserById),
        route(Method::Get, "/wallets/{user_id}", Endpoint::GetUserWallets),
        route(Method::Post, "/transfers", Endpoint::CreateTransfer),
        route(Method::Get, "/products", Endpoint::GetProducts),
        route(Method::Post, "/products", Endpoint::CreateProduct),
        route(Method::Get, "/products/{id}", Endpoint::GetProductById),
    ];
    assert(r@.map_values(|x: Route| x@) =~= route_table_spec());
    r
}

} // verus!
