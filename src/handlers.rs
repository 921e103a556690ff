use vstd::prelude::*;

use crate::clock::{now, now_rfc3339, rfc3339_of, Timestamp};
use crate::models::{
    CreateProductRequest, CreateUserRequest, HealthResponse, HomePageTemplate, Money, Product,
    TransferRequest, User, Wallet,
};

verus! {

/// Bits of the binary64 value 100.0: the balance of every wallet.
pub const WALLET_BALANCE: u64 = 0x4059000000000000;

/// Bits of the binary64 value 999.99: the price of the listed laptop.
pub const LAPTOP_PRICE: u64 = 0x408f3feb851eb852;

/// Bits of the binary64 value 29.99: the price of the listed mouse.
pub const MOUSE_PRICE: u64 = 0x403dfd70a3d70a3d;

/// Bits of the binary64 value 49.99: the price of a product looked up by id.
pub const SAMPLE_PRICE: u64 = 0x4048feb851eb851f;

/// Pagination asked for by a listing. It is accepted and has no effect.
#[derive(Clone, Copy, Debug, PartialEq, Eq, Structural)]
pub struct PaginationParams {
    /// Page number for pagination
    pub page: Option<i32>,
    /// Number of items per page
    pub limit: Option<i32>,
}

// ---- Health and home page ----

/// The health answer: status "healthy" and the given timestamp.
pub open spec fn is_health(r: HealthResponse, timestamp: Seq<char>) -> bool {
    &&& r.status@ == "healthy"@
    &&& r.timestamp@ == timestamp
}

/// Builds the health answer for a check made at the instant written as `timestamp`.
pub fn health_check_at(timestamp: String) -> (r: HealthResponse)
    ensures
        is_health(r, timestamp@),
{
    HealthResponse { status: "healthy".to_owned(), timestamp }
}

/// Answers a health check with the current instant.
pub fn health_check() -> (r: HealthResponse)
    ensures
        exists|t: Timestamp| t.wf() && is_health(r, rfc3339_of(t.secs as int, t.nanos as int)),
{
    let (_t, s) = now_rfc3339();
    health_check_at(s)
}

/// The home page's content: fixed version and uptime, and the given server time.
pub open spec fn is_home_page(r: HomePageTemplate, server_time: Seq<char>) -> bool {
    &&& r.version@ == "1.0.0"@
    &&& r.uptime@ == "0 days, 0 hours, 0 minutes"@
    &&& r.server_time@ == server_time
}

/// Fills the home page for a server time written as `server_time`.
pub fn home_page_at(server_time: String) -> (r: HomePageTemplate)
    ensures
        is_home_page(r, server_time@),
{
    HomePageTemplate {
        version: "1.0.0".to_owned(),
        uptime: "0 days, 0 hours, 0 minutes".to_owned(),
        server_time,
    }
}

/// Fills the home page with the current instant.
pub fn home_page() -> (r: HomePageTemplate)
    ensures
        exists|t: Timestamp| t.wf() && is_home_page(r, rfc3339_of(t.secs as int, t.nanos as int)),
{
    let (_t, s) = now_rfc3339();
    home_page_at(s)
}

// ---- Users ----

/// The user at position `i` (0 or 1) of the user listing, created at `t`.
pub open spec fn is_listed_user(u: User, i: int, t: Timestamp) -> bool {
    &&& u.id == i + 1
    &&& u.email@ == (if i == 0 { "john@example.com"@ } else { "jane@example.com"@ })
    &&& u.name@ == (if i == 0 { "John Doe"@ } else { "Jane Smith"@ })
    &&& u.created_at == t
}

/// The user listing: John Doe and Jane Smith, both created at `t`.
pub open spec fn is_user_listing(r: Seq<User>, t: Timestamp) -> bool {
    &&& r.len() == 2
    &&& forall|i: int| 0 <= i < 2 ==> is_listed_user(#[trigger] r[i], i, t)
}

/// Lists the users as of `created_at`. The pagination is ignored.
pub fn get_users_at(_params: PaginationParams, created_at: Timestamp) -> (r: Vec<User>)
    ensures
        is_user_listing(r@, created_at),
{
    let john = User {
        id: 1,
        email: "john@example.com".to_owned(),
        name: "John Doe".to_owned(),
        created_at,
    };
    let jane = User {
        id: 2,
        email: "jane@example.com".to_owned(),
        name: "Jane Smith".to_owned(),
        created_at,
    };
    vec![john, jane]
}

/// Lists the users, created now. Whatever the pagination, the listing holds
/// the same two users.
pub fn get_users(params: PaginationParams) -> (r: Vec<User>)
    ensures
        exists|t: Timestamp| t.wf() && is_user_listing(r@, t),
{
    get_users_at(params, now())
}

/// The user made from a creation request: id 1, the request's email and name.
pub open spec fn is_created_user(u: User, req: CreateUserRequest, t: Timestamp) -> bool {
    &&& u.id == 1
    &&& u.email@ == req.email@
    &&& u.name@ == req.name@
    &&& u.created_at == t
}

/// Creates a user from `payload` at `created_at`.
pub fn create_user_at(payload: CreateUserRequest, created_at: Timestamp) -> (r: User)
    ensures
        is_created_user(r, payload, created_at),
{
    User { id: 1, email: payload.email, name: payload.name, created_at }
}

/// Creates a user from `payload`, now.
pub fn create_user(payload: CreateUserRequest) -> (r: User)
    ensures
        r.created_at.wf(),
        is_created_user(r, payload, r.created_at),
{
    create_user_at(payload, now())
}

/// The user that a lookup by `id` fabricates.
pub open spec fn is_looked_up_user(u: User, id: i32, t: Timestamp) -> bool {
    &&& u.id == id
    &&& u.email@ == "test@example.com"@
    &&& u.name@ == "Test User"@
    &&& u.created_at == t
}

/// Looks up the user `id` as of `created_at`: every id has a user.
pub fn get_user_by_id_at(id: i32, created_at: Timestamp) -> (r: User)
    ensures
        is_looked_up_user(r, id, created_at),
{
    User { id, email: "test@example.com".to_owned(), name: "Test User".to_owned(), created_at }
}

/// Looks up the user `id`: every id has a user, and it carries that id.
pub fn get_user_by_id(id: i32) -> (r: User)
    ensures
        r.id == id,
        r.created_at.wf(),
        is_looked_up_user(r, id, r.created_at),
{
    get_user_by_id_at(id, now())
}

// ---- Wallets and transfers ----

/// The one wallet of user `user_id`: id 1, a balance of 100.0 USD.
pub open spec fn is_user_wallet(w: Wallet, user_id: i32, t: Timestamp) -> bool {
    &&& w.id == 1
    &&& w.user_id == user_id
    &&& w.balance == Money { bits: WALLET_BALANCE }
    &&& w.currency@ == "USD"@
    &&& w.created_at == t
}

/// Lists the wallets of `user_id` as of `created_at`.
pub fn get_user_wallets_at(user_id: i32, created_at: Timestamp) -> (r: Vec<Wallet>)
    ensures
        r@.len() == 1,
        is_user_wallet(r@[0], user_id, created_at),
{
    let wallet = Wallet {
        id: 1,
        user_id,
        balance: Money { bits: WALLET_BALANCE },
        currency: "USD".to_owned(),
        created_at,
    };
    vec![wallet]
}

/// Lists the wallets of `user_id`, created now.
pub fn get_user_wallets(user_id: i32) -> (r: Vec<Wallet>)
    ensures
        r@.len() == 1,
        r@[0].created_at.wf(),
        is_user_wallet(r@[0], user_id, r@[0].created_at),
{
    get_user_wallets_at(user_id, now())
}

/// Accepts a transfer: no balance moves, and the request comes back as it was.
pub fn create_transfer(payload: TransferRequest) -> (r: TransferRequest)
    ensures
        r == payload,
{
    payload
}

// ---- Products ----

/// The product at position `i` (0 or 1) of the product listing, created at `t`.
pub open spec fn is_listed_product(p: Product, i: int, t: Timestamp) -> bool {
    &&& p.id == i + 1
    &&& p.name@ == (if i == 0 { "Laptop"@ } else { "Mouse"@ })
    &&& p.description@ == (if i == 0 { "High-performance laptop"@ } else { "Wireless mouse"@ })
    &&& p.price == (if i == 0 { Money { bits: LAPTOP_PRICE } } else { Money { bits: MOUSE_PRICE } })
    &&& p.category@ == "Electronics"@
    &&& p.created_at == t
}

/// The product listing: a laptop and a mouse, both created at `t`.
pub open spec fn is_product_listing(r: Seq<Product>, t: Timestamp) -> bool {
    &&& r.len() == 2
    &&& forall|i: int| 0 <= i < 2 ==> is_listed_product(#[trigger] r[i], i, t)
}

/// Lists the products as of `created_at`. The pagination is ignored.
pub fn get_products_at(_params: PaginationParams, created_at: Timestamp) -> (r: Vec<Product>)
    ensures
        is_product_listing(r@, created_at),
{
    let laptop = Product {
        id: 1,
        name: "Laptop".to_owned(),
        description: "High-performance laptop".to_owned(),
        price: Money { bits: LAPTOP_PRICE },
        category: "Electronics".to_owned(),
        created_at,
    };
    let mouse = Product {
        id: 2,
        name: "Mouse".to_owned(),
        description: "Wireless mouse".to_owned(),
        price: Money { bits: MOUSE_PRICE },
        category: "Electronics".to_owned(),
        created_at,
    };
    vec![laptop, mouse]
}

/// Lists the products, created now. Whatever the pagination, the listing
/// holds the same two products.
pub fn get_products(params: PaginationParams) -> (r: Vec<Product>)
    ensures
        exists|t: Timestamp| t.wf() && is_product_listing(r@, t),
{
    get_products_at(params, now())
}

/// The product made from a creation request: id 1 and the request's fields.
pub open spec fn is_created_product(p: Product, req: CreateProductRequest, t: Timestamp) -> bool {
    &&& p.id == 1
    &&& p.name@ == req.name@
    &&& p.description@ == req.description@
    &&& p.price == req.price
    &&& p.category@ == req.category@
    &&& p.created_at == t
}

/// Creates a product from `payload` at `created_at`.
pub fn create_product_at(payload: CreateProductRequest, created_at: Timestamp) -> (r: Product)
    ensures
        is_created_product(r, payload, created_at),
{
    Product {
        id: 1,
        name: payload.name,
        description: payload.description,
        price: payload.price,
        category: payload.category,
        created_at,
    }
}

/// Creates a product from `payload`, now.
pub fn create_product(payload: CreateProductRequest) -> (r: Product)
    ensures
        r.created_at.wf(),
        is_created_product(r, payload, r.created_at),
{
    create_product_at(payload, now())
}

/// The product that a lookup by `id` fabricates.
pub open spec fn is_looked_up_product(p: Product, id: i32, t: Timestamp) -> bool {
    &&& p.id == id
    &&& p.name@ == "Sample Product"@
    &&& p.description@ == "Sample product description"@
    &&& p.price == Money { bits: SAMPLE_PRICE }
    &&& p.category@ == "General"@
    &&& p.created_at == t
}

/// Looks up the product `id` as of `created_at`: every id has a product.
pub fn get_product_by_id_at(id: i32, created_at: Timestamp) -> (r: Product)
    ensures
        is_looked_up_product(r, id, created_at),
{
    Product {
        id,
        name: "Sample Product".to_owned(),
        description: "Sample product description".to_owned(),
        price: Money { bits: SAMPLE_PRICE },
        category: "General".to_owned(),
        created_at,
    }
}

/// Looks up the product `id`: every id has a product, and it carries that id.
pub fn get_product_by_id(id: i32) -> (r: Product)
    ensures
        r.id == id,
        r.created_at.wf(),
        is_looked_up_product(r, id, r.created_at),
{
    get_product_by_id_at(id, now())
}

} // verus!
