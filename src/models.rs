use vstd::prelude::*;

use crate::clock::Timestamp;

verus! {

/// An IEEE 754 binary64 amount (a price, a balance, a transfer amount), held
/// by its bit pattern. The library never computes with it: it only carries
/// amounts from a request into a response, or states fixed ones.
#[derive(Clone, Copy, Debug, PartialEq, Eq, Structural)]
pub struct Money {
    pub bits: u64,
}

/// Answer of the health check.
#[derive(Clone, Debug, PartialEq, Eq)]
pub struct HealthResponse {
    /// Status of the service
    pub status: String,
    /// Timestamp of the health check, in RFC 3339
    pub timestamp: String,
}

#[derive(Clone, Debug, PartialEq, Eq)]
pub struct User {
    /// Unique identifier for the user
    pub id: i32,
    /// User's email address
    pub email: String,
    /// User's full name
    pub name: String,
    /// Account creation timestamp
    pub created_at: Timestamp,
}

#[derive(Clone, Debug, PartialEq, Eq)]
pub struct CreateUserRequest {
    /// User's email address
    pub email: String,
    /// User's full name
    pub name: String,
}

#[derive(Clone, Debug, PartialEq, Eq)]
pub struct Wallet {
    /// Unique identifier for the wallet
    pub id: i32,
    /// Associated user ID
    pub user_id: i32,
    /// Current balance
    pub balance: Money,
    /// Currency code (e.g., USD, EUR)
    pub currency: String,
    /// Wallet creation timestamp
    pub created_at: Timestamp,
}

#[derive(Clone, Debug, PartialEq, Eq)]
pub struct TransferRequest {
    /// Source wallet ID
    pub from_wallet_id: i32,
    /// Destination wallet ID
    pub to_wallet_id: i32,
    /// Amount to transfer
    pub amount: Money,
    /// Optional idempotency key
    pub idempotency_key: Option<String>,
}

/// What the home page shows.
#[derive(Clone, Debug, PartialEq, Eq)]
pub struct HomePageTemplate {
    pub version: String,
    pub uptime: String,
    pub server_time: String,
}

#[derive(Clone, Debug, PartialEq, Eq)]
pub struct Product {
    /// Unique identifier for the product
    pub id: i32,
    /// Product name
    pub name: String,
    /// Product description
    pub description: String,
    /// Product price
    pub price: Money,
    /// Product category
    pub category: String,
    /// Product creation timestamp
    pub created_at: Timestamp,
}

#[derive(Clone, Debug, PartialEq, Eq)]
pub struct CreateProductRequest {
    /// Product name
    pub name: String,
    /// Product description
    pub description: String,
    /// Product price
    pub price: Money,
    /// Product category
    pub category: String,
}

} // verus!
