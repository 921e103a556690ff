use axum_backend::clock::Timestamp;
use axum_backend::config::{default_port, Config};
use axum_backend::handlers::{
    create_product, create_product_at, create_transfer, create_user, create_user_at,
    get_product_by_id, get_product_by_id_at, get_products, get_products_at, get_user_by_id,
    get_user_by_id_at, get_user_wallets, get_user_wallets_at, get_users, get_users_at,
    health_check, health_check_at, home_page, home_page_at, PaginationParams,
};
use axum_backend::models::{CreateProductRequest, CreateUserRequest, Money, TransferRequest};

fn at() -> Timestamp {
    Timestamp { secs: 1_700_000_000, nanos: 5 }
}

fn no_paging() -> PaginationParams {
    PaginationParams { page: None, limit: None }
}

#[test]
fn user_by_id_carries_the_id() {
    for id in [0, 1, 42, -7, i32::MAX, i32::MIN] {
        let u = get_user_by_id(id);
        assert_eq!(u.id, id);
        assert_eq!(u.email, "test@example.com");
        assert_eq!(u.name, "Test User");
    }
    let u = get_user_by_id_at(9, at());
    assert_eq!(u.created_at, at());
}

#[test]
fn product_by_id_carries_the_id() {
    for id in [0, 1, 42, -7, i32::MAX, i32::MIN] {
        let p = get_product_by_id(id);
        assert_eq!(p.id, id);
        assert_eq!(p.name, "Sample Product");
        assert_eq!(p.description, "Sample product description");
        assert_eq!(f64::from_bits(p.price.bits), 49.99);
        assert_eq!(p.category, "General");
    }
    assert_eq!(get_product_by_id_at(3, at()).created_at, at());
}

#[test]
fn create_user_echoes_email_and_name() {
    let req = CreateUserRequest { email: "a@b.com".to_string(), name: "A".to_string() };
    let u = create_user(req.clone());
    assert_eq!(u.email, "a@b.com");
    assert_eq!(u.name, "A");
    assert_eq!(u.id, 1);
    let u = create_user_at(req, at());
    assert_eq!(u.created_at, at());
}

#[test]
fn create_product_echoes_fields() {
    let req = CreateProductRequest {
        name: "Desk".to_string(),
        description: "Oak desk".to_string(),
        price: Money { bits: 12.5f64.to_bits() },
        category: "Furniture".to_string(),
    };
    let p = create_product(req.clone());
    assert_eq!(p.id, 1);
    assert_eq!(p.name, "Desk");
    assert_eq!(p.description, "Oak desk");
    assert_eq!(f64::from_bits(p.price.bits), 12.5);
    assert_eq!(p.category, "Furniture");
    assert_eq!(create_product_at(req, at()).created_at, at());
}

#[test]
fn transfer_comes_back_unchanged() {
    let with_key = TransferRequest {
        from_wallet_id: 1,
        to_wallet_id: 2,
        amount: Money { bits: 0.001f64.to_bits() },
        idempotency_key: Some("k-1".to_string()),
    };
    assert_eq!(create_transfer(with_key.clone()), with_key);
    let without_key = TransferRequest {
        from_wallet_id: -3,
        to_wallet_id: -3,
        amount: Money { bits: (-5.0f64).to_bits() },
        idempotency_key: None,
    };
    assert_eq!(create_transfer(without_key.clone()), without_key);
}

#[test]
fn health_is_healthy_with_rfc3339_time() {
    let h = health_check();
    assert_eq!(h.status, "healthy");
    assert!(chrono::DateTime::parse_from_rfc3339(&h.timestamp).is_ok());
    let h = health_check_at("2024-01-01T00:00:00+00:00".to_string());
    assert_eq!(h.status, "healthy");
    assert_eq!(h.timestamp, "2024-01-01T00:00:00+00:00");
}

#[test]
fn home_page_has_fixed_version_and_current_time() {
    let p = home_page();
    assert_eq!(p.version, "1.0.0");
    assert_eq!(p.uptime, "0 days, 0 hours, 0 minutes");
    assert!(chrono::DateTime::parse_from_rfc3339(&p.server_time).is_ok());
    assert_eq!(home_page_at("x".to_string()).server_time, "x");
}

#[test]
fn listings_ignore_pagination() {
    let cases = [
        no_paging(),
        PaginationParams { page: Some(1), limit: Some(10) },
        PaginationParams { page: Some(-1), limit: Some(-5) },
        PaginationParams { page: Some(i32::MAX), limit: Some(0) },
    ];
    for c in cases {
        let users = get_users(c);
        assert_eq!(users.len(), 2);
        assert_eq!(users[0].id, 1);
        assert_eq!(users[0].email, "john@example.com");
        assert_eq!(users[0].name, "John Doe");
        assert_eq!(users[1].id, 2);
        assert_eq!(users[1].email, "jane@example.com");
        assert_eq!(users[1].name, "Jane Smith");
        let products = get_products(c);
        assert_eq!(products.len(), 2);
        assert_eq!(products[0].name, "Laptop");
        assert_eq!(f64::from_bits(products[0].price.bits), 999.99);
        assert_eq!(products[1].name, "Mouse");
        assert_eq!(f64::from_bits(products[1].price.bits), 29.99);
        assert_eq!(products[1].category, "Electronics");
        assert_eq!(get_users_at(c, at()), get_users_at(no_paging(), at()));
        assert_eq!(get_products_at(c, at()), get_products_at(no_paging(), at()));
    }
}

#[test]
fn wallets_reference_the_user() {
    let w = get_user_wallets(77);
    assert_eq!(w.len(), 1);
    assert_eq!(w[0].id, 1);
    assert_eq!(w[0].user_id, 77);
    assert_eq!(f64::from_bits(w[0].balance.bits), 100.0);
    assert_eq!(w[0].currency, "USD");
    assert_eq!(get_user_wallets_at(-1, at())[0].created_at, at());
}

#[test]
fn config_defaults_and_truncates_port() {
    assert_eq!(default_port(), 3000);
    assert_eq!(Config::from_env(None, None).port, 3000);
    let c = Config::from_env(Some(8080), Some("postgres://db".to_string()));
    assert_eq!(c.port, 8080);
    assert_eq!(c.database_url, Some("postgres://db".to_string()));
    assert_eq!(Config::from_env(Some(65536 + 80), None).port, 80);
}

#[test]
fn records_are_stamped_with_the_current_instant() {
    let before = chrono::Utc::now().timestamp();
    let u = get_user_by_id(1);
    let after = chrono::Utc::now().timestamp();
    assert!(before <= u.created_at.secs && u.created_at.secs <= after);
    assert!(u.created_at.nanos < 1_000_000_000);
    let w = get_user_wallets(1);
    assert!(before <= w[0].created_at.secs);
    let users = get_users(no_paging());
    assert_eq!(users[0].created_at, users[1].created_at);
    let h = health_check();
    let parsed = chrono::DateTime::parse_from_rfc3339(&h.timestamp).unwrap();
    assert!(parsed.timestamp() >= before);
}
