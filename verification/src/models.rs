//! The typed shapes of the billing API's requests and responses, as far
//! as the command surface reads them. Fields the service may omit are
//! options; transport encoding and decoding happen at the caller's
//! boundary.

use vstd::prelude::*;

verus! {

/// The body of a login request.
#[derive(Clone, Debug, PartialEq)]
pub struct LoginRequest {
    pub email: String,
    pub password: String,
}

/// The body of a successful login response.
#[derive(Clone, Debug, PartialEq)]
pub struct AuthResponse {
    pub token: String,
    pub user_id: String,
    pub tenant_id: String,
}

/// The generic wrapper around a listed resource.
#[derive(Clone, Debug, PartialEq)]
pub struct ListResponse<T> {
    pub items: Vec<T>,
    pub total_count: Option<i64>,
}

/// A customer record.
#[derive(Clone, Debug, PartialEq)]
pub struct Customer {
    pub id: String,
    pub name: Option<String>,
    pub email: Option<String>,
    pub external_id: Option<String>,
    pub status: Option<String>,
    pub created_at: Option<String>,
}

/// A pricing plan.
#[derive(Clone, Debug, PartialEq)]
pub struct Plan {
    pub id: String,
    pub name: Option<String>,
    pub description: Option<String>,
    pub status: Option<String>,
    pub created_at: Option<String>,
}

/// A subscription of a customer to a plan.
#[derive(Clone, Debug, PartialEq)]
pub struct Subscription {
    pub id: String,
    pub customer_id: Option<String>,
    pub plan_id: Option<String>,
    pub subscription_status: Option<String>,
    pub current_period_start: Option<String>,
    pub current_period_end: Option<String>,
    pub created_at: Option<String>,
}

/// A usage meter.
#[derive(Clone, Debug, PartialEq)]
pub struct Meter {
    pub id: String,
    pub name: Option<String>,
    pub event_name: Option<String>,
    pub aggregation: Option<String>,
    pub status: Option<String>,
    pub created_at: Option<String>,
}

/// A feature of a plan.
#[derive(Clone, Debug, PartialEq)]
pub struct Feature {
    pub id: String,
    pub name: Option<String>,
    pub lookup_key: Option<String>,
    pub feature_type: Option<String>,
    pub status: Option<String>,
    pub created_at: Option<String>,
}

} // verus!
