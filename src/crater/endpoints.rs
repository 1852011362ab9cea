//! Where the orchestration service's API is reached, and how requests to it
//! are authorised.
use vstd::prelude::*;

verus! {

/// The address of the experiment collection.
pub fn experiments_url(api_url: &str) -> (r: String)
    ensures
        r@ == api_url@ + "/api/v1/experiments"@,
{
    let mut r = String::from_str(api_url);
    r.append("/api/v1/experiments");
    r
}

/// The address of one experiment.
pub fn experiment_url(api_url: &str, name: &str) -> (r: String)
    ensures
        r@ == api_url@ + "/api/v1/experiments/"@ + name@,
{
    let mut r = String::from_str(api_url);
    r.append("/api/v1/experiments/");
    r.append(name);
    r
}

/// The address of an action (`run`, `abort`) on one experiment.
pub fn experiment_action_url(api_url: &str, name: &str, action: &str) -> (r: String)
    ensures
        r@ == api_url@ + "/api/v1/experiments/"@ + name@ + "/"@ + action@,
{
    let mut r = experiment_url(api_url, name);
    r.append("/");
    r.append(action);
    r
}

/// The `Authorization` header value for the service's token.
pub fn bearer(token: &str) -> (r: String)
    ensures
        r@ == "Bearer "@ + token@,
{
    let mut r = String::from_str("Bearer ");
    r.append(token);
    r
}

} // verus!
