//! Deployment configuration, as plain data. Reading it from the
//! environment is the surrounding program's concern.

use vstd::prelude::*;

verus! {

/// Environment-derived configuration. Only `is_production` bears on this
/// subsystem: it governs the `Secure` attribute of the session cookie.
#[derive(Clone)]
pub struct Config {
    pub database_url: String,
    pub session_secret: String,
    pub aws_region: String,
    pub aws_s3_bucket: String,
    pub frontend_url: String,
    pub is_production: bool,
}

} // verus!
