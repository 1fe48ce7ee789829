use vstd::prelude::*;

verus! {

/// Where the relational store lives and how many connections may be open at once.
#[derive(Clone)]
pub struct DBConfig {
    pub url: String,
    pub max_connections: u32,
}

/// What the token service signs with.
#[derive(Clone)]
pub struct JwtConfig {
    /// secret key
    pub secret: String,
    /// the expiration claim that every token carries, in seconds since the Unix epoch
    pub expiration: usize,
}

/// Where listing images are stored.
#[derive(Clone)]
pub struct S3BucketConfig {
    pub base_url: String,
}

} // verus!
