//! Authorization and ownership rules of a small marketplace backend: a token
//! service, the rows it stores, the ownership policy and the request steps
//! that tie them together.

mod config;
mod entities;
mod handlers;
mod jwt;
mod policy;

pub use config::{DBConfig, JwtConfig, S3BucketConfig};
pub use entities::{
    account_by_id_and_token, account_by_name, account_by_token, account_renamed, accounts_well_formed,
    tokens_distinct, Article,
    ArticleDraft, ArticleGender, ArticleSize, ArticleStatus, ArticleType, CreateArticle, Image,
    NewUser, StoreError, Timestamp, User,
};
pub use jwt::{signed_token, token_claims, Jwt, TokenError, EXPIRY_LEEWAY_SECS};
pub use policy::{
    authorization, authorized_iff_verified_and_on_file, conclude, settled, Authorization,
};
pub use handlers::{
    accounts_keep_tokens_distinct, duplicate_registration_is_rejected,
    registration_refuses_token_on_file, foreign_token_cannot_create_listing,
    free_name_is_registered_with_issued_token, image_url, listing_needs_owner_token,
    negative_id_is_rejected, rename_needs_token_on_file, spec_image_url, ArticleResponse,
    Failure, Outcome, Request, Service, Stage, Step, StoreCall, StoreReply,
};
