//! Core logic of a community web application: request throttling, form
//! validation, the steps of signing up, logging in and creating a
//! community, error-to-response mapping, reCAPTCHA verdicts, HTMX helpers,
//! confirmation tokens, the SQL of the community listings and table-schema
//! generation.

pub mod api;
pub mod auth;
pub mod auth_routes;
pub mod catchers;
pub mod clock;
pub mod community;
pub mod create_community_error;
pub mod deletion_token;
pub mod error_toasts;
pub mod flows;
pub mod form_errors;
pub mod forms;
pub mod htmx;
pub mod login_error;
pub mod pages;
pub mod queries;
pub mod rate_limiter;
pub mod recaptcha;
pub mod register_error;
pub mod responders;
pub mod responses;
pub mod routes;
pub mod schema;
pub mod search;
pub mod text;
pub mod time_ago;
