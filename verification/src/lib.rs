pub mod adoption;
pub mod auth_laws;
pub mod base64url;
pub mod crypto;
pub mod event_id;
pub mod form_url;
pub mod json;
pub mod jwk;
pub mod redact;
pub mod replay;
pub mod session_token;
pub mod sse;
pub mod sse_laws;
pub mod text;
pub mod token_laws;
pub mod trinity_auth;
pub mod trinity_verifier;
pub mod verify_error;
