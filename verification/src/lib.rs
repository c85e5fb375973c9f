pub mod bearer_auth;
pub mod realm;
pub mod registry;
pub mod resolver;
pub mod text;
pub mod token;
