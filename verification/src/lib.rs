//! Resolution of a file extension for a downloaded remote resource.
//!
//! Given a response abstraction exposing the effective request URL and the
//! `Content-Type` header, the resolver first tries to derive an extension from
//! the URL path; if the URL holds no `.`, it normalizes the declared content
//! type and looks it up in a fixed MIME-to-extension table.

pub mod errors;
pub mod mime;
pub mod resolve;
pub mod short_str;
pub mod text;

pub use errors::ExtError;
pub use mime::mime_to_ext;
pub use resolve::remote_file_ext;
pub use resolve::Response;
pub use short_str::MAX_SHORT_STR_LEN;
pub use short_str::ShortStr;
