//! A minimal HTTP front end that serves whitelisted static files directly and
//! forwards every other request to a FastCGI backend, translating the
//! backend's output into a well-formed HTTP response.
//!
//! The library holds the per-request logic: parsing the request line, deciding
//! between static service and the FastCGI gateway, resolving the script path,
//! splitting the backend's output into headers and body, and assembling the
//! outgoing HTTP responses. The surrounding binary owns the sockets and the
//! filesystem and hands the library plain values.

pub mod fastcgi;
pub mod handler;
pub mod request_parser;
pub mod response;
pub mod static_file;
pub mod text;
