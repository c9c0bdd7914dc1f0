//! An HTTP request engine: a request is assembled step by step, handed to a
//! transport, and the exchange is written down as text that can be audited.

pub mod engine;
pub mod error;
pub mod header;
pub mod http_evidence;
pub mod laws;
pub mod message;
pub mod pending;
pub mod text;
pub mod url;

pub use engine::{Dispatch, Evidence, Http, Receipt};
pub use error::{HttpError, Operation, RequestFault};
pub use header::{Header, HeaderFault, Headers};
pub use http_evidence::{headers_to_evidence, req_to_evidence, res_to_evidence};
pub use message::{Method, Request, Response, StatusCode, Version};
pub use pending::PendingRequest;
pub use url::Target;
