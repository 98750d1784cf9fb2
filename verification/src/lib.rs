//! A resource-resolution router: maps a virtual-URI request to a concrete
//! file path, based on which route pattern the request's path matches and on
//! the currently loaded project context.

pub mod project;
pub mod resolve;
pub mod response;
pub mod route;

pub use project::ProjectContext;
pub use response::Response;
pub use response::not_found_response;
pub use response::ok_response;
pub use response::response_for_error;
pub use response::response_for_read;
pub use resolve::ResolveError;
pub use resolve::ResolvedResource;
pub use resolve::resolve_request;
pub use route::ResourceRouter;
pub use route::ResourceType;
