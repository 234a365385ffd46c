//! Client-side core of a remote compiler-exploration service: a metadata
//! cache grouping compilers under their language, a resolver turning a
//! user-supplied identifier into a concrete compiler, the request/response
//! data model with its wire-text encoding, and a stateless encoder that
//! packages a compilation session into a portable, URL-safe token.

pub mod cache;
pub mod json;
pub mod metadata;
pub mod request;
pub mod response;
pub mod session;
pub mod token;

pub use cache::Godbolt;
pub use cache::GodboltCacheEntry;
pub use cache::GodboltError;
pub use metadata::Compiler;
pub use metadata::Format;
pub use metadata::Language;
pub use metadata::Library;
pub use metadata::LibraryVersion;
pub use request::CompilationFilters;
pub use request::CompilationRequest;
pub use request::CompilerOptions;
pub use request::ExecuteParameters;
pub use request::FormatterRequest;
pub use request::RequestOptions;
pub use response::AsmResult;
pub use response::BuildResult;
pub use response::FormatResult;
pub use response::GodboltResponse;
pub use response::StdErrResult;
pub use response::StdOutResult;
pub use response::TagResult;
pub use session::ClientState;
pub use session::Executor;
pub use session::ExecutorCompiler;
pub use session::Session;
pub use session::SessionCompiler;
