//! Project-management SDK core: the domain model shared by the adapters,
//! and the request planning and response interpretation of the Linear
//! (GraphQL) and Asana (REST) adapters.
pub mod asana;
pub mod error;
pub mod http;
pub mod json;
pub mod linear;
pub mod model;
pub mod text;

pub use error::{PmError, PmResult};
pub use model::{
    Comment, CreateCommentRequest, CreateIssueRequest, CustomerIssueFilter, CustomerIssueView,
    Issue, IssuePriority, PageRequest, Project, SearchRequest, SearchResult, Team,
    UpdateIssueRequest,
};
