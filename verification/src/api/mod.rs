//! Where the data is to be had: the addresses of the data files, and the queries
//! that the query service takes.
//!
//! Nothing here opens a connection. These types say *what* to ask for, as text;
//! the caller does the asking.

pub mod endpoint;
pub mod gather;
pub mod query;

pub use gather::gather;
pub use endpoint::{CharacterNameOrQuery, Endpoint, Endpoints, EquipmentIDOrName};
pub use query::{Query, QueryKind, StudentQuery, StudentQueryBuilder};
