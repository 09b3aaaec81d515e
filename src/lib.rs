//! A cache-fronted client core for a paginated remote data source, with
//! stale-while-revalidate fetching, dependency resolution and pagination,
//! together with the field decoding helpers of the wire format.
pub mod error;
pub mod future;
pub mod gdcf;
pub mod integrity;
pub mod laws;
pub mod metadata;
pub mod request;
pub mod refresh;
pub mod response;
pub mod stream;
pub mod text;
pub mod util;
pub mod model;
pub mod object;
