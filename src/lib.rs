//! Planning and bookkeeping for keyword-driven illustrated social posts: prompt
//! construction, recovery of structured data from model output, batch
//! tolerance rules, and the project store's index and file layout.
pub mod content;
pub mod crossref;
pub mod error;
pub mod extract;
pub mod image;
pub mod keyword;
pub mod models;
pub mod news;
pub mod order;
pub mod provider;
pub mod pubmed;
pub mod research;
pub mod settings;
pub mod store;
pub mod text;
pub mod thirdparty;
