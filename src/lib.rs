//! Mirrors every book listed under one tag of a listing site: discovers the
//! listing pages, enumerates the book entries on each page, plans the files
//! written for each book, and schedules the work under a concurrency bound.
pub mod artifact;
pub mod crawl;
pub mod extract;
pub mod pipeline;
pub mod pool;
pub mod text;
