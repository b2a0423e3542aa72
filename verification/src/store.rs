//! The durable store's decisions: what each transaction may do with the rows it
//! has read, and what it writes. Queries themselves are run by the caller.
pub mod admission;
pub mod allocation_permits;
pub mod allocation_retirement;
pub mod cancel;
pub mod claims;
pub mod clock;
pub mod compaction;
pub mod destroy;
pub mod dispatch;
pub mod execute;
pub mod files;
pub mod history;
pub mod laws;
pub mod leases;
pub mod lists;
pub mod output;
pub mod output_cleanup;
pub mod placement;
pub mod projects;
pub mod provision;
pub mod reads;
pub mod recovery;
pub mod retention;
pub mod retries;
pub mod rows;
pub mod stream;
