//! What the store's operations do, said of the rows they read and the values they
//! write, field by field.
pub mod admission;
pub mod compaction;
pub mod destroy;
pub mod dispatch;
pub mod eligibility;
pub mod evidence;
pub mod execute;
pub mod files;
pub mod forgetting;
pub mod history;
pub mod leases;
pub mod output;
pub mod output_cleanup;
pub mod permits;
pub mod placement;
pub mod projects;
pub mod recovery;
pub mod release_evidence;
pub mod released_history;
pub mod repeats;
pub mod retirement;
pub mod stream;
pub mod words;
pub mod writes;
