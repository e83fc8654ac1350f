//! Verified core of a board-image harvester: listing documents are modelled
//! as a JSON tree, candidate image URLs are extracted from them, and each
//! downloaded image is gated by resolution and given a deterministic
//! destination name before it is written.

pub mod error;
pub mod harvest;
pub mod json;
pub mod process;
pub mod subreddit;

pub use error::RedditError;
pub use error::RedditResult;
pub use harvest::HarvestOutcome;
pub use harvest::SortMode;
pub use harvest::all_ok;
pub use harvest::board_outcome;
pub use harvest::pass_order;
pub use json::Json;
pub use process::DecodedImage;
pub use process::ImagePlan;
pub use process::MIN_DIMENSION;
pub use process::encode_image;
pub use process::orientation_prefix;
pub use process::plan_image;
pub use process::write_decision;
pub use subreddit::Subreddit;
pub use subreddit::extract_candidates;
pub use subreddit::listing_children;
