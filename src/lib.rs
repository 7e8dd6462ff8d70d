//! A pull-through, write-back binary cache for a content-addressed store.
//!
//! The library holds the decisions of the cache: how request paths are read,
//! the negative cache of hashes known to be missing from the blob backend,
//! what each protocol handler answers, how errors map to HTTP statuses, and the
//! replication worker that uploads every store path at most once.
//! The I/O around those decisions (HTTP, the blob backend, the store) is done
//! by the caller, who hands the results back as plain values.

pub mod error;
pub mod handlers;
pub mod narinfo;
pub mod paths;
pub mod worker;
pub mod string_set;

pub use error::{BackendError, BackendErrorKind, Error};
pub use handlers::{get_nix_cache_info, BinaryCache, Metrics, Reply, Step};
pub use narinfo::{
    base_name, decimal, join_spaced, nar_url, path_info_to_nar_info, upload_plan, NarInfo, PathInfo,
    UploadPlan,
};
pub use paths::{narinfo_hash, narinfo_key, nar_file_name, redirect_url};
pub use string_set::StringSet;
pub use worker::{upload_requests, Action, Request, Worker};
