//! Firmware provisioning core: hardware model catalog, release filtering,
//! variant extraction, download progress accounting, and the poll-driven
//! supervisor that drives one background operation per pipeline stage.
//!
//! All network, disk and subprocess work happens outside this crate; the
//! supervisor receives outcomes as plain messages and is verified to apply
//! them correctly: stale results are dropped, progress never regresses, and
//! at most one operation per stage is ever in flight.

mod catalog;
mod flashing;
mod hardware;
mod progress;
mod repo;
mod service;
mod variant;

pub use catalog::{
    catalog_of, clone_releases, filter_releases, flashable_assets, flashable_of, has_suffix,
    is_flashable, is_flashable_name, keeps, str_has_suffix, to_release_model, RawRelease,
    RawReleaseModel, Release, ReleaseModel,
};
pub use flashing::{
    fetch_flash_data, flash_hardware, FlashConfig, FlashResult, FlashResultModel,
    FLASH_LOAD_ADDRESS,
};
pub use hardware::HardwareType;
pub use progress::{lemma_percent_monotone, percent_of, progress_percent};
pub use repo::{count_char, repo_well_formed, split_repo, validate_repo};
pub use service::{
    lemma_at_most_one_in_flight, lemma_fresh_fetch_populates, lemma_progress_never_regresses,
    lemma_supersession, stage_has_catalog, stage_has_path, stage_has_percent, stage_has_release,
    stage_has_variant, DownloadMsg, DownloadMsgModel, DownloadRequestModel, FetchMessage,
    FetchMessageModel, FetchRequest, FetchRequestModel, FirmwareDownloadHandle,
    FlashReleaseService, FlashRequest, FlashRequestModel, PipelineStage, ServiceModel, Snapshot,
};
pub use variant::{
    extract_variant, find_variant_asset, first_match_idx, last_index_of, lemma_first_match_idx_props,
    lemma_last_index_of_props, lemma_lex_lt_trans, lemma_lex_lt_trichotomy, lex_lt, str_eq, str_lt,
    strictly_sorted, variant_of, variant_tags, variants_in,
};
