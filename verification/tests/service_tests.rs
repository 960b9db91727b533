use irock_programmer::{
    fetch_flash_data, flash_hardware, progress_percent, variant_tags, DownloadMsg, FetchMessage,
    FlashReleaseService, HardwareType, PipelineStage, RawRelease,
};

fn raw(tag: &str, prerelease: bool, assets: &[&str]) -> RawRelease {
    RawRelease {
        tag_name: tag.to_string(),
        prerelease,
        assets: assets.iter().map(|a| a.to_string()).collect(),
    }
}

#[test]
fn poll_without_selection_starts_nothing() {
    let mut svc = FlashReleaseService::new();
    assert!(svc.poll().is_none());
    let (releases, loading, error) = svc.get_state();
    assert!(releases.is_none());
    assert!(!loading);
    assert!(error.is_none());
}

#[test]
fn poll_starts_one_fetch_for_the_selected_repo() {
    let mut svc = FlashReleaseService::new();
    svc.set_hw_type(Some(HardwareType::IRock424));
    let req = svc.poll().expect("a fetch must start");
    assert_eq!(req.repo, "Arvernus/iRock-424");
    assert_eq!(svc.get_snapshot().stage, PipelineStage::CatalogLoading);
    let (_, loading, _) = svc.get_state();
    assert!(loading);
}

#[test]
fn poll_twice_does_not_start_a_second_fetch() {
    let mut svc = FlashReleaseService::new();
    svc.set_hw_type(Some(HardwareType::IRock212));
    assert!(svc.poll().is_some());
    assert!(svc.poll().is_none());
    assert!(svc.poll().is_none());
    assert_eq!(svc.get_snapshot().stage, PipelineStage::CatalogLoading);
}

#[test]
fn setting_the_same_hardware_again_is_a_no_op() {
    let mut svc = FlashReleaseService::new();
    svc.set_hw_type(Some(HardwareType::IRock200));
    let req = svc.poll().expect("a fetch must start");
    svc.set_hw_type(Some(HardwareType::IRock200));
    assert_eq!(svc.get_snapshot().stage, PipelineStage::CatalogLoading);
    svc.apply_fetch_message(req.generation, FetchMessage::Releases(vec![raw("v1.0", false, &["fw-A.bin"])]));
    assert_eq!(svc.get_snapshot().stage, PipelineStage::CatalogReady);
}

#[test]
fn successful_fetch_caches_the_filtered_catalog() {
    let mut svc = FlashReleaseService::new();
    svc.set_hw_type(Some(HardwareType::IRock424));
    let req = svc.poll().expect("a fetch must start");
    svc.apply_fetch_message(
        req.generation,
        FetchMessage::Releases(vec![
            raw("v2.0", false, &["fw-A.bin", "changelog.md"]),
            raw("v1.9", false, &["sources.zip"]),
        ]),
    );
    let (releases, loading, error) = svc.get_state();
    assert!(!loading);
    assert!(error.is_none());
    let releases = releases.expect("catalog must be cached");
    assert_eq!(releases.len(), 1);
    assert_eq!(releases[0].tag_name, "v2.0");
    assert_eq!(releases[0].stm32_assets, vec!["fw-A.bin".to_string()]);
    assert_eq!(svc.get_snapshot().stage, PipelineStage::CatalogReady);
}

#[test]
fn failed_fetch_reports_the_cause_verbatim() {
    let mut svc = FlashReleaseService::new();
    svc.set_hw_type(Some(HardwareType::IRock424));
    let req = svc.poll().expect("a fetch must start");
    svc.apply_fetch_message(req.generation, FetchMessage::Failed("no route to host".to_string()));
    let snapshot = svc.get_snapshot();
    assert_eq!(snapshot.stage, PipelineStage::CatalogFailed);
    assert_eq!(snapshot.releases_error, Some("no route to host".to_string()));
    assert!(snapshot.releases.is_none());
    assert!(svc.poll().is_none());
}

#[test]
fn stale_fetch_result_is_dropped_after_reselection() {
    let mut svc = FlashReleaseService::new();
    svc.set_hw_type(Some(HardwareType::IRock424));
    let stale = svc.poll().expect("a fetch must start for selection A");
    svc.set_hw_type(Some(HardwareType::IRock212));
    svc.apply_fetch_message(
        stale.generation,
        FetchMessage::Releases(vec![raw("vA", false, &["fw-OLD.bin"])]),
    );
    let (releases, _, error) = svc.get_state();
    assert!(releases.is_none(), "the stale catalog must never be applied");
    assert!(error.is_none());
    let fresh = svc.poll().expect("a fetch must start for selection B");
    assert_ne!(stale.generation, fresh.generation);
    assert_eq!(fresh.repo, "Arvernus/iRock-212");
    svc.apply_fetch_message(
        fresh.generation,
        FetchMessage::Releases(vec![raw("vB", false, &["fw-NEW.bin"])]),
    );
    let (releases, _, _) = svc.get_state();
    assert_eq!(releases.expect("fresh catalog")[0].tag_name, "vB");
}

#[test]
fn select_release_rejects_bad_index() {
    let mut svc = FlashReleaseService::new();
    assert!(!svc.select_release(0));
    svc.set_hw_type(Some(HardwareType::IRock424));
    let req = svc.poll().unwrap();
    svc.apply_fetch_message(req.generation, FetchMessage::Releases(vec![raw("v1.0", false, &["fw-A.bin"])]));
    assert!(!svc.select_release(1));
    assert!(svc.select_release(0));
    assert_eq!(svc.get_snapshot().stage, PipelineStage::ReleaseChosen);
}

#[test]
fn select_variant_rejects_unknown_tag() {
    let mut svc = FlashReleaseService::new();
    svc.set_hw_type(Some(HardwareType::IRock424));
    let req = svc.poll().unwrap();
    svc.apply_fetch_message(
        req.generation,
        FetchMessage::Releases(vec![raw("v1.0", false, &["fw-board-A.bin", "fw.dfu"])]),
    );
    assert!(svc.select_release(0));
    assert!(!svc.select_variant("Z".to_string()));
    assert_eq!(svc.get_snapshot().stage, PipelineStage::ReleaseChosen);
    assert!(svc.select_variant("A".to_string()));
    assert_eq!(svc.get_snapshot().stage, PipelineStage::VariantChosen);
}

#[test]
fn download_progress_is_monotone_and_ends_at_100() {
    let mut svc = FlashReleaseService::new();
    svc.set_hw_type(Some(HardwareType::IRock424));
    let req = svc.poll().unwrap();
    svc.apply_fetch_message(req.generation, FetchMessage::Releases(vec![raw("v1.0", false, &["fw-A.bin"])]));
    assert!(svc.select_release(0));
    assert!(svc.select_variant("A".to_string()));
    let handle = svc.start_download().expect("a download must start");
    let total: u64 = 4_096;
    let mut seen: Vec<usize> = vec![svc.get_snapshot().download_percent];
    let mut done: u64 = 0;
    while done < total {
        done = (done + 700).min(total);
        svc.apply_download_message(
            handle.generation,
            DownloadMsg::Progress(progress_percent(done, total)),
        );
        seen.push(svc.get_snapshot().download_percent);
    }
    for pair in seen.windows(2) {
        assert!(pair[0] <= pair[1]);
    }
    assert_eq!(*seen.last().unwrap(), 100);
    svc.apply_download_message(handle.generation, DownloadMsg::Done("fw-A.bin".to_string()));
    let snapshot = svc.get_snapshot();
    assert_eq!(snapshot.stage, PipelineStage::DownloadComplete);
    assert_eq!(snapshot.download_percent, 100);
}

#[test]
fn regressing_progress_message_is_not_applied() {
    let mut svc = FlashReleaseService::new();
    svc.set_hw_type(Some(HardwareType::IRock424));
    let req = svc.poll().unwrap();
    svc.apply_fetch_message(req.generation, FetchMessage::Releases(vec![raw("v1.0", false, &["fw-A.bin"])]));
    assert!(svc.select_release(0));
    assert!(svc.select_variant("A".to_string()));
    let handle = svc.start_download().expect("a download must start");
    svc.apply_download_message(handle.generation, DownloadMsg::Progress(60));
    svc.apply_download_message(handle.generation, DownloadMsg::Progress(40));
    assert_eq!(svc.get_snapshot().download_percent, 60);
    svc.apply_download_message(handle.generation, DownloadMsg::Progress(1_000));
    assert_eq!(svc.get_snapshot().download_percent, 100);
}

#[test]
fn stale_download_message_is_dropped() {
    let mut svc = FlashReleaseService::new();
    svc.set_hw_type(Some(HardwareType::IRock424));
    let req = svc.poll().unwrap();
    svc.apply_fetch_message(
        req.generation,
        FetchMessage::Releases(vec![raw("v1.0", false, &["fw-A.bin", "fw-B.bin"])]),
    );
    assert!(svc.select_release(0));
    assert!(svc.select_variant("A".to_string()));
    let stale = svc.start_download().expect("first download");
    assert!(svc.select_variant("B".to_string()));
    svc.apply_download_message(stale.generation, DownloadMsg::Done("fw-A.bin".to_string()));
    let snapshot = svc.get_snapshot();
    assert_eq!(snapshot.stage, PipelineStage::VariantChosen, "the abandoned download must not complete the stage");
    assert!(snapshot.download_path.is_none());
}

#[test]
fn end_to_end_provisioning_scenario() {
    let mut svc = FlashReleaseService::new();
    svc.set_hw_type(Some(HardwareType::IRock424));
    let req = svc.poll().expect("fetch starts");
    assert_eq!(req.repo, "Arvernus/iRock-424");
    svc.apply_fetch_message(
        req.generation,
        FetchMessage::Releases(vec![raw(
            "v1.0",
            false,
            &["fw-board-A.bin", "fw-board-B.bin", "fw.dfu"],
        )]),
    );
    let (releases, _, _) = svc.get_state();
    let releases = releases.expect("catalog cached");
    assert_eq!(releases.len(), 1);
    assert_eq!(releases[0].tag_name, "v1.0");
    let offered = variant_tags(&releases[0].stm32_assets);
    assert_eq!(offered, vec!["A".to_string(), "B".to_string()]);
    assert!(svc.select_release(0));
    assert!(svc.select_variant("A".to_string()));
    let handle = svc.start_download().expect("download starts");
    assert_eq!(handle.repo, "Arvernus/iRock-424");
    assert_eq!(handle.tag, "v1.0");
    assert_eq!(handle.asset, "fw-board-A.bin");
    svc.apply_download_message(handle.generation, DownloadMsg::Progress(0));
    svc.apply_download_message(handle.generation, DownloadMsg::Progress(100));
    svc.apply_download_message(handle.generation, DownloadMsg::Done("/tmp-area/fw-board-A.bin".to_string()));
    assert_eq!(svc.get_snapshot().stage, PipelineStage::DownloadComplete);
    let flash_req = svc.start_flash().expect("flash starts");
    assert_eq!(flash_req.config.firmware_path, "/tmp-area/fw-board-A.bin");
    assert!(svc.start_flash().is_none(), "a second flash must not start");
    let outcome = flash_hardware(Ok("Flashen mit probe-rs erfolgreich!".to_string()));
    assert!(outcome.success);
    svc.apply_flash_message(flash_req.generation, outcome);
    let snapshot = svc.get_snapshot();
    assert_eq!(snapshot.stage, PipelineStage::FlashComplete);
    let result = snapshot.flash_result.expect("flash outcome cached");
    assert!(result.success);
    assert_eq!(result.message, "Flashen mit probe-rs erfolgreich!");
}

#[test]
fn failed_download_and_failed_flash_report_their_causes() {
    let mut svc = FlashReleaseService::new();
    svc.set_hw_type(Some(HardwareType::IRock424));
    let req = svc.poll().unwrap();
    svc.apply_fetch_message(req.generation, FetchMessage::Releases(vec![raw("v1.0", false, &["fw-A.bin"])]));
    assert!(svc.select_release(0));
    assert!(svc.select_variant("A".to_string()));
    let handle = svc.start_download().unwrap();
    svc.apply_download_message(handle.generation, DownloadMsg::Error("disk full".to_string()));
    let snapshot = svc.get_snapshot();
    assert_eq!(snapshot.stage, PipelineStage::DownloadFailed);
    assert_eq!(snapshot.download_error, Some("disk full".to_string()));
    assert!(svc.start_flash().is_none());

    assert!(svc.select_variant("A".to_string()), "re-selection re-enters the pipeline");
    let retry = svc.start_download().unwrap();
    svc.apply_download_message(retry.generation, DownloadMsg::Done("fw-A.bin".to_string()));
    let flash_req = svc.start_flash().unwrap();
    let outcome = flash_hardware(Err("Fehler beim Flashen mit probe-rs: no probe".to_string()));
    assert!(!outcome.success);
    svc.apply_flash_message(flash_req.generation, outcome);
    let snapshot = svc.get_snapshot();
    assert_eq!(snapshot.stage, PipelineStage::FlashComplete);
    let result = snapshot.flash_result.unwrap();
    assert!(!result.success);
    assert_eq!(result.message, "Fehler beim Flashen mit probe-rs: no probe");
}

#[test]
fn clearing_the_selection_resets_everything() {
    let mut svc = FlashReleaseService::new();
    svc.set_hw_type(Some(HardwareType::IRock424));
    let req = svc.poll().unwrap();
    svc.apply_fetch_message(req.generation, FetchMessage::Releases(vec![raw("v1.0", false, &["fw-A.bin"])]));
    svc.set_hw_type(None);
    let snapshot = svc.get_snapshot();
    assert_eq!(snapshot.stage, PipelineStage::Idle);
    assert!(snapshot.releases.is_none());
    assert!(svc.poll().is_none());
}

#[test]
fn fetch_flash_data_returns_the_fixed_notice() {
    assert_eq!(fetch_flash_data(), Ok("Daten abgerufen (Platzhalter)".to_string()));
}
