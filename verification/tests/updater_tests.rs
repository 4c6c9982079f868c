use opencodex_desktop::health::LiveProxy;
use opencodex_desktop::phase::UpdatePhase;
use opencodex_desktop::proxy::{DesktopProxy, OwnedProxy, StartError};
use opencodex_desktop::updater::{
    startup_event, update_tray, DesktopUpdater, InstallOutcome, UpdateAction, UpdateCheck,
};

#[test]
fn set_phase_clears_the_exit_choice_and_progress() {
    let mut u = DesktopUpdater::default();
    u.begin_download();
    u.record_download_progress(10, Some(100));
    assert_eq!(u.download_percent, Some(10));
    u.select_exit_after_update();
    assert!(u.exit_after_update);
    u.set_phase(UpdatePhase::Downloading);
    assert_eq!(u.download_percent, Some(10));
    u.set_phase(UpdatePhase::DownloadFailed);
    assert!(!u.exit_after_update);
    assert_eq!(u.download_percent, None);
}

#[test]
fn exit_after_update_only_while_active() {
    let mut u = DesktopUpdater::default();
    u.select_exit_after_update();
    assert!(!u.exit_after_update);
    u.phase = UpdatePhase::Installing;
    u.select_exit_after_update();
    assert!(u.exit_after_update);
}

#[test]
fn download_progress_is_a_bounded_percentage() {
    let mut u = DesktopUpdater::default();
    u.begin_download();
    u.record_download_progress(50, Some(200));
    assert_eq!(u.download_percent, Some(25));
    u.record_download_progress(1000, Some(200));
    assert_eq!(u.download_percent, Some(100));
    assert_eq!(u.downloaded_bytes, 1050);
    u.record_download_progress(1, Some(0));
    assert_eq!(u.download_percent, None);
    u.record_download_progress(1, None);
    assert_eq!(u.download_percent, None);
    u.downloaded_bytes = u64::MAX - 1;
    u.record_download_progress(10, Some(u64::MAX));
    assert_eq!(u.downloaded_bytes, u64::MAX);
    assert_eq!(u.download_percent, Some(1));
}

#[test]
fn the_update_action_follows_the_phase() {
    let mut u = DesktopUpdater::default();
    assert_eq!(u.handle_update_action(), UpdateAction::CheckForUpdates);
    assert_eq!(u.phase, UpdatePhase::Checking);
    assert_eq!(u.handle_update_action(), UpdateAction::Nothing);
    u.check_finished(UpdateCheck::Available);
    assert_eq!(u.phase, UpdatePhase::Available);
    assert_eq!(u.handle_update_action(), UpdateAction::Download);
    assert_eq!(u.phase, UpdatePhase::Downloading);
    assert!(u.download_checked(UpdateCheck::Available));
    u.finish_download(vec![1, 2, 3]);
    assert_eq!(u.phase, UpdatePhase::Ready);
    assert_eq!(u.handle_update_action(), UpdateAction::Install);
    assert!(u.proxy_stopped_for_install(Ok(false)));
    assert_eq!(u.take_pending_install(), Some(vec![1, 2, 3]));
    assert_eq!(u.phase, UpdatePhase::Installing);
    assert_eq!(u.install_finished(false), InstallOutcome::Failed);
    assert_eq!(u.phase, UpdatePhase::InstallFailed);
    assert!(u.handle_update_secondary_action());
    assert_eq!(u.phase, UpdatePhase::Idle);
}

#[test]
fn a_failed_check_or_download_check_is_reported() {
    let mut u = DesktopUpdater::default();
    u.check_finished(UpdateCheck::Failed);
    assert_eq!(u.phase, UpdatePhase::CheckFailed);
    u.check_finished(UpdateCheck::UpToDate);
    assert_eq!(u.phase, UpdatePhase::NoUpdate);
    u.begin_download();
    assert!(!u.download_checked(UpdateCheck::UpToDate));
    assert_eq!(u.phase, UpdatePhase::NoUpdate);
    u.begin_download();
    assert!(!u.download_checked(UpdateCheck::Failed));
    assert_eq!(u.phase, UpdatePhase::DownloadFailed);
}

#[test]
fn a_failed_install_restores_the_proxy_it_stopped() {
    let mut u = DesktopUpdater::default();
    u.finish_download(vec![9]);
    assert!(!u.proxy_stopped_for_install(Err("busy".to_string())));
    assert_eq!(u.phase, UpdatePhase::StopFailed);
    assert_eq!(u.handle_update_action(), UpdateAction::Install);
    assert!(u.proxy_stopped_for_install(Ok(true)));
    assert!(u.owned_proxy_stopped);
    assert_eq!(u.take_pending_install(), Some(vec![9]));
    assert_eq!(u.install_finished(false), InstallOutcome::RestoreProxy);
    assert!(u.begin_recovery());
    assert_eq!(u.phase, UpdatePhase::Recovering);
    u.finish_recovery(false);
    assert_eq!(u.phase, UpdatePhase::RecoveryFailed);
    assert_eq!(u.handle_update_action(), UpdateAction::RestoreProxy);
    assert!(u.begin_recovery());
    u.finish_recovery(true);
    assert_eq!(u.phase, UpdatePhase::Recovered);
    assert!(!u.owned_proxy_stopped);
    assert!(!u.begin_recovery());
    assert_eq!(u.handle_update_action(), UpdateAction::Dismissed);
    assert_eq!(u.phase, UpdatePhase::Idle);
}

#[test]
fn a_successful_install_exits_or_restarts_as_chosen() {
    let mut u = DesktopUpdater::default();
    u.finish_download(vec![]);
    u.take_pending_install();
    assert_eq!(u.install_finished(true), InstallOutcome::RestartApp);
    u.select_exit_after_update();
    assert_eq!(u.install_finished(true), InstallOutcome::ExitApp);
}

#[test]
fn a_pending_update_without_its_download_is_dropped() {
    let mut u = DesktopUpdater::default();
    assert_eq!(u.take_pending_install(), None);
    u.pending_update = true;
    u.phase = UpdatePhase::Ready;
    assert_eq!(u.take_pending_install(), None);
    assert!(!u.pending_update);
    assert_eq!(u.phase, UpdatePhase::Ready);
}

#[test]
fn the_tray_reflects_proxy_and_update() {
    let mut proxy = DesktopProxy::default();
    let mut u = DesktopUpdater::default();
    let view = update_tray(&proxy, &u);
    assert_eq!(view.status, "Proxy: starting");
    assert!(!view.restart_enabled);
    assert_eq!(view.update_status, "Update: Check for updates");
    assert_eq!(view.update_action, "Check for Updates");
    assert!(view.update_action_enabled);
    assert_eq!(view.update_secondary, None);
    assert!(!view.exit_after_update_enabled);

    proxy
        .start_new_owned(Ok(OwnedProxy { pid: 4, control_file: "f".into(), control_token: "t".into() }))
        .unwrap();
    assert!(update_tray(&proxy, &u).restart_enabled);
    u.begin_download();
    u.record_download_progress(7, Some(10));
    let view = update_tray(&proxy, &u);
    assert!(!view.restart_enabled);
    assert_eq!(view.update_status, "Update: Downloading… 70%");
    assert_eq!(view.update_action, "Working...");
    assert!(!view.update_action_enabled);
    assert!(view.exit_after_update_enabled);
    u.select_exit_after_update();
    assert!(!update_tray(&proxy, &u).exit_after_update_enabled);
    u.finish_download(vec![]);
    let view = update_tray(&proxy, &u);
    assert_eq!(view.update_secondary, Some("Not now"));
    assert!(view.restart_enabled);
}

#[test]
fn startup_events_report_ready_slow_or_failed() {
    let live = LiveProxy { pid: 1, port: 8080, hostname: "127.0.0.1".into() };
    let (event, log) = startup_event(Ok(live));
    assert_eq!(event.state, "ready");
    assert_eq!(event.url.as_deref(), Some("http://127.0.0.1:8080/"));
    assert!(log.is_none());
    let (event, log) = startup_event(Err(StartError::Slow));
    assert_eq!((event.state, event.url, log), ("slow", None, None));
    let (event, log) = startup_event(Err(StartError::Failed("no bun".into())));
    assert_eq!((event.state, event.url), ("failed", None));
    assert_eq!(log.as_deref(), Some("no bun"));
    let (event, _) = startup_event(Err(StartError::Failed("startup is still in progress".into())));
    assert_eq!(event.state, "slow");
}

#[test]
fn a_broken_download_is_reported() {
    let mut u = DesktopUpdater::default();
    u.begin_download();
    u.record_download_progress(5, Some(10));
    u.select_exit_after_update();
    u.download_failed();
    assert_eq!(u.phase, UpdatePhase::DownloadFailed);
    assert!(!u.exit_after_update);
    assert_eq!(u.download_percent, None);
    assert_eq!(u.downloaded_bytes, 5);
}
