use winvestour_desktop::latch::{
    is_own_host, on_page_load, on_reveal_timeout, reveal_main, second_instance_actions,
    PageLoadPhase, RevealLatch, RevealRequest, WindowAction, PAINT_GRACE_MS,
};

#[test]
fn first_reveal_shows_and_closes_splash() {
    let mut latch = RevealLatch::new();
    assert!(!latch.is_revealed());
    let actions = reveal_main(&mut latch, false, true, true);
    assert_eq!(
        actions,
        vec![
            WindowAction::ShowMain,
            WindowAction::FocusMain,
            WindowAction::HidePreloader,
            WindowAction::CloseSplash
        ]
    );
    assert!(latch.is_revealed());
}

#[test]
fn reveal_with_titlebar_decorates_first() {
    let mut latch = RevealLatch::new();
    let actions = reveal_main(&mut latch, true, true, false);
    assert_eq!(
        actions,
        vec![
            WindowAction::EnableMainDecorations,
            WindowAction::ShowMain,
            WindowAction::FocusMain,
            WindowAction::HidePreloader
        ]
    );
}

#[test]
fn reveal_without_windows_does_nothing_visible() {
    let mut latch = RevealLatch::new();
    assert!(reveal_main(&mut latch, true, false, false).is_empty());
    assert!(latch.is_revealed());
}

#[test]
fn only_first_reveal_does_work() {
    let mut latch = RevealLatch::new();
    assert!(!reveal_main(&mut latch, false, true, true).is_empty());
    assert!(reveal_main(&mut latch, true, true, true).is_empty());
    assert!(reveal_main(&mut latch, false, true, true).is_empty());
}

#[test]
fn own_hosts() {
    assert!(is_own_host(Some("winvestour.com")));
    assert!(is_own_host(Some("www.winvestour.com")));
    assert!(!is_own_host(Some("evilwinvestour.com")));
    assert!(!is_own_host(Some("localhost")));
    assert!(!is_own_host(None));
}

#[test]
fn page_load_decisions() {
    let latch = RevealLatch::new();
    assert_eq!(on_page_load(&latch, PageLoadPhase::Started, Some("www.winvestour.com")), None);
    assert_eq!(
        on_page_load(&latch, PageLoadPhase::Finished, Some("www.winvestour.com")),
        Some(RevealRequest { needs_os_titlebar: false, delay_ms: PAINT_GRACE_MS })
    );
    assert_eq!(
        on_page_load(&latch, PageLoadPhase::Finished, None),
        Some(RevealRequest { needs_os_titlebar: true, delay_ms: 250 })
    );
}

#[test]
fn page_loads_after_reveal_are_ignored() {
    let mut latch = RevealLatch::new();
    reveal_main(&mut latch, false, true, true);
    assert_eq!(on_page_load(&latch, PageLoadPhase::Finished, Some("winvestour.com")), None);
    assert_eq!(on_reveal_timeout(&latch), None);
}

#[test]
fn timeout_reveals_with_titlebar() {
    let latch = RevealLatch::new();
    assert_eq!(
        on_reveal_timeout(&latch),
        Some(RevealRequest { needs_os_titlebar: true, delay_ms: 0 })
    );
}

#[test]
fn second_instance_brings_main_back() {
    assert_eq!(
        second_instance_actions(true),
        vec![WindowAction::UnminimizeMain, WindowAction::FocusMain]
    );
    assert!(second_instance_actions(false).is_empty());
}
