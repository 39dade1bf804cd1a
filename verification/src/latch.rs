//! When the hidden main window is revealed.
//!
//! The main window is built hidden and without a title bar (the site draws its
//! own). It is revealed once its page has loaded, a short moment later so that
//! the first paint has happened, or, if no page has loaded when the safety
//! timeout runs out, with the system title bar switched on so that the window
//! can still be closed. Both paths may fire; only the first reveal does work.
use vstd::prelude::*;
use crate::text::{seq_ends_with, str_ends_with, str_equals};

verus! {

/// How long the shell waits for the first page load before revealing anyway.
pub const REVEAL_TIMEOUT_MS: u64 = 20_000;

/// The pause between a finished page load and the reveal, for the first paint.
pub const PAINT_GRACE_MS: u64 = 250;

/// The site's own domain; its pages draw the window's title bar.
pub const SITE_DOMAIN: &'static str = "winvestour.com";

/// The suffix of every subdomain of the site.
pub const SITE_SUBDOMAIN_SUFFIX: &'static str = ".winvestour.com";

/// One thing to do to the shell's windows.
#[derive(PartialEq, Eq, Structural, Clone, Copy, Debug)]
pub enum WindowAction {
    /// Switch on the system title bar and borders of the main window.
    EnableMainDecorations,
    ShowMain,
    FocusMain,
    UnminimizeMain,
    /// Run the script that hides the site's preloader in the main window.
    HidePreloader,
    CloseSplash,
}

/// The stage a page load of the main window has reached.
#[derive(PartialEq, Eq, Structural, Clone, Copy, Debug)]
pub enum PageLoadPhase {
    Started,
    Finished,
}

/// A reveal to carry out after `delay_ms` milliseconds.
#[derive(PartialEq, Eq, Structural, Clone, Copy, Debug)]
pub struct RevealRequest {
    pub needs_os_titlebar: bool,
    pub delay_ms: u64,
}

/// The arguments of one reveal: whether the system title bar is needed, and
/// which of the two windows still exist.
#[derive(PartialEq, Eq, Structural, Clone, Copy, Debug)]
pub struct RevealCall {
    pub needs_os_titlebar: bool,
    pub main_exists: bool,
    pub splash_exists: bool,
}

/// Whether the main window has been revealed; it never goes back.
pub struct RevealLatch {
    revealed: bool,
}

impl View for RevealLatch {
    type V = bool;

    closed spec fn view(&self) -> bool {
        self.revealed
    }
}

impl RevealLatch {
    /// A latch before any reveal.
    pub fn new() -> (latch: Self)
        ensures
            !latch@,
    {
        RevealLatch { revealed: false }
    }

    /// Whether a reveal has happened.
    pub fn is_revealed(&self) -> (r: bool)
        ensures
            r == self@,
    {
        self.revealed
    }
}

/// What a reveal does: nothing if one has happened; else, if the main window
/// exists, its title bar when needed, then show, focus and hide the preloader;
/// then, if the splash window exists, close it.
pub open spec fn reveal_actions(revealed: bool, call: RevealCall) -> Seq<WindowAction> {
    if revealed {
        Seq::empty()
    } else {
        let titlebar = if call.needs_os_titlebar {
            seq![WindowAction::EnableMainDecorations]
        } else {
            Seq::empty()
        };
        let main = if call.main_exists {
            titlebar + seq![WindowAction::ShowMain, WindowAction::FocusMain, WindowAction::HidePreloader]
        } else {
            Seq::empty()
        };
        let splash = if call.splash_exists {
            seq![WindowAction::CloseSplash]
        } else {
            Seq::empty()
        };
        main + splash
    }
}

/// Whether a loaded page's host is the site itself, so that the page draws
/// the title bar.
pub open spec fn is_own_host_of(host: Option<Seq<char>>) -> bool {
    match host {
        Some(h) => h == SITE_DOMAIN@ || seq_ends_with(h, SITE_SUBDOMAIN_SUFFIX@),
        None => false,
    }
}

/// What a page-load event of the main window asks for: nothing unless the load
/// finished before any reveal; else a reveal after the paint pause, with the
/// system title bar when the page is not the site's (an error page, say).
pub open spec fn page_load_decision(revealed: bool, phase: PageLoadPhase, host: Option<Seq<char>>) -> Option<RevealRequest> {
    if phase != PageLoadPhase::Finished || revealed {
        None
    } else {
        Some(RevealRequest { needs_os_titlebar: !is_own_host_of(host), delay_ms: PAINT_GRACE_MS })
    }
}

/// What the safety timeout asks for: nothing after a reveal; else a reveal at
/// once, with the system title bar.
pub open spec fn timeout_decision(revealed: bool) -> Option<RevealRequest> {
    if revealed {
        None
    } else {
        Some(RevealRequest { needs_os_titlebar: true, delay_ms: 0 })
    }
}

/// What a second launch of the app does: bring the existing main window back.
pub open spec fn second_instance_actions_of(main_exists: bool) -> Seq<WindowAction> {
    if main_exists {
        seq![WindowAction::UnminimizeMain, WindowAction::FocusMain]
    } else {
        Seq::empty()
    }
}

/// Reveals the main window and closes the splash window; only the first call
/// on a latch does anything, and after any call the latch is revealed.
pub fn reveal_main(latch: &mut RevealLatch, needs_os_titlebar: bool, main_exists: bool, splash_exists: bool) -> (actions: Vec<WindowAction>)
    ensures
        final(latch)@,
        actions@ == reveal_actions(
            old(latch)@,
            RevealCall { needs_os_titlebar, main_exists, splash_exists },
        ),
{
    let already = latch.revealed;
    latch.revealed = true;
    let mut actions: Vec<WindowAction> = Vec::new();
    if already {
        return actions;
    }
    if main_exists {
        if needs_os_titlebar {
            actions.push(WindowAction::EnableMainDecorations);
        }
        actions.push(WindowAction::ShowMain);
        actions.push(WindowAction::FocusMain);
        actions.push(WindowAction::HidePreloader);
    }
    if splash_exists {
        actions.push(WindowAction::CloseSplash);
    }
    proof {
        let call = RevealCall { needs_os_titlebar, main_exists, splash_exists };
        assert(actions@ =~= reveal_actions(false, call));
    }
    actions
}

/// Whether `host` is the site itself or one of its subdomains.
pub fn is_own_host(host: Option<&str>) -> (r: bool)
    ensures
        r == is_own_host_of(
            match host {
                Some(h) => Some(h@),
                None => None,
            },
        ),
{
    match host {
        Some(h) => str_equals(h, SITE_DOMAIN) || str_ends_with(h, SITE_SUBDOMAIN_SUFFIX),
        None => false,
    }
}

/// Decides what a page-load event of the main window, whose page has the
/// given host, asks for.
pub fn on_page_load(latch: &RevealLatch, phase: PageLoadPhase, host: Option<&str>) -> (r: Option<RevealRequest>)
    ensures
        r == page_load_decision(
            latch@,
            phase,
            match host {
                Some(h) => Some(h@),
                None => None,
            },
        ),
{
    if phase != PageLoadPhase::Finished || latch.is_revealed() {
        return None;
    }
    let own = is_own_host(host);
    Some(RevealRequest { needs_os_titlebar: !own, delay_ms: PAINT_GRACE_MS })
}

/// Decides what the safety timeout asks for when it runs out.
pub fn on_reveal_timeout(latch: &RevealLatch) -> (r: Option<RevealRequest>)
    ensures
        r == timeout_decision(latch@),
{
    if latch.is_revealed() {
        None
    } else {
        Some(RevealRequest { needs_os_titlebar: true, delay_ms: 0 })
    }
}

/// What a second launch of the app does to the existing windows.
pub fn second_instance_actions(main_exists: bool) -> (actions: Vec<WindowAction>)
    ensures
        actions@ == second_instance_actions_of(main_exists),
{
    let mut actions: Vec<WindowAction> = Vec::new();
    if main_exists {
        actions.push(WindowAction::UnminimizeMain);
        actions.push(WindowAction::FocusMain);
    }
    proof {
        assert(actions@ =~= second_instance_actions_of(main_exists));
    }
    actions
}

/// The actions of a run of reveals on one latch, in order: each reveal leaves
/// the latch revealed for the next.
pub open spec fn reveal_run(revealed: bool, calls: Seq<RevealCall>) -> Seq<WindowAction>
    decreases calls.len(),
{
    if calls.len() == 0 {
        Seq::empty()
    } else {
        reveal_actions(revealed, calls[0]) + reveal_run(true, calls.drop_first())
    }
}

/// However often the reveal runs (from the page load and from the timeout,
/// in any order), only the first run on an unrevealed latch does anything.
pub proof fn reveal_works_only_once(revealed: bool, calls: Seq<RevealCall>)
    ensures
        reveal_run(revealed, calls) == (if !revealed && calls.len() > 0 {
            reveal_actions(false, calls[0])
        } else {
            Seq::<WindowAction>::empty()
        }),
    decreases calls.len(),
{
    if calls.len() > 0 {
        reveal_works_only_once(true, calls.drop_first());
        assert(reveal_run(revealed, calls) =~= reveal_actions(revealed, calls[0]));
    }
}

/// Once the main window has been revealed, neither a page load nor the
/// timeout asks for another reveal.
pub proof fn nothing_requested_after_reveal(phase: PageLoadPhase, host: Option<Seq<char>>)
    ensures
        page_load_decision(true, phase, host) is None,
        timeout_decision(true) is None,
{
}

/// A reveal after a finished page load switches the system title bar on
/// exactly when the page is not the site's own, which would draw it.
pub proof fn page_reveal_titlebar_iff_foreign(host: Option<Seq<char>>, splash_exists: bool)
    ensures
        page_load_decision(false, PageLoadPhase::Finished, host) is Some,
        ({
            let request = page_load_decision(false, PageLoadPhase::Finished, host).unwrap();
            let call = RevealCall {
                needs_os_titlebar: request.needs_os_titlebar,
                main_exists: true,
                splash_exists,
            };
            reveal_actions(false, call).contains(WindowAction::EnableMainDecorations)
                <==> !is_own_host_of(host)
        }),
{
    let request = page_load_decision(false, PageLoadPhase::Finished, host).unwrap();
    let call = RevealCall {
        needs_os_titlebar: request.needs_os_titlebar,
        main_exists: true,
        splash_exists,
    };
    let actions = reveal_actions(false, call);
    if is_own_host_of(host) {
        assert forall|i: int| 0 <= i < actions.len() implies actions[i]
            != WindowAction::EnableMainDecorations by {}
    } else {
        assert(actions[0] == WindowAction::EnableMainDecorations);
    }
}

/// A reveal by the timeout always switches the system title bar on, so the
/// window can be closed even if the site never drew its own.
pub proof fn timeout_reveal_has_titlebar(splash_exists: bool)
    ensures
        timeout_decision(false) is Some,
        reveal_actions(
            false,
            RevealCall {
                needs_os_titlebar: timeout_decision(false).unwrap().needs_os_titlebar,
                main_exists: true,
                splash_exists,
            },
        )[0] == WindowAction::EnableMainDecorations,
{
}

/// The first reveal on a latch closes the splash window exactly when it
/// exists, whether or not the title bar is needed; it shows, focuses and
/// clears the preloader of the main window exactly when that window exists,
/// in that order, after switching its title bar on exactly when asked; and it
/// does nothing else.
pub proof fn first_reveal_does_each_step(call: RevealCall)
    ensures
        ({
            let actions = reveal_actions(false, call);
            let titlebar: int = if call.main_exists && call.needs_os_titlebar { 1 } else { 0 };
            let main: int = if call.main_exists { 3 } else { 0 };
            let splash: int = if call.splash_exists { 1 } else { 0 };
            &&& actions.contains(WindowAction::CloseSplash) <==> call.splash_exists
            &&& actions.contains(WindowAction::ShowMain) <==> call.main_exists
            &&& actions.contains(WindowAction::FocusMain) <==> call.main_exists
            &&& actions.contains(WindowAction::HidePreloader) <==> call.main_exists
            &&& actions.contains(WindowAction::EnableMainDecorations) <==> (call.main_exists
                && call.needs_os_titlebar)
            &&& !actions.contains(WindowAction::UnminimizeMain)
            &&& actions.len() == titlebar + main + splash
            &&& titlebar == 1 ==> actions[0] == WindowAction::EnableMainDecorations
            &&& call.main_exists ==> {
                &&& actions[titlebar] == WindowAction::ShowMain
                &&& actions[titlebar + 1] == WindowAction::FocusMain
                &&& actions[titlebar + 2] == WindowAction::HidePreloader
            }
            &&& call.splash_exists ==> actions[actions.len() - 1] == WindowAction::CloseSplash
        }),
{
    let actions = reveal_actions(false, call);
    if call.main_exists {
        if call.needs_os_titlebar {
            if call.splash_exists {
                assert(actions =~= seq![WindowAction::EnableMainDecorations, WindowAction::ShowMain, WindowAction::FocusMain, WindowAction::HidePreloader, WindowAction::CloseSplash]);
            } else {
                assert(actions =~= seq![WindowAction::EnableMainDecorations, WindowAction::ShowMain, WindowAction::FocusMain, WindowAction::HidePreloader]);
            }
        } else {
            if call.splash_exists {
                assert(actions =~= seq![WindowAction::ShowMain, WindowAction::FocusMain, WindowAction::HidePreloader, WindowAction::CloseSplash]);
            } else {
                assert(actions =~= seq![WindowAction::ShowMain, WindowAction::FocusMain, WindowAction::HidePreloader]);
            }
        }
    } else {
        if call.splash_exists {
            assert(actions =~= seq![WindowAction::CloseSplash]);
        } else {
            assert(actions =~= Seq::<WindowAction>::empty());
        }
    }
    assert(actions.contains(WindowAction::CloseSplash) <==> call.splash_exists);
    assert(actions.contains(WindowAction::ShowMain) <==> call.main_exists);
    assert(actions.contains(WindowAction::FocusMain) <==> call.main_exists);
    assert(actions.contains(WindowAction::HidePreloader) <==> call.main_exists);
    assert(actions.contains(WindowAction::EnableMainDecorations) <==> (call.main_exists
        && call.needs_os_titlebar));
    assert(!actions.contains(WindowAction::UnminimizeMain));
}

/// A page load that has only started never asks for a reveal; a finished one
/// before any reveal always does, after the paint pause, and asks for the
/// system title bar exactly when the page's host is not the site's.
pub proof fn page_load_requests(revealed: bool, host: Option<Seq<char>>)
    ensures
        page_load_decision(revealed, PageLoadPhase::Started, host) is None,
        page_load_decision(false, PageLoadPhase::Finished, host) == Some(
            RevealRequest { needs_os_titlebar: !is_own_host_of(host), delay_ms: PAINT_GRACE_MS },
        ),
{
}

/// The site's hosts all end with its domain; any subdomain of it counts, as
/// does the domain itself; no host at all does not.
pub proof fn own_hosts_are_the_site(h: Seq<char>)
    ensures
        is_own_host_of(Some(h)) ==> seq_ends_with(h, SITE_DOMAIN@),
        seq_ends_with(h, SITE_SUBDOMAIN_SUFFIX@) ==> is_own_host_of(Some(h)),
        is_own_host_of(Some(SITE_DOMAIN@)),
        !is_own_host_of(None),
{
    reveal_strlit("winvestour.com");
    reveal_strlit(".winvestour.com");
    let d = SITE_DOMAIN@;
    let s = SITE_SUBDOMAIN_SUFFIX@;
    assert(s.subrange(1, 15) =~= d);
    if h == d {
        assert(h.subrange(0, 14) =~= d);
    } else if seq_ends_with(h, s) {
        let start = h.len() - 15;
        assert(h.subrange(start, h.len() as int) =~= s);
        assert(h.subrange(start + 1, h.len() as int) =~= s.subrange(1, 15));
    }
}

/// A second launch only brings back the existing main window: it unminimises
/// and focuses it exactly when it exists, and does nothing else.
pub proof fn second_launch_only_refocuses(main_exists: bool)
    ensures
        second_instance_actions_of(main_exists).contains(WindowAction::UnminimizeMain) <==> main_exists,
        second_instance_actions_of(main_exists).contains(WindowAction::FocusMain) <==> main_exists,
        second_instance_actions_of(main_exists).len() == if main_exists { 2int } else { 0int },
{
    let actions = second_instance_actions_of(main_exists);
    if main_exists {
        assert(actions[0] == WindowAction::UnminimizeMain);
        assert(actions[1] == WindowAction::FocusMain);
    }
}

} // verus!
