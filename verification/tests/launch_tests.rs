use winvestour_desktop::brand::{AppKey, Color};
use winvestour_desktop::launch::{
    launch_plan, main_window_sizes, splash_url, start_url, user_agent, window_title, WindowSize,
};
use winvestour_desktop::window_state::window_state_policy;

const BROWSER: &str = "Mozilla/5.0 (Windows NT 10.0; Win64; x64) AppleWebKit/537.36 (KHTML, like Gecko) Chrome/126.0.0.0 Safari/537.36 ";

#[test]
fn start_urls() {
    assert_eq!(start_url(AppKey::Staff), "https://www.winvestour.com/admin");
    assert_eq!(start_url(AppKey::Hub), "https://www.winvestour.com/");
    assert_eq!(start_url(AppKey::Commerce), "https://www.winvestour.com/?app=commerce");
    assert_eq!(start_url(AppKey::Social), "https://www.winvestour.com/?app=social");
}

#[test]
fn user_agents() {
    assert_eq!(
        user_agent(AppKey::Reseller),
        format!("{}WinvestourApp/reseller WinvestourDesktop/1.0", BROWSER)
    );
    assert_eq!(user_agent(AppKey::Hub), format!("{}WinvestourDesktop/1.0", BROWSER));
    assert!(!user_agent(AppKey::Hub).contains("WinvestourApp/"));
}

#[test]
fn user_agent_always_has_desktop_marker() {
    for key in [
        AppKey::Commerce,
        AppKey::Influencer,
        AppKey::Reseller,
        AppKey::Staff,
        AppKey::Hub,
        AppKey::Social,
    ] {
        assert!(user_agent(key).ends_with("WinvestourDesktop/1.0"));
    }
}

#[test]
fn splash_urls() {
    assert_eq!(splash_url(AppKey::Influencer), "index.html?app=influencer");
    assert_eq!(splash_url(AppKey::Hub), "index.html?app=hub");
}

#[test]
fn titles() {
    assert_eq!(window_title(Some("Wommerce".to_string())), "Wommerce");
    assert_eq!(window_title(None), "Winvestour");
}

#[test]
fn window_sizes() {
    assert_eq!(
        main_window_sizes(AppKey::Staff),
        (WindowSize { width: 1360, height: 860 }, WindowSize { width: 960, height: 640 })
    );
    assert_eq!(
        main_window_sizes(AppKey::Social),
        (WindowSize { width: 1280, height: 820 }, WindowSize { width: 900, height: 600 })
    );
}

#[test]
fn plan_for_staff_build() {
    let plan = launch_plan("com.winvestour.staff", Some("Winvestour Staff".to_string()));
    assert_eq!(plan.brand.key, AppKey::Staff);
    assert_eq!(plan.main.url, "https://www.winvestour.com/admin");
    assert_eq!(plan.main.title, "Winvestour Staff");
    assert_eq!(plan.main.size, WindowSize { width: 1360, height: 860 });
    assert_eq!(plan.main.min_size, WindowSize { width: 960, height: 640 });
    assert_eq!(plan.main.background, Color(0x0B, 0x1F, 0x3A, 255));
    assert!(!plan.main.decorated);
    assert!(!plan.main.visible);
    assert!(plan.main.centered);
    assert!(!plan.main.drag_drop_handler);
    assert_eq!(plan.splash.url, "index.html?app=staff");
    assert_eq!(plan.splash.title, "Winvestour");
    assert_eq!(plan.splash.size, WindowSize { width: 280, height: 320 });
    assert!(!plan.splash.resizable);
    assert!(!plan.splash.decorated);
    assert!(plan.splash.always_on_top);
    assert!(plan.splash.skip_taskbar);
    assert!(!plan.splash.shadow);
    assert_eq!(plan.splash.background, plan.main.background);
}

#[test]
fn plan_for_hub_build() {
    let plan = launch_plan("com.winvestour.hub", None);
    assert_eq!(plan.brand.key, AppKey::Hub);
    assert_eq!(plan.main.url, "https://www.winvestour.com/");
    assert_eq!(plan.main.title, "Winvestour");
    assert_eq!(plan.main.user_agent, format!("{}WinvestourDesktop/1.0", BROWSER));
    assert_eq!(plan.main.background, Color(0x00, 0x46, 0x8C, 255));
}

#[test]
fn window_state_keeps_geometry_only() {
    let policy = window_state_policy();
    assert!(policy.remembered.size);
    assert!(policy.remembered.position);
    assert!(policy.remembered.maximized);
    assert!(policy.remembered.fullscreen);
    assert!(!policy.remembered.visible);
    assert!(!policy.remembered.decorations);
    assert_eq!(policy.excluded_window, "splashscreen");
}
