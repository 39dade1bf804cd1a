//! What the shell opens at start-up: the main window on the live web app and
//! a local splash window shown while the main window loads hidden.
use vstd::prelude::*;
use crate::brand::{brand_for, color_of, key_for, key_name, key_names_distinct, AppKey, Brand, Color};
use crate::text::{seq_contains, seq_ends_with, occurs_at};

verus! {

/// The label of the main window, which shows the live web app.
pub const MAIN_WINDOW: &'static str = "main";

/// The label of the splash window, which shows the bundled splash page.
pub const SPLASH_WINDOW: &'static str = "splashscreen";

/// The title used when the build configuration names no product.
pub const DEFAULT_TITLE: &'static str = "Winvestour";

/// The browser part of the user agent the main window sends.
pub const BROWSER_AGENT: &'static str = "Mozilla/5.0 (Windows NT 10.0; Win64; x64) AppleWebKit/537.36 (KHTML, like Gecko) Chrome/126.0.0.0 Safari/537.36 ";

/// The marker that tells the site it runs inside the desktop shell.
pub const DESKTOP_MARKER: &'static str = "WinvestourDesktop/1.0";

/// The script that hides the site's preloader once the page is visible.
///
/// It is installed at document start in every page of the main window and run
/// once more when the window is revealed. It only adds a class (the site's
/// stylesheet does the hiding) and never removes the node, which belongs to the
/// page's server-rendered tree.
pub const PRELOADER_KILL_JS: &'static str = "(function(){var k=function(){try{var e=document.getElementById('wv-preloader');if(e)e.classList.add('wv-preloader-out');}catch(_){}};var a=function(){k();setTimeout(k,60);setTimeout(k,600);};if(!window.__wvKill){window.__wvKill=1;document.addEventListener('readystatechange',a);document.addEventListener('DOMContentLoaded',a);window.addEventListener('pageshow',a);document.addEventListener('visibilitychange',function(){if(document.visibilityState==='visible')a();});setTimeout(a,3000);}a();})()";

/// The width and height of a window, in logical pixels.
#[derive(PartialEq, Eq, Structural, Clone, Copy, Debug)]
pub struct WindowSize {
    pub width: u32,
    pub height: u32,
}

/// How the main window is built.
pub struct MainWindowPlan {
    pub url: String,
    pub title: String,
    pub size: WindowSize,
    pub min_size: WindowSize,
    pub user_agent: String,
    pub background: Color,
    /// The site draws its own title bar, so the window starts without one.
    pub decorated: bool,
    /// The window stays hidden until its page has loaded.
    pub visible: bool,
    pub centered: bool,
    /// The native file-drop handler, which would swallow HTML5 drag and drop.
    pub drag_drop_handler: bool,
}

/// How the splash window is built.
pub struct SplashWindowPlan {
    pub url: String,
    pub title: String,
    pub size: WindowSize,
    pub resizable: bool,
    pub decorated: bool,
    pub centered: bool,
    pub always_on_top: bool,
    pub skip_taskbar: bool,
    pub shadow: bool,
    pub background: Color,
}

/// Everything the shell builds at start-up.
pub struct LaunchPlan {
    pub brand: Brand,
    pub main: MainWindowPlan,
    pub splash: SplashWindowPlan,
}

/// The address the main window opens: staff open the admin panel, the hub
/// opens the whole site, every other product opens the site with its `app` key.
pub open spec fn start_url_of(key: AppKey) -> Seq<char> {
    match key {
        AppKey::Staff => "https://www.winvestour.com/admin"@,
        AppKey::Hub => "https://www.winvestour.com/"@,
        _ => "https://www.winvestour.com/?app="@ + key_name(key),
    }
}

/// The product tag of the user agent; the hub sends none.
pub open spec fn app_tag_of(key: AppKey) -> Seq<char> {
    if key == AppKey::Hub {
        Seq::empty()
    } else {
        "WinvestourApp/"@ + key_name(key) + " "@
    }
}

/// The user agent of the main window.
pub open spec fn user_agent_of(key: AppKey) -> Seq<char> {
    BROWSER_AGENT@ + app_tag_of(key) + DESKTOP_MARKER@
}

/// The bundled splash page, told which product to show.
pub open spec fn splash_url_of(key: AppKey) -> Seq<char> {
    "index.html?app="@ + key_name(key)
}

/// The main window's title: the configured product name, else the default.
pub open spec fn title_of(product_name: Option<Seq<char>>) -> Seq<char> {
    match product_name {
        Some(name) => name,
        None => DEFAULT_TITLE@,
    }
}

/// The main window's size: the staff panel is wider for its admin tables.
pub open spec fn main_size_of(key: AppKey) -> WindowSize {
    if key == AppKey::Staff {
        WindowSize { width: 1360, height: 860 }
    } else {
        WindowSize { width: 1280, height: 820 }
    }
}

/// The smallest size the main window can be shrunk to.
pub open spec fn main_min_size_of(key: AppKey) -> WindowSize {
    if key == AppKey::Staff {
        WindowSize { width: 960, height: 640 }
    } else {
        WindowSize { width: 900, height: 600 }
    }
}

/// The size of the splash window.
pub open spec fn splash_size() -> WindowSize {
    WindowSize { width: 280, height: 320 }
}

/// The address the main window opens for this product.
pub fn start_url(key: AppKey) -> (url: String)
    ensures
        url@ == start_url_of(key),
{
    match key {
        AppKey::Staff => String::from_str("https://www.winvestour.com/admin"),
        AppKey::Hub => String::from_str("https://www.winvestour.com/"),
        _ => {
            let mut url = String::from_str("https://www.winvestour.com/?app=");
            url.append(key.as_str());
            url
        },
    }
}

/// The user agent the main window sends for this product.
pub fn user_agent(key: AppKey) -> (agent: String)
    ensures
        agent@ == user_agent_of(key),
{
    let mut agent = String::from_str(BROWSER_AGENT);
    if key != AppKey::Hub {
        agent.append("WinvestourApp/");
        agent.append(key.as_str());
        agent.append(" ");
    }
    agent.append(DESKTOP_MARKER);
    proof {
        if key == AppKey::Hub {
            assert(BROWSER_AGENT@ + app_tag_of(key) =~= BROWSER_AGENT@);
        } else {
            assert(BROWSER_AGENT@ + app_tag_of(key) =~= BROWSER_AGENT@ + "WinvestourApp/"@
                + key_name(key) + " "@);
        }
    }
    agent
}

/// The splash page address for this product.
pub fn splash_url(key: AppKey) -> (url: String)
    ensures
        url@ == splash_url_of(key),
{
    let mut url = String::from_str("index.html?app=");
    url.append(key.as_str());
    url
}

/// The main window's title for the configured product name.
pub fn window_title(product_name: Option<String>) -> (title: String)
    ensures
        title@ == title_of(
            match product_name {
                Some(name) => Some(name@),
                None => None,
            },
        ),
{
    match product_name {
        Some(name) => name,
        None => String::from_str(DEFAULT_TITLE),
    }
}

/// The main window's size and smallest size for this product.
pub fn main_window_sizes(key: AppKey) -> (sizes: (WindowSize, WindowSize))
    ensures
        sizes.0 == main_size_of(key),
        sizes.1 == main_min_size_of(key),
{
    if key == AppKey::Staff {
        (WindowSize { width: 1360, height: 860 }, WindowSize { width: 960, height: 640 })
    } else {
        (WindowSize { width: 1280, height: 820 }, WindowSize { width: 900, height: 600 })
    }
}

/// The windows the build with this identifier and configured product name opens.
pub fn launch_plan(identifier: &str, product_name: Option<String>) -> (plan: LaunchPlan)
    ensures
        plan.brand.key == key_for(identifier@),
        plan.brand.color == color_of(plan.brand.key),
        plan.main.url@ == start_url_of(plan.brand.key),
        plan.main.title@ == title_of(
            match product_name {
                Some(name) => Some(name@),
                None => None,
            },
        ),
        plan.main.size == main_size_of(plan.brand.key),
        plan.main.min_size == main_min_size_of(plan.brand.key),
        plan.main.user_agent@ == user_agent_of(plan.brand.key),
        plan.main.background == plan.brand.color,
        !plan.main.decorated,
        !plan.main.visible,
        plan.main.centered,
        !plan.main.drag_drop_handler,
        plan.splash.url@ == splash_url_of(plan.brand.key),
        plan.splash.title@ == DEFAULT_TITLE@,
        plan.splash.size == splash_size(),
        !plan.splash.resizable,
        !plan.splash.decorated,
        plan.splash.centered,
        plan.splash.always_on_top,
        plan.splash.skip_taskbar,
        !plan.splash.shadow,
        plan.splash.background == plan.brand.color,
{
    let brand = brand_for(identifier);
    let key = brand.key;
    let (size, min_size) = main_window_sizes(key);
    let main = MainWindowPlan {
        url: start_url(key),
        title: window_title(product_name),
        size,
        min_size,
        user_agent: user_agent(key),
        background: brand.color,
        decorated: false,
        visible: false,
        centered: true,
        drag_drop_handler: false,
    };
    let splash = SplashWindowPlan {
        url: splash_url(key),
        title: String::from_str(DEFAULT_TITLE),
        size: WindowSize { width: 280, height: 320 },
        resizable: false,
        decorated: false,
        centered: true,
        always_on_top: true,
        skip_taskbar: true,
        shadow: false,
        background: brand.color,
    };
    LaunchPlan { brand, main, splash }
}

/// Every user agent ends with the desktop marker, which the site's
/// desktop-only features look for whatever the product.
pub proof fn user_agent_ends_with_desktop_marker(key: AppKey)
    ensures
        seq_ends_with(user_agent_of(key), DESKTOP_MARKER@),
{
    let front = BROWSER_AGENT@ + app_tag_of(key);
    let agent = user_agent_of(key);
    assert(agent =~= front + DESKTOP_MARKER@);
    assert(agent.subrange(front.len() as int, agent.len() as int) =~= DESKTOP_MARKER@);
}

/// Two texts that start with the same text and end with product names are
/// equal only for the same product.
proof fn prefixed_names_distinct(front: Seq<char>, back: Seq<char>, a: AppKey, b: AppKey)
    ensures
        front + key_name(a) + back == front + key_name(b) + back ==> a == b,
{
    if front + key_name(a) + back == front + key_name(b) + back {
        let whole = front + key_name(a) + back;
        assert(whole.len() == (front + key_name(b) + back).len());
        assert(key_name(a).len() == key_name(b).len());
        assert(whole.subrange(front.len() as int, (front.len() + key_name(a).len()) as int) =~= key_name(a));
        assert((front + key_name(b) + back).subrange(front.len() as int, (front.len() + key_name(b).len()) as int)
            =~= key_name(b));
        key_names_distinct(a, b);
    }
}

/// Every product other than the staff panel and the hub opens the site with
/// its own `app` key; the hub alone opens the bare site; the staff panel alone
/// opens the admin page; and no two products open the same address.
pub proof fn start_url_names_the_product(a: AppKey, b: AppKey)
    ensures
        a != AppKey::Staff && a != AppKey::Hub ==> start_url_of(a)
            == "https://www.winvestour.com/?app="@ + key_name(a),
        a != AppKey::Staff && a != AppKey::Hub ==> seq_ends_with(start_url_of(a), key_name(a)),
        (start_url_of(a) == "https://www.winvestour.com/"@) <==> (a == AppKey::Hub),
        (start_url_of(a) == "https://www.winvestour.com/admin"@) <==> (a == AppKey::Staff),
        start_url_of(a) == start_url_of(b) ==> a == b,
{
    reveal_strlit("https://www.winvestour.com/?app=");
    reveal_strlit("https://www.winvestour.com/");
    reveal_strlit("https://www.winvestour.com/admin");
    reveal_strlit("commerce");
    reveal_strlit("influencer");
    reveal_strlit("reseller");
    reveal_strlit("staff");
    reveal_strlit("hub");
    reveal_strlit("social");
    let query = "https://www.winvestour.com/?app="@;
    if a != AppKey::Staff && a != AppKey::Hub {
        let url = start_url_of(a);
        assert(url.subrange(query.len() as int, url.len() as int) =~= key_name(a));
    }
    prefixed_names_distinct(query, Seq::empty(), a, b);
    assert(query + key_name(a) + Seq::<char>::empty() =~= query + key_name(a));
    assert(query + key_name(b) + Seq::<char>::empty() =~= query + key_name(b));
    if start_url_of(a) == start_url_of(b) {
        assert(start_url_of(a).len() == start_url_of(b).len());
    }
}

/// Every product but the hub tags the user agent with its own name, between
/// the browser part and the desktop marker; the hub sends the browser part and
/// the marker alone; and no two products send the same user agent.
pub proof fn user_agent_tags_the_product(a: AppKey, b: AppKey)
    ensures
        a != AppKey::Hub ==> user_agent_of(a) == BROWSER_AGENT@ + "WinvestourApp/"@
            + key_name(a) + " "@ + DESKTOP_MARKER@,
        a != AppKey::Hub ==> seq_contains(user_agent_of(a), "WinvestourApp/"@ + key_name(a) + " "@),
        user_agent_of(AppKey::Hub) == BROWSER_AGENT@ + DESKTOP_MARKER@,
        user_agent_of(a) == user_agent_of(b) ==> a == b,
{
    reveal_strlit("WinvestourApp/");
    reveal_strlit(" ");
    reveal_strlit("commerce");
    reveal_strlit("influencer");
    reveal_strlit("reseller");
    reveal_strlit("staff");
    reveal_strlit("hub");
    reveal_strlit("social");
    let front = BROWSER_AGENT@ + "WinvestourApp/"@;
    let back = " "@ + DESKTOP_MARKER@;
    assert(user_agent_of(AppKey::Hub) =~= BROWSER_AGENT@ + DESKTOP_MARKER@);
    if a != AppKey::Hub {
        let agent = user_agent_of(a);
        let tag = "WinvestourApp/"@ + key_name(a) + " "@;
        assert(agent =~= BROWSER_AGENT@ + tag + DESKTOP_MARKER@);
        assert(agent.subrange(BROWSER_AGENT@.len() as int, (BROWSER_AGENT@.len() + tag.len()) as int) =~= tag);
        assert(occurs_at(agent, tag, BROWSER_AGENT@.len() as int));
        assert(agent =~= front + key_name(a) + back);
    }
    if b != AppKey::Hub {
        assert(user_agent_of(b) =~= front + key_name(b) + back);
    }
    prefixed_names_distinct(front, back, a, b);
    if user_agent_of(a) == user_agent_of(b) {
        assert(user_agent_of(a).len() == user_agent_of(b).len());
    }
}

/// Every product's splash page is told that product's own name, so no two
/// products show the same splash.
pub proof fn splash_url_names_the_product(a: AppKey, b: AppKey)
    ensures
        splash_url_of(a) == "index.html?app="@ + key_name(a),
        seq_ends_with(splash_url_of(a), key_name(a)),
        splash_url_of(a) == splash_url_of(b) ==> a == b,
{
    let front = "index.html?app="@;
    let url = splash_url_of(a);
    assert(url.subrange(front.len() as int, url.len() as int) =~= key_name(a));
    prefixed_names_distinct(front, Seq::empty(), a, b);
    assert(front + key_name(a) + Seq::<char>::empty() =~= url);
    assert(front + key_name(b) + Seq::<char>::empty() =~= splash_url_of(b));
}

/// The main window never opens smaller than its own minimum size; every
/// product but the staff panel gets the same sizes; the staff panel's window
/// and minimum are larger in both directions.
pub proof fn main_window_sizes_are_consistent(key: AppKey)
    ensures
        main_min_size_of(key).width <= main_size_of(key).width,
        main_min_size_of(key).height <= main_size_of(key).height,
        key != AppKey::Staff ==> main_size_of(key) == (WindowSize { width: 1280, height: 820 }),
        key != AppKey::Staff ==> main_min_size_of(key) == (WindowSize { width: 900, height: 600 }),
        key == AppKey::Staff ==> main_size_of(key) == (WindowSize { width: 1360, height: 860 }),
        key == AppKey::Staff ==> main_min_size_of(key) == (WindowSize { width: 960, height: 640 }),
        key != AppKey::Staff ==> main_size_of(key).width < main_size_of(AppKey::Staff).width
            && main_size_of(key).height < main_size_of(AppKey::Staff).height
            && main_min_size_of(key).width < main_min_size_of(AppKey::Staff).width
            && main_min_size_of(key).height < main_min_size_of(AppKey::Staff).height,
{
}

} // verus!
