use winvestour_desktop::brand::{brand_for, AppKey, Color};

#[test]
fn identifier_selects_product() {
    assert_eq!(brand_for("com.winvestour.commerce").key, AppKey::Commerce);
    assert_eq!(brand_for("com.winvestour.influencer").key, AppKey::Influencer);
    assert_eq!(brand_for("com.winvestour.reseller").key, AppKey::Reseller);
    assert_eq!(brand_for("com.winvestour.staff").key, AppKey::Staff);
    assert_eq!(brand_for("com.winvestour.hub").key, AppKey::Hub);
    assert_eq!(brand_for("com.winvestour.social").key, AppKey::Social);
    assert_eq!(brand_for("").key, AppKey::Social);
}

#[test]
fn earlier_keyword_wins() {
    assert_eq!(brand_for("staff.commerce").key, AppKey::Commerce);
    assert_eq!(brand_for("hub.reseller").key, AppKey::Reseller);
    assert_eq!(brand_for("hub.staff").key, AppKey::Staff);
}

#[test]
fn brand_colors_match_products() {
    assert_eq!(brand_for("x.commerce").color, Color(0x00, 0x72, 0xCE, 255));
    assert_eq!(brand_for("x.influencer").color, Color(0xE1, 0x1D, 0x48, 255));
    assert_eq!(brand_for("x.reseller").color, Color(0x05, 0x96, 0x69, 255));
    assert_eq!(brand_for("x.staff").color, Color(0x0B, 0x1F, 0x3A, 255));
    assert_eq!(brand_for("x.hub").color, Color(0x00, 0x46, 0x8C, 255));
    assert_eq!(brand_for("x.other").color, Color(0x7C, 0x3A, 0xED, 255));
}

#[test]
fn key_names() {
    assert_eq!(AppKey::Commerce.as_str(), "commerce");
    assert_eq!(AppKey::Influencer.as_str(), "influencer");
    assert_eq!(AppKey::Reseller.as_str(), "reseller");
    assert_eq!(AppKey::Staff.as_str(), "staff");
    assert_eq!(AppKey::Hub.as_str(), "hub");
    assert_eq!(AppKey::Social.as_str(), "social");
}
