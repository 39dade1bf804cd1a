//! Which product a build of the shell belongs to, and its brand colour.
//!
//! Each product is built separately with its own application identifier, so
//! the identifier alone decides the product.
use vstd::prelude::*;
use crate::text::{seq_contains, str_contains};

verus! {

/// The product a build belongs to; its name is the `app` key the web app knows.
#[derive(PartialEq, Eq, Structural, Clone, Copy, Debug)]
pub enum AppKey {
    Commerce,
    Influencer,
    Reseller,
    Staff,
    Hub,
    Social,
}

/// An RGBA colour, one byte per channel.
#[derive(PartialEq, Eq, Structural, Clone, Copy, Debug)]
pub struct Color(pub u8, pub u8, pub u8, pub u8);

/// A product together with the colour its windows show before the page paints.
#[derive(PartialEq, Eq, Structural, Clone, Copy, Debug)]
pub struct Brand {
    pub key: AppKey,
    pub color: Color,
}

/// The name of a product key, as the web app reads it.
pub open spec fn key_name(key: AppKey) -> Seq<char> {
    match key {
        AppKey::Commerce => "commerce"@,
        AppKey::Influencer => "influencer"@,
        AppKey::Reseller => "reseller"@,
        AppKey::Staff => "staff"@,
        AppKey::Hub => "hub"@,
        AppKey::Social => "social"@,
    }
}

/// The product of an application identifier: the first of `commerce`,
/// `influencer`, `reseller`, `staff` and `hub` that occurs in it, else `social`.
pub open spec fn key_for(identifier: Seq<char>) -> AppKey {
    if seq_contains(identifier, "commerce"@) {
        AppKey::Commerce
    } else if seq_contains(identifier, "influencer"@) {
        AppKey::Influencer
    } else if seq_contains(identifier, "reseller"@) {
        AppKey::Reseller
    } else if seq_contains(identifier, "staff"@) {
        AppKey::Staff
    } else if seq_contains(identifier, "hub"@) {
        AppKey::Hub
    } else {
        AppKey::Social
    }
}

/// The brand colour of each product, fully opaque.
pub open spec fn color_of(key: AppKey) -> Color {
    match key {
        AppKey::Commerce => Color(0x00, 0x72, 0xCE, 255),
        AppKey::Influencer => Color(0xE1, 0x1D, 0x48, 255),
        AppKey::Reseller => Color(0x05, 0x96, 0x69, 255),
        AppKey::Staff => Color(0x0B, 0x1F, 0x3A, 255),
        AppKey::Hub => Color(0x00, 0x46, 0x8C, 255),
        AppKey::Social => Color(0x7C, 0x3A, 0xED, 255),
    }
}

impl AppKey {
    /// The name of this key, as the web app reads it.
    pub fn as_str(&self) -> (s: &'static str)
        ensures
            s@ == key_name(*self),
    {
        match self {
            AppKey::Commerce => "commerce",
            AppKey::Influencer => "influencer",
            AppKey::Reseller => "reseller",
            AppKey::Staff => "staff",
            AppKey::Hub => "hub",
            AppKey::Social => "social",
        }
    }

    /// The brand colour of this product.
    pub fn color(&self) -> (c: Color)
        ensures
            c == color_of(*self),
    {
        match self {
            AppKey::Commerce => Color(0x00, 0x72, 0xCE, 255),
            AppKey::Influencer => Color(0xE1, 0x1D, 0x48, 255),
            AppKey::Reseller => Color(0x05, 0x96, 0x69, 255),
            AppKey::Staff => Color(0x0B, 0x1F, 0x3A, 255),
            AppKey::Hub => Color(0x00, 0x46, 0x8C, 255),
            AppKey::Social => Color(0x7C, 0x3A, 0xED, 255),
        }
    }
}

/// The product and colour of the build with this application identifier.
pub fn brand_for(identifier: &str) -> (b: Brand)
    ensures
        b.key == key_for(identifier@),
        b.color == color_of(b.key),
{
    let key = if str_contains(identifier, "commerce") {
        AppKey::Commerce
    } else if str_contains(identifier, "influencer") {
        AppKey::Influencer
    } else if str_contains(identifier, "reseller") {
        AppKey::Reseller
    } else if str_contains(identifier, "staff") {
        AppKey::Staff
    } else if str_contains(identifier, "hub") {
        AppKey::Hub
    } else {
        AppKey::Social
    };
    Brand { key, color: key.color() }
}

/// Distinct products have distinct names.
pub proof fn key_names_distinct(a: AppKey, b: AppKey)
    ensures
        key_name(a) == key_name(b) ==> a == b,
{
    reveal_strlit("commerce");
    reveal_strlit("influencer");
    reveal_strlit("reseller");
    reveal_strlit("staff");
    reveal_strlit("hub");
    reveal_strlit("social");
    if key_name(a) == key_name(b) {
        assert(key_name(a).len() == key_name(b).len());
        assert(key_name(a)[0] == key_name(b)[0]);
    }
}

/// Every brand colour is opaque, and no two products share one.
pub proof fn brand_colors_distinct(a: AppKey, b: AppKey)
    ensures
        color_of(a).3 == 255,
        color_of(a) == color_of(b) ==> a == b,
{
}

/// An identifier that names commerce is the commerce build; one that names
/// none of the product keywords is the social build; and each other product
/// is chosen only when its keyword occurs and no earlier keyword does.
pub proof fn key_for_follows_keyword_priority(identifier: Seq<char>)
    ensures
        seq_contains(identifier, "commerce"@) ==> key_for(identifier) == AppKey::Commerce,
        key_for(identifier) == AppKey::Influencer ==> seq_contains(identifier, "influencer"@)
            && !seq_contains(identifier, "commerce"@),
        key_for(identifier) == AppKey::Reseller ==> seq_contains(identifier, "reseller"@)
            && !seq_contains(identifier, "commerce"@) && !seq_contains(identifier, "influencer"@),
        key_for(identifier) == AppKey::Staff ==> seq_contains(identifier, "staff"@)
            && !seq_contains(identifier, "commerce"@) && !seq_contains(identifier, "influencer"@)
            && !seq_contains(identifier, "reseller"@),
        key_for(identifier) == AppKey::Hub ==> seq_contains(identifier, "hub"@)
            && !seq_contains(identifier, "commerce"@) && !seq_contains(identifier, "influencer"@)
            && !seq_contains(identifier, "reseller"@) && !seq_contains(identifier, "staff"@),
        (key_for(identifier) == AppKey::Social) <==> (!seq_contains(identifier, "commerce"@)
            && !seq_contains(identifier, "influencer"@) && !seq_contains(identifier, "reseller"@)
            && !seq_contains(identifier, "staff"@) && !seq_contains(identifier, "hub"@)),
{
}

} // verus!
