use chronicle::assets::{find_root_asset, RootAsset};

#[test]
fn finds_assets_by_name() {
    assert_eq!(find_root_asset("favicon.png"), Some(RootAsset::Favicon));
    assert_eq!(find_root_asset("search.js"), Some(RootAsset::SearchJs));
    assert_eq!(find_root_asset("favicon.PNG"), None);
    assert_eq!(find_root_asset(""), None);
    let a = find_root_asset("styles.css").unwrap();
    assert_eq!(a.content_type(), "text/css; charset=utf-8");
    assert!(a.is_text());
    let b = find_root_asset("daeva.webp").unwrap();
    assert_eq!(b.content_type(), "image/webp");
    assert!(!b.is_text());
    assert_eq!(find_root_asset("awe-sign.jpg").unwrap().content_type(), "image/jpeg");
    assert_eq!(find_root_asset("search-data.js").unwrap().content_type(), "application/javascript; charset=utf-8");
}

#[test]
fn every_asset_is_found_under_its_name() {
    let names = [
        "search.js", "search-data.js", "styles.css", "awe-sign.jpg", "beast-sign.jpg",
        "camoflage-sign.jpg", "carthian-movement.webp", "circle-of-the-crone.webp", "daeva.webp",
        "dominate-sign.jpg", "dread-sign.jpg", "favicon.png", "gangrel.webp", "independent.webp",
        "invictus.webp", "lancea-et-sanctum.webp", "mekhet.webp", "nosferatu.webp",
        "obfuscate-sign.jpg", "off-sign.jpg", "ordo-dracul.png", "ventrue.webp", "vs-rr.png",
    ];
    for n in names {
        let a = find_root_asset(n).unwrap();
        assert_eq!(a.file_name(), n);
    }
}
