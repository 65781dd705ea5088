use vstd::prelude::*;
use crate::text::text_eq;

verus! {

/// A file served from the site root: the scripts, the style sheet and the
/// images of clans, covenants and disciplines.
#[derive(Debug, Clone, Copy, PartialEq, Eq, Structural)]
pub enum RootAsset {
    SearchJs,
    SearchData,
    Styles,
    AweSign,
    BeastSign,
    CamoflageSign,
    CarthianMovement,
    CircleOfTheCrone,
    Daeva,
    DominateSign,
    DreadSign,
    Favicon,
    Gangrel,
    Independent,
    Invictus,
    LanceaEtSanctum,
    Mekhet,
    Nosferatu,
    ObfuscateSign,
    OffSign,
    OrdoDracul,
    Ventrue,
    VsRr,
}

/// The name under which each root asset is served.
pub open spec fn asset_file_name(a: RootAsset) -> Seq<char> {
    match a {
        RootAsset::SearchJs => "search.js"@,
        RootAsset::SearchData => "search-data.js"@,
        RootAsset::Styles => "styles.css"@,
        RootAsset::AweSign => "awe-sign.jpg"@,
        RootAsset::BeastSign => "beast-sign.jpg"@,
        RootAsset::CamoflageSign => "camoflage-sign.jpg"@,
        RootAsset::CarthianMovement => "carthian-movement.webp"@,
        RootAsset::CircleOfTheCrone => "circle-of-the-crone.webp"@,
        RootAsset::Daeva => "daeva.webp"@,
        RootAsset::DominateSign => "dominate-sign.jpg"@,
        RootAsset::DreadSign => "dread-sign.jpg"@,
        RootAsset::Favicon => "favicon.png"@,
        RootAsset::Gangrel => "gangrel.webp"@,
        RootAsset::Independent => "independent.webp"@,
        RootAsset::Invictus => "invictus.webp"@,
        RootAsset::LanceaEtSanctum => "lancea-et-sanctum.webp"@,
        RootAsset::Mekhet => "mekhet.webp"@,
        RootAsset::Nosferatu => "nosferatu.webp"@,
        RootAsset::ObfuscateSign => "obfuscate-sign.jpg"@,
        RootAsset::OffSign => "off-sign.jpg"@,
        RootAsset::OrdoDracul => "ordo-dracul.png"@,
        RootAsset::Ventrue => "ventrue.webp"@,
        RootAsset::VsRr => "vs-rr.png"@,
    }
}

/// The `Content-Type` each root asset is served with.
pub open spec fn asset_content_type(a: RootAsset) -> Seq<char> {
    match a {
        RootAsset::SearchJs => "application/javascript; charset=utf-8"@,
        RootAsset::SearchData => "application/javascript; charset=utf-8"@,
        RootAsset::Styles => "text/css; charset=utf-8"@,
        RootAsset::AweSign => "image/jpeg"@,
        RootAsset::BeastSign => "image/jpeg"@,
        RootAsset::CamoflageSign => "image/jpeg"@,
        RootAsset::CarthianMovement => "image/webp"@,
        RootAsset::CircleOfTheCrone => "image/webp"@,
        RootAsset::Daeva => "image/webp"@,
        RootAsset::DominateSign => "image/jpeg"@,
        RootAsset::DreadSign => "image/jpeg"@,
        RootAsset::Favicon => "image/png"@,
        RootAsset::Gangrel => "image/webp"@,
        RootAsset::Independent => "image/webp"@,
        RootAsset::Invictus => "image/webp"@,
        RootAsset::LanceaEtSanctum => "image/webp"@,
        RootAsset::Mekhet => "image/webp"@,
        RootAsset::Nosferatu => "image/webp"@,
        RootAsset::ObfuscateSign => "image/jpeg"@,
        RootAsset::OffSign => "image/jpeg"@,
        RootAsset::OrdoDracul => "image/png"@,
        RootAsset::Ventrue => "image/webp"@,
        RootAsset::VsRr => "image/png"@,
    }
}

/// Whether the asset is text (scripts and styles) rather than an image.
pub open spec fn asset_is_text(a: RootAsset) -> bool {
    match a {
        RootAsset::SearchJs | RootAsset::SearchData | RootAsset::Styles => true,
        _ => false,
    }
}

/// Every root asset, in the order the site looks them up.
pub open spec fn asset_table() -> Seq<RootAsset> {
    seq![
        RootAsset::SearchJs,
        RootAsset::SearchData,
        RootAsset::Styles,
        RootAsset::AweSign,
        RootAsset::BeastSign,
        RootAsset::CamoflageSign,
        RootAsset::CarthianMovement,
        RootAsset::CircleOfTheCrone,
        RootAsset::Daeva,
        RootAsset::DominateSign,
        RootAsset::DreadSign,
        RootAsset::Favicon,
        RootAsset::Gangrel,
        RootAsset::Independent,
        RootAsset::Invictus,
        RootAsset::LanceaEtSanctum,
        RootAsset::Mekhet,
        RootAsset::Nosferatu,
        RootAsset::ObfuscateSign,
        RootAsset::OffSign,
        RootAsset::OrdoDracul,
        RootAsset::Ventrue,
        RootAsset::VsRr,
    ]
}

/// The first asset of `table` served under `name`.
pub open spec fn first_named(table: Seq<RootAsset>, name: Seq<char>) -> Option<RootAsset>
    decreases table.len(),
{
    if table.len() == 0 {
        None
    } else if asset_file_name(table[0]) == name {
        Some(table[0])
    } else {
        first_named(table.drop_first(), name)
    }
}

/// The root asset served under a file name, if any.
pub open spec fn asset_named(name: Seq<char>) -> Option<RootAsset> {
    first_named(asset_table(), name)
}

fn all_root_assets() -> (v: Vec<RootAsset>)
    ensures
        v@ == asset_table(),
{
    let v = vec![
        RootAsset::SearchJs,
        RootAsset::SearchData,
        RootAsset::Styles,
        RootAsset::AweSign,
        RootAsset::BeastSign,
        RootAsset::CamoflageSign,
        RootAsset::CarthianMovement,
        RootAsset::CircleOfTheCrone,
        RootAsset::Daeva,
        RootAsset::DominateSign,
        RootAsset::DreadSign,
        RootAsset::Favicon,
        RootAsset::Gangrel,
        RootAsset::Independent,
        RootAsset::Invictus,
        RootAsset::LanceaEtSanctum,
        RootAsset::Mekhet,
        RootAsset::Nosferatu,
        RootAsset::ObfuscateSign,
        RootAsset::OffSign,
        RootAsset::OrdoDracul,
        RootAsset::Ventrue,
        RootAsset::VsRr,
    ];
    assert(v@ =~= asset_table());
    v
}

/// Looks up the root asset served under `filename`.
pub fn find_root_asset(filename: &str) -> (r: Option<RootAsset>)
    ensures
        r == asset_named(filename@),
{
    let table = all_root_assets();
    let mut i: usize = 0;
    assert(asset_table().skip(0) =~= asset_table());
    while i < table.len()
        invariant
            table@ == asset_table(),
            i <= table.len(),
            first_named(asset_table(), filename@) == first_named(asset_table().skip(i as int), filename@),
        decreases table.len() - i,
    {
        let a = table[i];
        let ghost rest = asset_table().skip(i as int);
        assert(rest[0] == a);
        assert(rest.drop_first() =~= asset_table().skip(i + 1));
        if text_eq(filename, a.file_name()) {
            return Some(a);
        }
        i = i + 1;
    }
    assert(asset_table().skip(i as int) =~= Seq::<RootAsset>::empty());
    None
}

proof fn lemma_first_named(table: Seq<RootAsset>, name: Seq<char>, x: RootAsset)
    ensures
        first_named(table, name) matches Some(b) ==> asset_file_name(b) == name,
        table.contains(x) && asset_file_name(x) == name ==> first_named(table, name) is Some,
    decreases table.len(),
{
    if table.len() > 0 {
        lemma_first_named(table.drop_first(), name, x);
        if table.contains(x) && table[0] != x {
            let k = choose|k: int| 0 <= k < table.len() && table[k] == x;
            assert(table.drop_first()[k - 1] == x);
        }
    }
}

/// Every root asset is found under its own name, and a name finds only an
/// asset served under that name.
pub proof fn lemma_asset_lookup(a: RootAsset, name: Seq<char>)
    ensures
        asset_named(asset_file_name(a)) is Some,
        asset_named(name) matches Some(b) ==> asset_file_name(b) == name,
{
    let t = asset_table();
    assert(t.contains(a)) by {
        match a {
            RootAsset::SearchJs => { assert(t[0] == a); },
            RootAsset::SearchData => { assert(t[1] == a); },
            RootAsset::Styles => { assert(t[2] == a); },
            RootAsset::AweSign => { assert(t[3] == a); },
            RootAsset::BeastSign => { assert(t[4] == a); },
            RootAsset::CamoflageSign => { assert(t[5] == a); },
            RootAsset::CarthianMovement => { assert(t[6] == a); },
            RootAsset::CircleOfTheCrone => { assert(t[7] == a); },
            RootAsset::Daeva => { assert(t[8] == a); },
            RootAsset::DominateSign => { assert(t[9] == a); },
            RootAsset::DreadSign => { assert(t[10] == a); },
            RootAsset::Favicon => { assert(t[11] == a); },
            RootAsset::Gangrel => { assert(t[12] == a); },
            RootAsset::Independent => { assert(t[13] == a); },
            RootAsset::Invictus => { assert(t[14] == a); },
            RootAsset::LanceaEtSanctum => { assert(t[15] == a); },
            RootAsset::Mekhet => { assert(t[16] == a); },
            RootAsset::Nosferatu => { assert(t[17] == a); },
            RootAsset::ObfuscateSign => { assert(t[18] == a); },
            RootAsset::OffSign => { assert(t[19] == a); },
            RootAsset::OrdoDracul => { assert(t[20] == a); },
            RootAsset::Ventrue => { assert(t[21] == a); },
            RootAsset::VsRr => { assert(t[22] == a); },
        }
    }
    lemma_first_named(t, asset_file_name(a), a);
    lemma_first_named(t, name, a);
}

impl RootAsset {
    /// The name the asset is served under.
    pub fn file_name(&self) -> (r: &'static str)
        ensures
            r@ == asset_file_name(*self),
    {
        match self {
            RootAsset::SearchJs => "search.js",
            RootAsset::SearchData => "search-data.js",
            RootAsset::Styles => "styles.css",
            RootAsset::AweSign => "awe-sign.jpg",
            RootAsset::BeastSign => "beast-sign.jpg",
            RootAsset::CamoflageSign => "camoflage-sign.jpg",
            RootAsset::CarthianMovement => "carthian-movement.webp",
            RootAsset::CircleOfTheCrone => "circle-of-the-crone.webp",
            RootAsset::Daeva => "daeva.webp",
            RootAsset::DominateSign => "dominate-sign.jpg",
            RootAsset::DreadSign => "dread-sign.jpg",
            RootAsset::Favicon => "favicon.png",
            RootAsset::Gangrel => "gangrel.webp",
            RootAsset::Independent => "independent.webp",
            RootAsset::Invictus => "invictus.webp",
            RootAsset::LanceaEtSanctum => "lancea-et-sanctum.webp",
            RootAsset::Mekhet => "mekhet.webp",
            RootAsset::Nosferatu => "nosferatu.webp",
            RootAsset::ObfuscateSign => "obfuscate-sign.jpg",
            RootAsset::OffSign => "off-sign.jpg",
            RootAsset::OrdoDracul => "ordo-dracul.png",
            RootAsset::Ventrue => "ventrue.webp",
            RootAsset::VsRr => "vs-rr.png",
        }
    }

    /// The `Content-Type` the asset is served with.
    pub fn content_type(&self) -> (r: &'static str)
        ensures
            r@ == asset_content_type(*self),
    {
        match self {
            RootAsset::SearchJs => "application/javascript; charset=utf-8",
            RootAsset::SearchData => "application/javascript; charset=utf-8",
            RootAsset::Styles => "text/css; charset=utf-8",
            RootAsset::AweSign => "image/jpeg",
            RootAsset::BeastSign => "image/jpeg",
            RootAsset::CamoflageSign => "image/jpeg",
            RootAsset::CarthianMovement => "image/webp",
            RootAsset::CircleOfTheCrone => "image/webp",
            RootAsset::Daeva => "image/webp",
            RootAsset::DominateSign => "image/jpeg",
            RootAsset::DreadSign => "image/jpeg",
            RootAsset::Favicon => "image/png",
            RootAsset::Gangrel => "image/webp",
            RootAsset::Independent => "image/webp",
            RootAsset::Invictus => "image/webp",
            RootAsset::LanceaEtSanctum => "image/webp",
            RootAsset::Mekhet => "image/webp",
            RootAsset::Nosferatu => "image/webp",
            RootAsset::ObfuscateSign => "image/jpeg",
            RootAsset::OffSign => "image/jpeg",
            RootAsset::OrdoDracul => "image/png",
            RootAsset::Ventrue => "image/webp",
            RootAsset::VsRr => "image/png",
        }
    }

    /// Whether the asset is text rather than binary.
    pub fn is_text(&self) -> (r: bool)
        ensures
            r == asset_is_text(*self),
    {
        match self {
            RootAsset::SearchJs | RootAsset::SearchData | RootAsset::Styles => true,
            _ => false,
        }
    }
}

} // verus!

verus! {

// ---------------------------------------------------------------------------
// Content types follow the file names
// ---------------------------------------------------------------------------

/// `s` ends with `suffix`, compared character by character from the end.
pub open spec fn ends_with(s: Seq<char>, suffix: Seq<char>) -> bool
    decreases suffix.len(),
{
    if suffix.len() == 0 {
        true
    } else if s.len() == 0 {
        false
    } else {
        s.last() == suffix.last() && ends_with(s.drop_last(), suffix.drop_last())
    }
}

/// The content type of a file by the extension of its name: scripts and
/// style sheets as UTF-8 text, and the image formats.
pub open spec fn content_type_by_extension(name: Seq<char>) -> Option<Seq<char>> {
    if ends_with(name, ".js"@) {
        Some("application/javascript; charset=utf-8"@)
    } else if ends_with(name, ".css"@) {
        Some("text/css; charset=utf-8"@)
    } else if ends_with(name, ".png"@) {
        Some("image/png"@)
    } else if ends_with(name, ".jpg"@) {
        Some("image/jpeg"@)
    } else if ends_with(name, ".webp"@) {
        Some("image/webp"@)
    } else {
        None
    }
}

/// Every root file is served with the content type of its name's
/// extension: `.js` as JavaScript, `.css` as a style sheet, and `.png`,
/// `.jpg` and `.webp` as those image formats.
pub proof fn lemma_content_type_follows_extension(a: RootAsset)
    ensures
        content_type_by_extension(asset_file_name(a)) == Some(asset_content_type(a)),
{
    reveal_with_fuel(ends_with, 6);
    reveal_strlit(".js");
    reveal_strlit(".css");
    reveal_strlit(".png");
    reveal_strlit(".jpg");
    reveal_strlit(".webp");
    match a {
        RootAsset::SearchJs => {
            reveal_strlit("search.js");
        },
        RootAsset::SearchData => {
            reveal_strlit("search-data.js");
        },
        RootAsset::Styles => {
            reveal_strlit("styles.css");
        },
        RootAsset::AweSign => {
            reveal_strlit("awe-sign.jpg");
        },
        RootAsset::BeastSign => {
            reveal_strlit("beast-sign.jpg");
        },
        RootAsset::CamoflageSign => {
            reveal_strlit("camoflage-sign.jpg");
        },
        RootAsset::CarthianMovement => {
            reveal_strlit("carthian-movement.webp");
        },
        RootAsset::CircleOfTheCrone => {
            reveal_strlit("circle-of-the-crone.webp");
        },
        RootAsset::Daeva => {
            reveal_strlit("daeva.webp");
        },
        RootAsset::DominateSign => {
            reveal_strlit("dominate-sign.jpg");
        },
        RootAsset::DreadSign => {
            reveal_strlit("dread-sign.jpg");
        },
        RootAsset::Favicon => {
            reveal_strlit("favicon.png");
        },
        RootAsset::Gangrel => {
            reveal_strlit("gangrel.webp");
        },
        RootAsset::Independent => {
            reveal_strlit("independent.webp");
        },
        RootAsset::Invictus => {
            reveal_strlit("invictus.webp");
        },
        RootAsset::LanceaEtSanctum => {
            reveal_strlit("lancea-et-sanctum.webp");
        },
        RootAsset::Mekhet => {
            reveal_strlit("mekhet.webp");
        },
        RootAsset::Nosferatu => {
            reveal_strlit("nosferatu.webp");
        },
        RootAsset::ObfuscateSign => {
            reveal_strlit("obfuscate-sign.jpg");
        },
        RootAsset::OffSign => {
            reveal_strlit("off-sign.jpg");
        },
        RootAsset::OrdoDracul => {
            reveal_strlit("ordo-dracul.png");
        },
        RootAsset::Ventrue => {
            reveal_strlit("ventrue.webp");
        },
        RootAsset::VsRr => {
            reveal_strlit("vs-rr.png");
        },
    }
}

} // verus!
