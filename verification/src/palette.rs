//! The static colour-palette catalogue offered to the UI. Pure data: the one
//! guarantee is that the catalogue is exactly this.

use vstd::prelude::*;
use crate::events::PaletteInfo;

verus! {

fn colors5(a: &str, b: &str, c: &str, d: &str, e: &str) -> (r: Vec<String>)
    ensures
        r@.len() == 5,
        r@[0]@ == a@,
        r@[1]@ == b@,
        r@[2]@ == c@,
        r@[3]@ == d@,
        r@[4]@ == e@,
{
    let mut r: Vec<String> = Vec::new();
    r.push(String::from_str(a));
    r.push(String::from_str(b));
    r.push(String::from_str(c));
    r.push(String::from_str(d));
    r.push(String::from_str(e));
    r
}

fn colors3(a: &str, b: &str, c: &str) -> (r: Vec<String>)
    ensures
        r@.len() == 3,
        r@[0]@ == a@,
        r@[1]@ == b@,
        r@[2]@ == c@,
{
    let mut r: Vec<String> = Vec::new();
    r.push(String::from_str(a));
    r.push(String::from_str(b));
    r.push(String::from_str(c));
    r
}

/// The seven palettes, in their display order, with their identifiers,
/// colour ramps and optional accents.
pub fn get_palette_info() -> (r: Vec<PaletteInfo>)
    ensures
        r@.len() == 7,
        r@[0].id@ == "alternating"@ && r@[0].name@ == "Alternating (Default)"@
            && r@[0].description@ == "Best task differentiation with red/purple mix"@,
        r@[0].colors@.len() == 5 && r@[0].colors@[0]@ == "#F01840"@ && r@[0].colors@[1]@
            == "#402848"@ && r@[0].colors@[2]@ == "#C01830"@ && r@[0].colors@[3]@ == "#705E74"@
            && r@[0].colors@[4]@ == "#901226"@,
        r@[0].accent_border is None && r@[0].accent_color is None,
        r@[1].id@ == "alternating_b"@ && r@[1].name@ == "Alternating + Border"@
            && r@[1].description@ == "Alternating with red left border accent"@,
        r@[1].colors@.len() == 5 && r@[1].colors@[0]@ == "#F01840"@ && r@[1].colors@[1]@
            == "#402848"@ && r@[1].colors@[2]@ == "#C01830"@ && r@[1].colors@[3]@ == "#705E74"@
            && r@[1].colors@[4]@ == "#901226"@,
        r@[1].accent_border matches Some(x) && x@ == "#C01830"@,
        r@[1].accent_color is None,
        r@[2].id@ == "reds"@ && r@[2].name@ == "Reds"@ && r@[2].description@
            == "Warm, energetic red gradient"@,
        r@[2].colors@.len() == 5 && r@[2].colors@[0]@ == "#F01840"@ && r@[2].colors@[1]@
            == "#C01830"@ && r@[2].colors@[2]@ == "#901226"@ && r@[2].colors@[3]@ == "#600C1C"@
            && r@[2].colors@[4]@ == "#300810"@,
        r@[2].accent_border is None && r@[2].accent_color is None,
        r@[3].id@ == "reds_b"@ && r@[3].name@ == "Reds + Purple Border"@ && r@[3].description@
            == "Red gradient with purple left border"@,
        r@[3].colors@.len() == 5 && r@[3].colors@[0]@ == "#F01840"@ && r@[3].colors@[1]@
            == "#C01830"@ && r@[3].colors@[2]@ == "#901226"@ && r@[3].colors@[3]@ == "#600C1C"@
            && r@[3].colors@[4]@ == "#300810"@,
        r@[3].accent_border matches Some(x) && x@ == "#402848"@,
        r@[3].accent_color is None,
        r@[4].id@ == "purples_a"@ && r@[4].name@ == "Purples + Burgundy Text"@
            && r@[4].description@ == "Purple gradient with burgundy task names"@,
        r@[4].colors@.len() == 3 && r@[4].colors@[0]@ == "#705E74"@ && r@[4].colors@[1]@
            == "#402848"@ && r@[4].colors@[2]@ == "#2A1C30"@,
        r@[4].accent_border is None,
        r@[4].accent_color matches Some(x) && x@ == "#901226"@,
        r@[5].id@ == "purples_b"@ && r@[5].name@ == "Purples + Red Border"@ && r@[5].description@
            == "Purple gradient with red left border"@,
        r@[5].colors@.len() == 3 && r@[5].colors@[0]@ == "#705E74"@ && r@[5].colors@[1]@
            == "#402848"@ && r@[5].colors@[2]@ == "#2A1C30"@,
        r@[5].accent_border matches Some(x) && x@ == "#C01830"@,
        r@[5].accent_color is None,
        r@[6].id@ == "purples_c"@ && r@[6].name@ == "Purples + Both Accents"@
            && r@[6].description@ == "Purple with burgundy text and red border"@,
        r@[6].colors@.len() == 3 && r@[6].colors@[0]@ == "#705E74"@ && r@[6].colors@[1]@
            == "#402848"@ && r@[6].colors@[2]@ == "#2A1C30"@,
        r@[6].accent_border matches Some(x) && x@ == "#C01830"@,
        r@[6].accent_color matches Some(x) && x@ == "#901226"@,
{
    let mut r: Vec<PaletteInfo> = Vec::new();
    r.push(
        PaletteInfo {
            id: String::from_str("alternating"),
            name: String::from_str("Alternating (Default)"),
            description: String::from_str("Best task differentiation with red/purple mix"),
            colors: colors5("#F01840", "#402848", "#C01830", "#705E74", "#901226"),
            accent_border: None,
            accent_color: None,
        },
    );
    r.push(
        PaletteInfo {
            id: String::from_str("alternating_b"),
            name: String::from_str("Alternating + Border"),
            description: String::from_str("Alternating with red left border accent"),
            colors: colors5("#F01840", "#402848", "#C01830", "#705E74", "#901226"),
            accent_border: Some(String::from_str("#C01830")),
            accent_color: None,
        },
    );
    r.push(
        PaletteInfo {
            id: String::from_str("reds"),
            name: String::from_str("Reds"),
            description: String::from_str("Warm, energetic red gradient"),
            colors: colors5("#F01840", "#C01830", "#901226", "#600C1C", "#300810"),
            accent_border: None,
            accent_color: None,
        },
    );
    r.push(
        PaletteInfo {
            id: String::from_str("reds_b"),
            name: String::from_str("Reds + Purple Border"),
            description: String::from_str("Red gradient with purple left border"),
            colors: colors5("#F01840", "#C01830", "#901226", "#600C1C", "#300810"),
            accent_border: Some(String::from_str("#402848")),
            accent_color: None,
        },
    );
    r.push(
        PaletteInfo {
            id: String::from_str("purples_a"),
            name: String::from_str("Purples + Burgundy Text"),
            description: String::from_str("Purple gradient with burgundy task names"),
            colors: colors3("#705E74", "#402848", "#2A1C30"),
            accent_border: None,
            accent_color: Some(String::from_str("#901226")),
        },
    );
    r.push(
        PaletteInfo {
            id: String::from_str("purples_b"),
            name: String::from_str("Purples + Red Border"),
            description: String::from_str("Purple gradient with red left border"),
            colors: colors3("#705E74", "#402848", "#2A1C30"),
            accent_border: Some(String::from_str("#C01830")),
            accent_color: None,
        },
    );
    r.push(
        PaletteInfo {
            id: String::from_str("purples_c"),
            name: String::from_str("Purples + Both Accents"),
            description: String::from_str("Purple with burgundy text and red border"),
            colors: colors3("#705E74", "#402848", "#2A1C30"),
            accent_border: Some(String::from_str("#C01830")),
            accent_color: Some(String::from_str("#901226")),
        },
    );
    r
}

} // verus!
