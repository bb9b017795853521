use vstd::prelude::*;
use vstd::utf8::encode_utf8_decode_utf8;
use crate::pixel::{Pixel, OPAQUE};

verus! {

/// The built-in palettes.
#[derive(Clone, Copy, Debug, PartialEq, Eq, Structural)]
pub enum PaletteName {
    Retro,
    OneDark,
    Dracula,
    Monochrome,
    Monokai,
    Solarized,
    Aesthetic,
    RainbowDash,
    CitySunset,
    InstagramGradient,
}

/// An opaque colour.
pub open spec fn rgb(r: u8, g: u8, b: u8) -> Pixel {
    Pixel { r, g, b, a: OPAQUE }
}

/// Builds an opaque colour.
fn opaque_rgb(r: u8, g: u8, b: u8) -> (p: Pixel)
    ensures
        p == rgb(r, g, b),
{
    Pixel { r, g, b, a: OPAQUE }
}

/// The name under which each palette is selected.
pub open spec fn palette_name_spec(p: PaletteName) -> Seq<char> {
    match p {
        PaletteName::Retro => "retro"@,
        PaletteName::OneDark => "onedark"@,
        PaletteName::Dracula => "dracula"@,
        PaletteName::Monochrome => "monochrome"@,
        PaletteName::Monokai => "monokai"@,
        PaletteName::Solarized => "solarized"@,
        PaletteName::Aesthetic => "aesthetic"@,
        PaletteName::RainbowDash => "rainbowdash"@,
        PaletteName::CitySunset => "citysunset"@,
        PaletteName::InstagramGradient => "instagramgradient"@,
    }
}

/// The palette selected by a name, if any.
pub open spec fn palette_named(s: Seq<char>) -> Option<PaletteName> {
    if s == "retro"@ {
        Some(PaletteName::Retro)
    } else if s == "onedark"@ {
        Some(PaletteName::OneDark)
    } else if s == "dracula"@ {
        Some(PaletteName::Dracula)
    } else if s == "monochrome"@ {
        Some(PaletteName::Monochrome)
    } else if s == "monokai"@ {
        Some(PaletteName::Monokai)
    } else if s == "solarized"@ {
        Some(PaletteName::Solarized)
    } else if s == "aesthetic"@ {
        Some(PaletteName::Aesthetic)
    } else if s == "rainbowdash"@ {
        Some(PaletteName::RainbowDash)
    } else if s == "citysunset"@ {
        Some(PaletteName::CitySunset)
    } else if s == "instagramgradient"@ {
        Some(PaletteName::InstagramGradient)
    } else {
        None
    }
}

/// The colours of each palette, in order.
pub open spec fn palette_colors(p: PaletteName) -> Seq<Pixel> {
    match p {
        PaletteName::Retro => seq![
            rgb(0, 0, 0),
            rgb(255, 255, 255),
            rgb(136, 0, 0),
            rgb(170, 255, 238),
            rgb(204, 68, 204),
            rgb(0, 204, 85),
            rgb(0, 0, 170),
            rgb(238, 238, 119),
            rgb(221, 136, 85),
            rgb(102, 68, 0),
            rgb(255, 119, 119),
            rgb(51, 51, 51),
            rgb(119, 119, 119),
            rgb(170, 255, 102),
            rgb(0, 136, 255),
            rgb(187, 187, 187),
        ],
        PaletteName::OneDark => seq![
            rgb(40, 44, 52),
            rgb(171, 178, 191),
            rgb(224, 108, 117),
            rgb(152, 195, 121),
            rgb(229, 192, 123),
            rgb(97, 175, 239),
            rgb(198, 120, 221),
            rgb(86, 182, 194),
            rgb(190, 80, 70),
            rgb(92, 99, 112),
            rgb(130, 137, 151),
            rgb(209, 154, 102),
            rgb(195, 232, 141),
            rgb(56, 62, 71),
            rgb(239, 241, 245),
            rgb(75, 82, 94),
        ],
        PaletteName::Dracula => seq![
            rgb(40, 42, 54),
            rgb(248, 248, 242),
            rgb(255, 85, 85),
            rgb(80, 250, 123),
            rgb(241, 250, 140),
            rgb(189, 147, 249),
            rgb(255, 121, 198),
            rgb(139, 233, 253),
            rgb(255, 184, 108),
            rgb(68, 71, 90),
            rgb(98, 114, 164),
            rgb(255, 110, 110),
            rgb(95, 255, 135),
            rgb(58, 60, 78),
            rgb(241, 250, 140),
            rgb(68, 71, 90),
        ],
        PaletteName::Monochrome => seq![
            rgb(0, 0, 0),
            rgb(255, 255, 255),
            rgb(85, 85, 85),
            rgb(170, 170, 170),
            rgb(212, 212, 212),
            rgb(128, 128, 128),
            rgb(192, 192, 192),
            rgb(224, 224, 224),
            rgb(160, 160, 160),
            rgb(32, 32, 32),
            rgb(96, 96, 96),
            rgb(144, 144, 144),
            rgb(208, 208, 208),
            rgb(16, 16, 16),
            rgb(240, 240, 240),
            rgb(64, 64, 64),
        ],
        PaletteName::Monokai => seq![
            rgb(39, 40, 34),
            rgb(248, 248, 242),
            rgb(249, 38, 114),
            rgb(166, 226, 46),
            rgb(230, 219, 116),
            rgb(102, 217, 239),
            rgb(174, 129, 255),
            rgb(161, 239, 228),
            rgb(253, 151, 31),
            rgb(69, 70, 64),
            rgb(117, 113, 94),
            rgb(249, 38, 114),
            rgb(166, 226, 46),
            rgb(56, 56, 48),
            rgb(248, 248, 242),
            rgb(117, 113, 94),
        ],
        PaletteName::Solarized => seq![
            rgb(0, 43, 54),
            rgb(131, 148, 150),
            rgb(220, 50, 47),
            rgb(133, 153, 0),
            rgb(181, 137, 0),
            rgb(38, 139, 210),
            rgb(211, 54, 130),
            rgb(42, 161, 152),
            rgb(203, 75, 22),
            rgb(7, 54, 66),
            rgb(88, 110, 117),
            rgb(253, 246, 227),
            rgb(238, 232, 213),
            rgb(0, 43, 54),
            rgb(253, 246, 227),
            rgb(101, 123, 131),
        ],
        PaletteName::Aesthetic => seq![
            rgb(102, 84, 94),
            rgb(163, 145, 147),
            rgb(170, 111, 115),
            rgb(238, 169, 144),
            rgb(246, 224, 181),
            rgb(202, 183, 174),
            rgb(216, 190, 204),
            rgb(186, 133, 157),
            rgb(148, 112, 120),
            rgb(234, 211, 206),
            rgb(224, 187, 228),
            rgb(197, 163, 185),
            rgb(181, 139, 132),
            rgb(251, 221, 201),
            rgb(174, 146, 138),
            rgb(220, 194, 158),
        ],
        PaletteName::RainbowDash => seq![
            rgb(238, 64, 53),
            rgb(243, 119, 54),
            rgb(253, 180, 73),
            rgb(253, 244, 152),
            rgb(201, 232, 107),
            rgb(123, 192, 67),
            rgb(64, 175, 125),
            rgb(34, 165, 175),
            rgb(3, 146, 207),
            rgb(47, 121, 190),
            rgb(91, 94, 197),
            rgb(132, 82, 196),
            rgb(175, 73, 215),
            rgb(211, 76, 200),
            rgb(234, 84, 155),
            rgb(241, 107, 122),
        ],
        PaletteName::CitySunset => seq![
            rgb(238, 175, 97),
            rgb(251, 144, 98),
            rgb(243, 114, 100),
            rgb(238, 93, 108),
            rgb(224, 82, 122),
            rgb(211, 77, 133),
            rgb(206, 73, 147),
            rgb(181, 60, 150),
            rgb(157, 42, 145),
            rgb(133, 28, 138),
            rgb(106, 13, 131),
            rgb(94, 16, 112),
            rgb(83, 18, 95),
            rgb(59, 21, 64),
        ],
        PaletteName::InstagramGradient => seq![
            rgb(254, 218, 117),
            rgb(253, 184, 85),
            rgb(250, 150, 57),
            rgb(250, 126, 30),
            rgb(242, 104, 72),
            rgb(228, 72, 95),
            rgb(214, 41, 118),
            rgb(188, 35, 140),
            rgb(167, 41, 161),
            rgb(150, 47, 191),
            rgb(134, 58, 197),
            rgb(111, 70, 204),
            rgb(98, 78, 208),
            rgb(89, 85, 211),
            rgb(84, 88, 212),
            rgb(79, 91, 213),
        ],
    }
}

impl PaletteName {
    /// Returns the colours of this palette, in order.
    pub fn colors(self) -> (r: Vec<Pixel>)
        ensures
            r@ == palette_colors(self),
    {
        let r = match self {
            PaletteName::Retro => vec![
                opaque_rgb(0, 0, 0),
                opaque_rgb(255, 255, 255),
                opaque_rgb(136, 0, 0),
                opaque_rgb(170, 255, 238),
                opaque_rgb(204, 68, 204),
                opaque_rgb(0, 204, 85),
                opaque_rgb(0, 0, 170),
                opaque_rgb(238, 238, 119),
                opaque_rgb(221, 136, 85),
                opaque_rgb(102, 68, 0),
                opaque_rgb(255, 119, 119),
                opaque_rgb(51, 51, 51),
                opaque_rgb(119, 119, 119),
                opaque_rgb(170, 255, 102),
                opaque_rgb(0, 136, 255),
                opaque_rgb(187, 187, 187),
            ],
            PaletteName::OneDark => vec![
                opaque_rgb(40, 44, 52),
                opaque_rgb(171, 178, 191),
                opaque_rgb(224, 108, 117),
                opaque_rgb(152, 195, 121),
                opaque_rgb(229, 192, 123),
                opaque_rgb(97, 175, 239),
                opaque_rgb(198, 120, 221),
                opaque_rgb(86, 182, 194),
                opaque_rgb(190, 80, 70),
                opaque_rgb(92, 99, 112),
                opaque_rgb(130, 137, 151),
                opaque_rgb(209, 154, 102),
                opaque_rgb(195, 232, 141),
                opaque_rgb(56, 62, 71),
                opaque_rgb(239, 241, 245),
                opaque_rgb(75, 82, 94),
            ],
            PaletteName::Dracula => vec![
                opaque_rgb(40, 42, 54),
                opaque_rgb(248, 248, 242),
                opaque_rgb(255, 85, 85),
                opaque_rgb(80, 250, 123),
                opaque_rgb(241, 250, 140),
                opaque_rgb(189, 147, 249),
                opaque_rgb(255, 121, 198),
                opaque_rgb(139, 233, 253),
                opaque_rgb(255, 184, 108),
                opaque_rgb(68, 71, 90),
                opaque_rgb(98, 114, 164),
                opaque_rgb(255, 110, 110),
                opaque_rgb(95, 255, 135),
                opaque_rgb(58, 60, 78),
                opaque_rgb(241, 250, 140),
                opaque_rgb(68, 71, 90),
            ],
            PaletteName::Monochrome => vec![
                opaque_rgb(0, 0, 0),
                opaque_rgb(255, 255, 255),
                opaque_rgb(85, 85, 85),
                opaque_rgb(170, 170, 170),
                opaque_rgb(212, 212, 212),
                opaque_rgb(128, 128, 128),
                opaque_rgb(192, 192, 192),
                opaque_rgb(224, 224, 224),
                opaque_rgb(160, 160, 160),
                opaque_rgb(32, 32, 32),
                opaque_rgb(96, 96, 96),
                opaque_rgb(144, 144, 144),
                opaque_rgb(208, 208, 208),
                opaque_rgb(16, 16, 16),
                opaque_rgb(240, 240, 240),
                opaque_rgb(64, 64, 64),
            ],
            PaletteName::Monokai => vec![
                opaque_rgb(39, 40, 34),
                opaque_rgb(248, 248, 242),
                opaque_rgb(249, 38, 114),
                opaque_rgb(166, 226, 46),
                opaque_rgb(230, 219, 116),
                opaque_rgb(102, 217, 239),
                opaque_rgb(174, 129, 255),
                opaque_rgb(161, 239, 228),
                opaque_rgb(253, 151, 31),
                opaque_rgb(69, 70, 64),
                opaque_rgb(117, 113, 94),
                opaque_rgb(249, 38, 114),
                opaque_rgb(166, 226, 46),
                opaque_rgb(56, 56, 48),
                opaque_rgb(248, 248, 242),
                opaque_rgb(117, 113, 94),
            ],
            PaletteName::Solarized => vec![
                opaque_rgb(0, 43, 54),
                opaque_rgb(131, 148, 150),
                opaque_rgb(220, 50, 47),
                opaque_rgb(133, 153, 0),
                opaque_rgb(181, 137, 0),
                opaque_rgb(38, 139, 210),
                opaque_rgb(211, 54, 130),
                opaque_rgb(42, 161, 152),
                opaque_rgb(203, 75, 22),
                opaque_rgb(7, 54, 66),
                opaque_rgb(88, 110, 117),
                opaque_rgb(253, 246, 227),
                opaque_rgb(238, 232, 213),
                opaque_rgb(0, 43, 54),
                opaque_rgb(253, 246, 227),
                opaque_rgb(101, 123, 131),
            ],
            PaletteName::Aesthetic => vec![
                opaque_rgb(102, 84, 94),
                opaque_rgb(163, 145, 147),
                opaque_rgb(170, 111, 115),
                opaque_rgb(238, 169, 144),
                opaque_rgb(246, 224, 181),
                opaque_rgb(202, 183, 174),
                opaque_rgb(216, 190, 204),
                opaque_rgb(186, 133, 157),
                opaque_rgb(148, 112, 120),
                opaque_rgb(234, 211, 206),
                opaque_rgb(224, 187, 228),
                opaque_rgb(197, 163, 185),
                opaque_rgb(181, 139, 132),
                opaque_rgb(251, 221, 201),
                opaque_rgb(174, 146, 138),
                opaque_rgb(220, 194, 158),
            ],
            PaletteName::RainbowDash => vec![
                opaque_rgb(238, 64, 53),
                opaque_rgb(243, 119, 54),
                opaque_rgb(253, 180, 73),
                opaque_rgb(253, 244, 152),
                opaque_rgb(201, 232, 107),
                opaque_rgb(123, 192, 67),
                opaque_rgb(64, 175, 125),
                opaque_rgb(34, 165, 175),
                opaque_rgb(3, 146, 207),
                opaque_rgb(47, 121, 190),
                opaque_rgb(91, 94, 197),
                opaque_rgb(132, 82, 196),
                opaque_rgb(175, 73, 215),
                opaque_rgb(211, 76, 200),
                opaque_rgb(234, 84, 155),
                opaque_rgb(241, 107, 122),
            ],
            PaletteName::CitySunset => vec![
                opaque_rgb(238, 175, 97),
                opaque_rgb(251, 144, 98),
                opaque_rgb(243, 114, 100),
                opaque_rgb(238, 93, 108),
                opaque_rgb(224, 82, 122),
                opaque_rgb(211, 77, 133),
                opaque_rgb(206, 73, 147),
                opaque_rgb(181, 60, 150),
                opaque_rgb(157, 42, 145),
                opaque_rgb(133, 28, 138),
                opaque_rgb(106, 13, 131),
                opaque_rgb(94, 16, 112),
                opaque_rgb(83, 18, 95),
                opaque_rgb(59, 21, 64),
            ],
            PaletteName::InstagramGradient => vec![
                opaque_rgb(254, 218, 117),
                opaque_rgb(253, 184, 85),
                opaque_rgb(250, 150, 57),
                opaque_rgb(250, 126, 30),
                opaque_rgb(242, 104, 72),
                opaque_rgb(228, 72, 95),
                opaque_rgb(214, 41, 118),
                opaque_rgb(188, 35, 140),
                opaque_rgb(167, 41, 161),
                opaque_rgb(150, 47, 191),
                opaque_rgb(134, 58, 197),
                opaque_rgb(111, 70, 204),
                opaque_rgb(98, 78, 208),
                opaque_rgb(89, 85, 211),
                opaque_rgb(84, 88, 212),
                opaque_rgb(79, 91, 213),
            ],
        };
        assert(r@ =~= palette_colors(self));
        r
    }
}

/// Returns whether two byte strings are equal.
fn bytes_equal(a: &[u8], b: &[u8]) -> (r: bool)
    ensures
        r == (a@ == b@),
{
    if a.len() != b.len() {
        return false;
    }
    let mut i: usize = 0;
    while i < a.len()
        invariant
            a@.len() == b@.len(),
            i <= a@.len(),
            forall|j: int| 0 <= j < i ==> a@[j] == b@[j],
        decreases a@.len() - i,
    {
        if a[i] != b[i] {
            return false;
        }
        i = i + 1;
    }
    assert(a@ =~= b@);
    true
}

/// Returns whether two strings hold the same characters.
pub fn str_equal(a: &str, b: &str) -> (r: bool)
    ensures
        r == (a@ == b@),
{
    let r = bytes_equal(a.as_bytes(), b.as_bytes());
    proof {
        encode_utf8_decode_utf8(a@);
        encode_utf8_decode_utf8(b@);
    }
    r
}

/// Finds the built-in palette with the given name.
pub fn palette_by_name(name: &str) -> (r: Option<PaletteName>)
    ensures
        r == palette_named(name@),
{
    if str_equal(name, "retro") {
        return Some(PaletteName::Retro);
    }
    if str_equal(name, "onedark") {
        return Some(PaletteName::OneDark);
    }
    if str_equal(name, "dracula") {
        return Some(PaletteName::Dracula);
    }
    if str_equal(name, "monochrome") {
        return Some(PaletteName::Monochrome);
    }
    if str_equal(name, "monokai") {
        return Some(PaletteName::Monokai);
    }
    if str_equal(name, "solarized") {
        return Some(PaletteName::Solarized);
    }
    if str_equal(name, "aesthetic") {
        return Some(PaletteName::Aesthetic);
    }
    if str_equal(name, "rainbowdash") {
        return Some(PaletteName::RainbowDash);
    }
    if str_equal(name, "citysunset") {
        return Some(PaletteName::CitySunset);
    }
    if str_equal(name, "instagramgradient") {
        return Some(PaletteName::InstagramGradient);
    }
    None
}

/// Looks a palette up by name and returns its colours.
pub fn lookup(name: &str) -> (r: Option<Vec<Pixel>>)
    ensures
        match palette_named(name@) {
            Some(p) => r matches Some(v) && v@ == palette_colors(p),
            None => r is None,
        },
{
    match palette_by_name(name) {
        Some(p) => Some(p.colors()),
        None => None,
    }
}

} // verus!
