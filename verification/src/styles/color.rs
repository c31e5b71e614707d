//! Colors of style values, named by their CSS keywords.

use vstd::prelude::*;
use crate::text::str_eq;
use super::ParseValue;

verus! {

/// A color in the sRGB color space with an alpha channel, each channel in
/// eight bits.
#[derive(Copy, Clone, Debug, PartialEq, Eq, Structural)]
pub struct Color {
    /// The red channel.
    pub red: u8,
    /// The green channel.
    pub green: u8,
    /// The blue channel.
    pub blue: u8,
    /// The opacity: zero is fully transparent, 255 fully opaque.
    pub alpha: u8,
}

impl Color {
    /// The opaque color with the given channels.
    pub open spec fn spec_rgb(red: u8, green: u8, blue: u8) -> Color {
        Color { red, green, blue, alpha: 255 }
    }

    /// The fully transparent color.
    pub open spec fn spec_transparent() -> Color {
        Color { red: 0, green: 0, blue: 0, alpha: 0 }
    }

    /// Returns the opaque color with the given channels.
    pub fn rgb(red: u8, green: u8, blue: u8) -> (r: Color)
        ensures
            r == Self::spec_rgb(red, green, blue),
    {
        Color { red, green, blue, alpha: 255 }
    }

    /// Returns the fully transparent color.
    pub fn transparent() -> (r: Color)
        ensures
            r == Self::spec_transparent(),
    {
        Color { red: 0, green: 0, blue: 0, alpha: 0 }
    }
}

impl ParseValue for Color {
    /// `transparent`, or one of the named colors of CSS, which are opaque.
    open spec fn spec_parse(s: Seq<char>) -> Option<Self> {
        if s == "transparent"@ {
            Some(Color::spec_transparent())
        } else if s == "aliceblue"@ {
            Some(Color::spec_rgb(240, 248, 255))
        } else if s == "antiquewhite"@ {
            Some(Color::spec_rgb(250, 235, 215))
        } else if s == "aqua"@ {
            Some(Color::spec_rgb(0, 255, 255))
        } else if s == "aquamarine"@ {
            Some(Color::spec_rgb(127, 255, 212))
        } else if s == "azure"@ {
            Some(Color::spec_rgb(240, 255, 255))
        } else if s == "beige"@ {
            Some(Color::spec_rgb(245, 245, 220))
        } else if s == "bisque"@ {
            Some(Color::spec_rgb(255, 228, 196))
        } else if s == "black"@ {
            Some(Color::spec_rgb(0, 0, 0))
        } else if s == "blanchedalmond"@ {
            Some(Color::spec_rgb(255, 235, 205))
        } else if s == "blue"@ {
            Some(Color::spec_rgb(0, 0, 255))
        } else if s == "blueviolet"@ {
            Some(Color::spec_rgb(138, 43, 226))
        } else if s == "brown"@ {
            Some(Color::spec_rgb(165, 42, 42))
        } else if s == "burlywood"@ {
            Some(Color::spec_rgb(222, 184, 135))
        } else if s == "cadetblue"@ {
            Some(Color::spec_rgb(95, 158, 160))
        } else if s == "chartreuse"@ {
            Some(Color::spec_rgb(127, 255, 0))
        } else if s == "chocolate"@ {
            Some(Color::spec_rgb(210, 105, 30))
        } else if s == "coral"@ {
            Some(Color::spec_rgb(255, 127, 80))
        } else if s == "cornflowerblue"@ {
            Some(Color::spec_rgb(100, 149, 237))
        } else if s == "cornsilk"@ {
            Some(Color::spec_rgb(255, 248, 220))
        } else if s == "crimson"@ {
            Some(Color::spec_rgb(220, 20, 60))
        } else if s == "cyan"@ {
            Some(Color::spec_rgb(0, 255, 255))
        } else if s == "darkblue"@ {
            Some(Color::spec_rgb(0, 0, 139))
        } else if s == "darkcyan"@ {
            Some(Color::spec_rgb(0, 139, 139))
        } else if s == "darkgoldenrod"@ {
            Some(Color::spec_rgb(184, 134, 11))
        } else if s == "darkgray"@ {
            Some(Color::spec_rgb(169, 169, 169))
        } else if s == "darkgreen"@ {
            Some(Color::spec_rgb(0, 100, 0))
        } else if s == "darkgrey"@ {
            Some(Color::spec_rgb(169, 169, 169))
        } else if s == "darkkhaki"@ {
            Some(Color::spec_rgb(189, 183, 107))
        } else if s == "darkmagenta"@ {
            Some(Color::spec_rgb(139, 0, 139))
        } else if s == "darkolivegreen"@ {
            Some(Color::spec_rgb(85, 107, 47))
        } else if s == "darkorange"@ {
            Some(Color::spec_rgb(255, 140, 0))
        } else if s == "darkorchid"@ {
            Some(Color::spec_rgb(153, 50, 204))
        } else if s == "darkred"@ {
            Some(Color::spec_rgb(139, 0, 0))
        } else if s == "darksalmon"@ {
            Some(Color::spec_rgb(233, 150, 122))
        } else if s == "darkseagreen"@ {
            Some(Color::spec_rgb(143, 188, 143))
        } else if s == "darkslateblue"@ {
            Some(Color::spec_rgb(72, 61, 139))
        } else if s == "darkslategray"@ {
            Some(Color::spec_rgb(47, 79, 79))
        } else if s == "darkslategrey"@ {
            Some(Color::spec_rgb(47, 79, 79))
        } else if s == "darkturquoise"@ {
            Some(Color::spec_rgb(0, 206, 209))
        } else if s == "darkviolet"@ {
            Some(Color::spec_rgb(148, 0, 211))
        } else if s == "deeppink"@ {
            Some(Color::spec_rgb(255, 20, 147))
        } else if s == "deepskyblue"@ {
            Some(Color::spec_rgb(0, 191, 255))
        } else if s == "dimgray"@ {
            Some(Color::spec_rgb(105, 105, 105))
        } else if s == "dimgrey"@ {
            Some(Color::spec_rgb(105, 105, 105))
        } else if s == "dodgerblue"@ {
            Some(Color::spec_rgb(30, 144, 255))
        } else if s == "firebrick"@ {
            Some(Color::spec_rgb(178, 34, 34))
        } else if s == "floralwhite"@ {
            Some(Color::spec_rgb(255, 250, 240))
        } else if s == "forestgreen"@ {
            Some(Color::spec_rgb(34, 139, 34))
        } else if s == "fuchsia"@ {
            Some(Color::spec_rgb(255, 0, 255))
        } else if s == "gainsboro"@ {
            Some(Color::spec_rgb(220, 220, 220))
        } else if s == "ghostwhite"@ {
            Some(Color::spec_rgb(248, 248, 255))
        } else if s == "gold"@ {
            Some(Color::spec_rgb(255, 215, 0))
        } else if s == "goldenrod"@ {
            Some(Color::spec_rgb(218, 165, 32))
        } else if s == "gray"@ {
            Some(Color::spec_rgb(128, 128, 128))
        } else if s == "green"@ {
            Some(Color::spec_rgb(0, 128, 0))
        } else if s == "greenyellow"@ {
            Some(Color::spec_rgb(173, 255, 47))
        } else if s == "grey"@ {
            Some(Color::spec_rgb(128, 128, 128))
        } else if s == "honeydew"@ {
            Some(Color::spec_rgb(240, 255, 240))
        } else if s == "hotpink"@ {
            Some(Color::spec_rgb(255, 105, 180))
        } else if s == "indianred"@ {
            Some(Color::spec_rgb(205, 92, 92))
        } else if s == "indigo"@ {
            Some(Color::spec_rgb(75, 0, 130))
        } else if s == "ivory"@ {
            Some(Color::spec_rgb(255, 255, 240))
        } else if s == "khaki"@ {
            Some(Color::spec_rgb(240, 230, 140))
        } else if s == "lavender"@ {
            Some(Color::spec_rgb(230, 230, 250))
        } else if s == "lavenderblush"@ {
            Some(Color::spec_rgb(255, 240, 245))
        } else if s == "lawngreen"@ {
            Some(Color::spec_rgb(124, 252, 0))
        } else if s == "lemonchiffon"@ {
            Some(Color::spec_rgb(255, 250, 205))
        } else if s == "lightblue"@ {
            Some(Color::spec_rgb(173, 216, 230))
        } else if s == "lightcoral"@ {
            Some(Color::spec_rgb(240, 128, 128))
        } else if s == "lightcyan"@ {
            Some(Color::spec_rgb(224, 255, 255))
        } else if s == "lightgoldenrodyellow"@ {
            Some(Color::spec_rgb(250, 250, 210))
        } else if s == "lightgray"@ {
            Some(Color::spec_rgb(211, 211, 211))
        } else if s == "lightgreen"@ {
            Some(Color::spec_rgb(144, 238, 144))
        } else if s == "lightgrey"@ {
            Some(Color::spec_rgb(211, 211, 211))
        } else if s == "lightpink"@ {
            Some(Color::spec_rgb(255, 182, 193))
        } else if s == "lightsalmon"@ {
            Some(Color::spec_rgb(255, 160, 122))
        } else if s == "lightseagreen"@ {
            Some(Color::spec_rgb(32, 178, 170))
        } else if s == "lightskyblue"@ {
            Some(Color::spec_rgb(135, 206, 250))
        } else if s == "lightslategray"@ {
            Some(Color::spec_rgb(119, 136, 153))
        } else if s == "lightslategrey"@ {
            Some(Color::spec_rgb(119, 136, 153))
        } else if s == "lightsteelblue"@ {
            Some(Color::spec_rgb(176, 196, 222))
        } else if s == "lightyellow"@ {
            Some(Color::spec_rgb(255, 255, 224))
        } else if s == "lime"@ {
            Some(Color::spec_rgb(0, 255, 0))
        } else if s == "limegreen"@ {
            Some(Color::spec_rgb(50, 205, 50))
        } else if s == "linen"@ {
            Some(Color::spec_rgb(250, 240, 230))
        } else if s == "magenta"@ {
            Some(Color::spec_rgb(255, 0, 255))
        } else if s == "maroon"@ {
            Some(Color::spec_rgb(128, 0, 0))
        } else if s == "mediumaquamarine"@ {
            Some(Color::spec_rgb(102, 205, 170))
        } else if s == "mediumblue"@ {
            Some(Color::spec_rgb(0, 0, 205))
        } else if s == "mediumorchid"@ {
            Some(Color::spec_rgb(186, 85, 211))
        } else if s == "mediumpurple"@ {
            Some(Color::spec_rgb(147, 112, 219))
        } else if s == "mediumseagreen"@ {
            Some(Color::spec_rgb(60, 179, 113))
        } else if s == "mediumslateblue"@ {
            Some(Color::spec_rgb(123, 104, 238))
        } else if s == "mediumspringgreen"@ {
            Some(Color::spec_rgb(0, 250, 154))
        } else if s == "mediumturquoise"@ {
            Some(Color::spec_rgb(72, 209, 204))
        } else if s == "mediumvioletred"@ {
            Some(Color::spec_rgb(199, 21, 133))
        } else if s == "midnightblue"@ {
            Some(Color::spec_rgb(25, 25, 112))
        } else if s == "mintcream"@ {
            Some(Color::spec_rgb(245, 255, 250))
        } else if s == "mistyrose"@ {
            Some(Color::spec_rgb(255, 228, 225))
        } else if s == "moccasin"@ {
            Some(Color::spec_rgb(255, 228, 181))
        } else if s == "navajowhite"@ {
            Some(Color::spec_rgb(255, 222, 173))
        } else if s == "navy"@ {
            Some(Color::spec_rgb(0, 0, 128))
        } else if s == "oldlace"@ {
            Some(Color::spec_rgb(253, 245, 230))
        } else if s == "olive"@ {
            Some(Color::spec_rgb(128, 128, 0))
        } else if s == "olivedrab"@ {
            Some(Color::spec_rgb(107, 142, 35))
        } else if s == "orange"@ {
            Some(Color::spec_rgb(255, 165, 0))
        } else if s == "orangered"@ {
            Some(Color::spec_rgb(255, 69, 0))
        } else if s == "orchid"@ {
            Some(Color::spec_rgb(218, 112, 214))
        } else if s == "palegoldenrod"@ {
            Some(Color::spec_rgb(238, 232, 170))
        } else if s == "palegreen"@ {
            Some(Color::spec_rgb(152, 251, 152))
        } else if s == "paleturquoise"@ {
            Some(Color::spec_rgb(175, 238, 238))
        } else if s == "palevioletred"@ {
            Some(Color::spec_rgb(219, 112, 147))
        } else if s == "papayawhip"@ {
            Some(Color::spec_rgb(255, 239, 213))
        } else if s == "peachpuff"@ {
            Some(Color::spec_rgb(255, 218, 185))
        } else if s == "peru"@ {
            Some(Color::spec_rgb(205, 133, 63))
        } else if s == "pink"@ {
            Some(Color::spec_rgb(255, 192, 203))
        } else if s == "plum"@ {
            Some(Color::spec_rgb(221, 160, 221))
        } else if s == "powderblue"@ {
            Some(Color::spec_rgb(176, 224, 230))
        } else if s == "purple"@ {
            Some(Color::spec_rgb(128, 0, 128))
        } else if s == "rebeccapurple"@ {
            Some(Color::spec_rgb(102, 51, 153))
        } else if s == "red"@ {
            Some(Color::spec_rgb(255, 0, 0))
        } else if s == "rosybrown"@ {
            Some(Color::spec_rgb(188, 143, 143))
        } else if s == "royalblue"@ {
            Some(Color::spec_rgb(65, 105, 225))
        } else if s == "saddlebrown"@ {
            Some(Color::spec_rgb(139, 69, 19))
        } else if s == "salmon"@ {
            Some(Color::spec_rgb(250, 128, 114))
        } else if s == "sandybrown"@ {
            Some(Color::spec_rgb(244, 164, 96))
        } else if s == "seagreen"@ {
            Some(Color::spec_rgb(46, 139, 87))
        } else if s == "seashell"@ {
            Some(Color::spec_rgb(255, 245, 238))
        } else if s == "sienna"@ {
            Some(Color::spec_rgb(160, 82, 45))
        } else if s == "silver"@ {
            Some(Color::spec_rgb(192, 192, 192))
        } else if s == "skyblue"@ {
            Some(Color::spec_rgb(135, 206, 235))
        } else if s == "slateblue"@ {
            Some(Color::spec_rgb(106, 90, 205))
        } else if s == "slategray"@ {
            Some(Color::spec_rgb(112, 128, 144))
        } else if s == "slategrey"@ {
            Some(Color::spec_rgb(112, 128, 144))
        } else if s == "snow"@ {
            Some(Color::spec_rgb(255, 250, 250))
        } else if s == "springgreen"@ {
            Some(Color::spec_rgb(0, 255, 127))
        } else if s == "steelblue"@ {
            Some(Color::spec_rgb(70, 130, 180))
        } else if s == "tan"@ {
            Some(Color::spec_rgb(210, 180, 140))
        } else if s == "teal"@ {
            Some(Color::spec_rgb(0, 128, 128))
        } else if s == "thistle"@ {
            Some(Color::spec_rgb(216, 191, 216))
        } else if s == "tomato"@ {
            Some(Color::spec_rgb(255, 99, 71))
        } else if s == "turquoise"@ {
            Some(Color::spec_rgb(64, 224, 208))
        } else if s == "violet"@ {
            Some(Color::spec_rgb(238, 130, 238))
        } else if s == "wheat"@ {
            Some(Color::spec_rgb(245, 222, 179))
        } else if s == "white"@ {
            Some(Color::spec_rgb(255, 255, 255))
        } else if s == "whitesmoke"@ {
            Some(Color::spec_rgb(245, 245, 245))
        } else if s == "yellow"@ {
            Some(Color::spec_rgb(255, 255, 0))
        } else if s == "yellowgreen"@ {
            Some(Color::spec_rgb(154, 205, 50))
        } else {
            None
        }
    }

    fn parse(s: &str) -> (r: Option<Self>) {
        if str_eq(s, "transparent") {
            Some(Color::transparent())
        } else if str_eq(s, "aliceblue") {
            Some(Color::rgb(240, 248, 255))
        } else if str_eq(s, "antiquewhite") {
            Some(Color::rgb(250, 235, 215))
        } else if str_eq(s, "aqua") {
            Some(Color::rgb(0, 255, 255))
        } else if str_eq(s, "aquamarine") {
            Some(Color::rgb(127, 255, 212))
        } else if str_eq(s, "azure") {
            Some(Color::rgb(240, 255, 255))
        } else if str_eq(s, "beige") {
            Some(Color::rgb(245, 245, 220))
        } else if str_eq(s, "bisque") {
            Some(Color::rgb(255, 228, 196))
        } else if str_eq(s, "black") {
            Some(Color::rgb(0, 0, 0))
        } else if str_eq(s, "blanchedalmond") {
            Some(Color::rgb(255, 235, 205))
        } else if str_eq(s, "blue") {
            Some(Color::rgb(0, 0, 255))
        } else if str_eq(s, "blueviolet") {
            Some(Color::rgb(138, 43, 226))
        } else if str_eq(s, "brown") {
            Some(Color::rgb(165, 42, 42))
        } else if str_eq(s, "burlywood") {
            Some(Color::rgb(222, 184, 135))
        } else if str_eq(s, "cadetblue") {
            Some(Color::rgb(95, 158, 160))
        } else if str_eq(s, "chartreuse") {
            Some(Color::rgb(127, 255, 0))
        } else if str_eq(s, "chocolate") {
            Some(Color::rgb(210, 105, 30))
        } else if str_eq(s, "coral") {
            Some(Color::rgb(255, 127, 80))
        } else if str_eq(s, "cornflowerblue") {
            Some(Color::rgb(100, 149, 237))
        } else if str_eq(s, "cornsilk") {
            Some(Color::rgb(255, 248, 220))
        } else if str_eq(s, "crimson") {
            Some(Color::rgb(220, 20, 60))
        } else if str_eq(s, "cyan") {
            Some(Color::rgb(0, 255, 255))
        } else if str_eq(s, "darkblue") {
            Some(Color::rgb(0, 0, 139))
        } else if str_eq(s, "darkcyan") {
            Some(Color::rgb(0, 139, 139))
        } else if str_eq(s, "darkgoldenrod") {
            Some(Color::rgb(184, 134, 11))
        } else if str_eq(s, "darkgray") {
            Some(Color::rgb(169, 169, 169))
        } else if str_eq(s, "darkgreen") {
            Some(Color::rgb(0, 100, 0))
        } else if str_eq(s, "darkgrey") {
            Some(Color::rgb(169, 169, 169))
        } else if str_eq(s, "darkkhaki") {
            Some(Color::rgb(189, 183, 107))
        } else if str_eq(s, "darkmagenta") {
            Some(Color::rgb(139, 0, 139))
        } else if str_eq(s, "darkolivegreen") {
            Some(Color::rgb(85, 107, 47))
        } else if str_eq(s, "darkorange") {
            Some(Color::rgb(255, 140, 0))
        } else if str_eq(s, "darkorchid") {
            Some(Color::rgb(153, 50, 204))
        } else if str_eq(s, "darkred") {
            Some(Color::rgb(139, 0, 0))
        } else if str_eq(s, "darksalmon") {
            Some(Color::rgb(233, 150, 122))
        } else if str_eq(s, "darkseagreen") {
            Some(Color::rgb(143, 188, 143))
        } else if str_eq(s, "darkslateblue") {
            Some(Color::rgb(72, 61, 139))
        } else if str_eq(s, "darkslategray") {
            Some(Color::rgb(47, 79, 79))
        } else if str_eq(s, "darkslategrey") {
            Some(Color::rgb(47, 79, 79))
        } else if str_eq(s, "darkturquoise") {
            Some(Color::rgb(0, 206, 209))
        } else if str_eq(s, "darkviolet") {
            Some(Color::rgb(148, 0, 211))
        } else if str_eq(s, "deeppink") {
            Some(Color::rgb(255, 20, 147))
        } else if str_eq(s, "deepskyblue") {
            Some(Color::rgb(0, 191, 255))
        } else if str_eq(s, "dimgray") {
            Some(Color::rgb(105, 105, 105))
        } else if str_eq(s, "dimgrey") {
            Some(Color::rgb(105, 105, 105))
        } else if str_eq(s, "dodgerblue") {
            Some(Color::rgb(30, 144, 255))
        } else if str_eq(s, "firebrick") {
            Some(Color::rgb(178, 34, 34))
        } else if str_eq(s, "floralwhite") {
            Some(Color::rgb(255, 250, 240))
        } else if str_eq(s, "forestgreen") {
            Some(Color::rgb(34, 139, 34))
        } else if str_eq(s, "fuchsia") {
            Some(Color::rgb(255, 0, 255))
        } else if str_eq(s, "gainsboro") {
            Some(Color::rgb(220, 220, 220))
        } else if str_eq(s, "ghostwhite") {
            Some(Color::rgb(248, 248, 255))
        } else if str_eq(s, "gold") {
            Some(Color::rgb(255, 215, 0))
        } else if str_eq(s, "goldenrod") {
            Some(Color::rgb(218, 165, 32))
        } else if str_eq(s, "gray") {
            Some(Color::rgb(128, 128, 128))
        } else if str_eq(s, "green") {
            Some(Color::rgb(0, 128, 0))
        } else if str_eq(s, "greenyellow") {
            Some(Color::rgb(173, 255, 47))
        } else if str_eq(s, "grey") {
            Some(Color::rgb(128, 128, 128))
        } else if str_eq(s, "honeydew") {
            Some(Color::rgb(240, 255, 240))
        } else if str_eq(s, "hotpink") {
            Some(Color::rgb(255, 105, 180))
        } else if str_eq(s, "indianred") {
            Some(Color::rgb(205, 92, 92))
        } else if str_eq(s, "indigo") {
            Some(Color::rgb(75, 0, 130))
        } else if str_eq(s, "ivory") {
            Some(Color::rgb(255, 255, 240))
        } else if str_eq(s, "khaki") {
            Some(Color::rgb(240, 230, 140))
        } else if str_eq(s, "lavender") {
            Some(Color::rgb(230, 230, 250))
        } else if str_eq(s, "lavenderblush") {
            Some(Color::rgb(255, 240, 245))
        } else if str_eq(s, "lawngreen") {
            Some(Color::rgb(124, 252, 0))
        } else if str_eq(s, "lemonchiffon") {
            Some(Color::rgb(255, 250, 205))
        } else if str_eq(s, "lightblue") {
            Some(Color::rgb(173, 216, 230))
        } else if str_eq(s, "lightcoral") {
            Some(Color::rgb(240, 128, 128))
        } else if str_eq(s, "lightcyan") {
            Some(Color::rgb(224, 255, 255))
        } else if str_eq(s, "lightgoldenrodyellow") {
            Some(Color::rgb(250, 250, 210))
        } else if str_eq(s, "lightgray") {
            Some(Color::rgb(211, 211, 211))
        } else if str_eq(s, "lightgreen") {
            Some(Color::rgb(144, 238, 144))
        } else if str_eq(s, "lightgrey") {
            Some(Color::rgb(211, 211, 211))
        } else if str_eq(s, "lightpink") {
            Some(Color::rgb(255, 182, 193))
        } else if str_eq(s, "lightsalmon") {
            Some(Color::rgb(255, 160, 122))
        } else if str_eq(s, "lightseagreen") {
            Some(Color::rgb(32, 178, 170))
        } else if str_eq(s, "lightskyblue") {
            Some(Color::rgb(135, 206, 250))
        } else if str_eq(s, "lightslategray") {
            Some(Color::rgb(119, 136, 153))
        } else if str_eq(s, "lightslategrey") {
            Some(Color::rgb(119, 136, 153))
        } else if str_eq(s, "lightsteelblue") {
            Some(Color::rgb(176, 196, 222))
        } else if str_eq(s, "lightyellow") {
            Some(Color::rgb(255, 255, 224))
        } else if str_eq(s, "lime") {
            Some(Color::rgb(0, 255, 0))
        } else if str_eq(s, "limegreen") {
            Some(Color::rgb(50, 205, 50))
        } else if str_eq(s, "linen") {
            Some(Color::rgb(250, 240, 230))
        } else if str_eq(s, "magenta") {
            Some(Color::rgb(255, 0, 255))
        } else if str_eq(s, "maroon") {
            Some(Color::rgb(128, 0, 0))
        } else if str_eq(s, "mediumaquamarine") {
            Some(Color::rgb(102, 205, 170))
        } else if str_eq(s, "mediumblue") {
            Some(Color::rgb(0, 0, 205))
        } else if str_eq(s, "mediumorchid") {
            Some(Color::rgb(186, 85, 211))
        } else if str_eq(s, "mediumpurple") {
            Some(Color::rgb(147, 112, 219))
        } else if str_eq(s, "mediumseagreen") {
            Some(Color::rgb(60, 179, 113))
        } else if str_eq(s, "mediumslateblue") {
            Some(Color::rgb(123, 104, 238))
        } else if str_eq(s, "mediumspringgreen") {
            Some(Color::rgb(0, 250, 154))
        } else if str_eq(s, "mediumturquoise") {
            Some(Color::rgb(72, 209, 204))
        } else if str_eq(s, "mediumvioletred") {
            Some(Color::rgb(199, 21, 133))
        } else if str_eq(s, "midnightblue") {
            Some(Color::rgb(25, 25, 112))
        } else if str_eq(s, "mintcream") {
            Some(Color::rgb(245, 255, 250))
        } else if str_eq(s, "mistyrose") {
            Some(Color::rgb(255, 228, 225))
        } else if str_eq(s, "moccasin") {
            Some(Color::rgb(255, 228, 181))
        } else if str_eq(s, "navajowhite") {
            Some(Color::rgb(255, 222, 173))
        } else if str_eq(s, "navy") {
            Some(Color::rgb(0, 0, 128))
        } else if str_eq(s, "oldlace") {
            Some(Color::rgb(253, 245, 230))
        } else if str_eq(s, "olive") {
            Some(Color::rgb(128, 128, 0))
        } else if str_eq(s, "olivedrab") {
            Some(Color::rgb(107, 142, 35))
        } else if str_eq(s, "orange") {
            Some(Color::rgb(255, 165, 0))
        } else if str_eq(s, "orangered") {
            Some(Color::rgb(255, 69, 0))
        } else if str_eq(s, "orchid") {
            Some(Color::rgb(218, 112, 214))
        } else if str_eq(s, "palegoldenrod") {
            Some(Color::rgb(238, 232, 170))
        } else if str_eq(s, "palegreen") {
            Some(Color::rgb(152, 251, 152))
        } else if str_eq(s, "paleturquoise") {
            Some(Color::rgb(175, 238, 238))
        } else if str_eq(s, "palevioletred") {
            Some(Color::rgb(219, 112, 147))
        } else if str_eq(s, "papayawhip") {
            Some(Color::rgb(255, 239, 213))
        } else if str_eq(s, "peachpuff") {
            Some(Color::rgb(255, 218, 185))
        } else if str_eq(s, "peru") {
            Some(Color::rgb(205, 133, 63))
        } else if str_eq(s, "pink") {
            Some(Color::rgb(255, 192, 203))
        } else if str_eq(s, "plum") {
            Some(Color::rgb(221, 160, 221))
        } else if str_eq(s, "powderblue") {
            Some(Color::rgb(176, 224, 230))
        } else if str_eq(s, "purple") {
            Some(Color::rgb(128, 0, 128))
        } else if str_eq(s, "rebeccapurple") {
            Some(Color::rgb(102, 51, 153))
        } else if str_eq(s, "red") {
            Some(Color::rgb(255, 0, 0))
        } else if str_eq(s, "rosybrown") {
            Some(Color::rgb(188, 143, 143))
        } else if str_eq(s, "royalblue") {
            Some(Color::rgb(65, 105, 225))
        } else if str_eq(s, "saddlebrown") {
            Some(Color::rgb(139, 69, 19))
        } else if str_eq(s, "salmon") {
            Some(Color::rgb(250, 128, 114))
        } else if str_eq(s, "sandybrown") {
            Some(Color::rgb(244, 164, 96))
        } else if str_eq(s, "seagreen") {
            Some(Color::rgb(46, 139, 87))
        } else if str_eq(s, "seashell") {
            Some(Color::rgb(255, 245, 238))
        } else if str_eq(s, "sienna") {
            Some(Color::rgb(160, 82, 45))
        } else if str_eq(s, "silver") {
            Some(Color::rgb(192, 192, 192))
        } else if str_eq(s, "skyblue") {
            Some(Color::rgb(135, 206, 235))
        } else if str_eq(s, "slateblue") {
            Some(Color::rgb(106, 90, 205))
        } else if str_eq(s, "slategray") {
            Some(Color::rgb(112, 128, 144))
        } else if str_eq(s, "slategrey") {
            Some(Color::rgb(112, 128, 144))
        } else if str_eq(s, "snow") {
            Some(Color::rgb(255, 250, 250))
        } else if str_eq(s, "springgreen") {
            Some(Color::rgb(0, 255, 127))
        } else if str_eq(s, "steelblue") {
            Some(Color::rgb(70, 130, 180))
        } else if str_eq(s, "tan") {
            Some(Color::rgb(210, 180, 140))
        } else if str_eq(s, "teal") {
            Some(Color::rgb(0, 128, 128))
        } else if str_eq(s, "thistle") {
            Some(Color::rgb(216, 191, 216))
        } else if str_eq(s, "tomato") {
            Some(Color::rgb(255, 99, 71))
        } else if str_eq(s, "turquoise") {
            Some(Color::rgb(64, 224, 208))
        } else if str_eq(s, "violet") {
            Some(Color::rgb(238, 130, 238))
        } else if str_eq(s, "wheat") {
            Some(Color::rgb(245, 222, 179))
        } else if str_eq(s, "white") {
            Some(Color::rgb(255, 255, 255))
        } else if str_eq(s, "whitesmoke") {
            Some(Color::rgb(245, 245, 245))
        } else if str_eq(s, "yellow") {
            Some(Color::rgb(255, 255, 0))
        } else if str_eq(s, "yellowgreen") {
            Some(Color::rgb(154, 205, 50))
        } else {
            None
        }
    }
}

} // verus!
