//! Configuration of the virtual display, encoder and server.

use vstd::prelude::*;

verus! {

use vstd::string::{StringExecFns, StringSliceAdditionalSpecFns};

/// Position of the virtual display relative to the primary display.
#[derive(Debug, Clone, Copy, PartialEq, Eq, Structural)]
pub enum DisplayPosition {
    RightOf,
    LeftOf,
    Above,
    Below,
}

impl DisplayPosition {
    /// The xrandr argument naming this position.
    pub fn as_xrandr_arg(&self) -> (r: &'static str)
        ensures
            *self == DisplayPosition::RightOf ==> r@ == "--right-of"@,
            *self == DisplayPosition::LeftOf ==> r@ == "--left-of"@,
            *self == DisplayPosition::Above ==> r@ == "--above"@,
            *self == DisplayPosition::Below ==> r@ == "--below"@,
    {
        match self {
            DisplayPosition::RightOf => "--right-of",
            DisplayPosition::LeftOf => "--left-of",
            DisplayPosition::Above => "--above",
            DisplayPosition::Below => "--below",
        }
    }
}

/// Main configuration: display geometry, frame rate, port and bitrate.
#[derive(Debug, Clone)]
pub struct Config {
    /// Virtual display width in pixels
    pub width: u32,
    /// Virtual display height in pixels
    pub height: u32,
    /// Target frame rate
    pub fps: u32,
    /// Server port
    pub port: u16,
    /// Position relative to primary display
    pub position: DisplayPosition,
    /// Video bitrate in kbps
    pub bitrate: u32,
    /// Primary display name (auto-detected if None)
    pub primary_display: Option<String>,
    /// Virtual display output name (auto-detected if None)
    pub virtual_output: Option<String>,
    /// Mirror mode: capture the primary display instead of creating a virtual one
    pub mirror_mode: bool,
}

/// The default configuration: 1920x1080 at 60 fps on port 8443, 8000 kbps.
pub open spec fn default_config() -> Config {
    Config {
        width: 1920,
        height: 1080,
        fps: 60,
        port: 8443,
        position: DisplayPosition::RightOf,
        bitrate: 8000,
        primary_display: None,
        virtual_output: None,
        mirror_mode: false,
    }
}

impl Default for Config {
    fn default() -> (r: Self)
        ensures
            r == default_config(),
    {
        Config {
            width: 1920,
            height: 1080,
            fps: 60,
            port: 8443,
            position: DisplayPosition::RightOf,
            bitrate: 8000,
            primary_display: None,
            virtual_output: None,
            mirror_mode: false,
        }
    }
}

impl Config {
    /// Create a new configuration with default values.
    pub fn new() -> (r: Self)
        ensures
            r == default_config(),
    {
        Self::default()
    }

    /// Builder pattern: set width.
    pub fn with_width(self, width: u32) -> (r: Self)
        ensures
            r == (Config { width, ..self }),
    {
        Config { width, ..self }
    }

    /// Builder pattern: set height.
    pub fn with_height(self, height: u32) -> (r: Self)
        ensures
            r == (Config { height, ..self }),
    {
        Config { height, ..self }
    }

    /// Builder pattern: set frame rate.
    pub fn with_fps(self, fps: u32) -> (r: Self)
        ensures
            r == (Config { fps, ..self }),
    {
        Config { fps, ..self }
    }

    /// Builder pattern: set port.
    pub fn with_port(self, port: u16) -> (r: Self)
        ensures
            r == (Config { port, ..self }),
    {
        Config { port, ..self }
    }

    /// Builder pattern: set position.
    pub fn with_position(self, position: DisplayPosition) -> (r: Self)
        ensures
            r == (Config { position, ..self }),
    {
        Config { position, ..self }
    }

    /// Builder pattern: set bitrate.
    pub fn with_bitrate(self, bitrate: u32) -> (r: Self)
        ensures
            r == (Config { bitrate, ..self }),
    {
        Config { bitrate, ..self }
    }

    /// Builder pattern: set mirror mode.
    pub fn with_mirror_mode(self, mirror: bool) -> (r: Self)
        ensures
            r == (Config { mirror_mode: mirror, ..self }),
    {
        Config { mirror_mode: mirror, ..self }
    }

    /// Bytes per frame in BGRA format: four bytes per pixel.
    pub fn frame_size_bytes(&self) -> (r: usize)
        requires
            crate::frame_bytes(self.width, self.height) <= usize::MAX,
        ensures
            r == crate::frame_bytes(self.width, self.height),
    {
        (self.width as usize) * (self.height as usize) * 4
    }

    /// The xrandr mode name: width, an `x`, height, and the fixed suffix.
    pub fn mode_name(&self) -> (r: String)
        ensures
            r@ == crate::text::dec_str(self.width as int) + seq!['x'] + crate::text::dec_str(
                self.height as int,
            ) + "_linglide"@,
    {
        let mut s = crate::text::u32_to_decimal(self.width);
        s.push('x');
        let h = crate::text::u32_to_decimal(self.height);
        s.append(h.as_str());
        s.append("_linglide");
        proof {
            assert(s@ =~= crate::text::dec_str(self.width as int) + seq!['x']
                + crate::text::dec_str(self.height as int) + "_linglide"@);
        }
        s
    }
}


/// The bytes of a position keyword after lowercasing that name each
/// position: `right-of` and `right`, `left-of` and `left`, `above` and
/// `top`, `below` and `bottom`; anything else is refused.
pub open spec fn spec_parse_position(bytes: Seq<u8>) -> Option<DisplayPosition> {
    let low = crate::text::ascii_lower_bytes(bytes);
    if low == kw_right_of() || low == kw_right() {
        Some(DisplayPosition::RightOf)
    } else if low == kw_left_of() || low == kw_left() {
        Some(DisplayPosition::LeftOf)
    } else if low == kw_above() || low == kw_top() {
        Some(DisplayPosition::Above)
    } else if low == kw_below() || low == kw_bottom() {
        Some(DisplayPosition::Below)
    } else {
        None
    }
}

/// The bytes of the keyword `right-of`.
pub open spec fn kw_right_of() -> Seq<u8> {
    seq!['r' as u8, 'i' as u8, 'g' as u8, 'h' as u8, 't' as u8, '-' as u8, 'o' as u8, 'f' as u8]
}

/// The bytes of the keyword `right`.
pub open spec fn kw_right() -> Seq<u8> {
    seq!['r' as u8, 'i' as u8, 'g' as u8, 'h' as u8, 't' as u8]
}

/// The bytes of the keyword `left-of`.
pub open spec fn kw_left_of() -> Seq<u8> {
    seq!['l' as u8, 'e' as u8, 'f' as u8, 't' as u8, '-' as u8, 'o' as u8, 'f' as u8]
}

/// The bytes of the keyword `left`.
pub open spec fn kw_left() -> Seq<u8> {
    seq!['l' as u8, 'e' as u8, 'f' as u8, 't' as u8]
}

/// The bytes of the keyword `above`.
pub open spec fn kw_above() -> Seq<u8> {
    seq!['a' as u8, 'b' as u8, 'o' as u8, 'v' as u8, 'e' as u8]
}

/// The bytes of the keyword `top`.
pub open spec fn kw_top() -> Seq<u8> {
    seq!['t' as u8, 'o' as u8, 'p' as u8]
}

/// The bytes of the keyword `below`.
pub open spec fn kw_below() -> Seq<u8> {
    seq!['b' as u8, 'e' as u8, 'l' as u8, 'o' as u8, 'w' as u8]
}

/// The bytes of the keyword `bottom`.
pub open spec fn kw_bottom() -> Seq<u8> {
    seq!['b' as u8, 'o' as u8, 't' as u8, 't' as u8, 'o' as u8, 'm' as u8]
}

fn kw_vec(a: &str) -> (r: Vec<u8>)
    ensures
        r@ == a.spec_bytes(),
{
    let mut v: Vec<u8> = Vec::new();
    v.extend_from_slice(a.as_bytes());
    proof {
        assert(v@ =~= a.spec_bytes());
    }
    v
}

impl DisplayPosition {
    /// Parses a position keyword, case-insensitively; an unrecognized word
    /// is refused with a message naming the accepted ones.
    pub fn parse(s: &str) -> (r: Result<DisplayPosition, String>)
        ensures
            r matches Ok(p) ==> spec_parse_position(s.spec_bytes()) == Some(p),
            r is Err <==> spec_parse_position(s.spec_bytes()) is None,
    {
        let low = crate::text::to_ascii_lower(s.as_bytes());
        let right_of = kw_vec("right-of");
        let right = kw_vec("right");
        let left_of = kw_vec("left-of");
        let left = kw_vec("left");
        let above = kw_vec("above");
        let top = kw_vec("top");
        let below = kw_vec("below");
        let bottom = kw_vec("bottom");
        proof {
            reveal_strlit("right-of");
            reveal_strlit("right");
            reveal_strlit("left-of");
            reveal_strlit("left");
            reveal_strlit("above");
            reveal_strlit("top");
            reveal_strlit("below");
            reveal_strlit("bottom");
            vstd::utf8::is_ascii_chars_encode_utf8(("right-of")@);
            vstd::utf8::is_ascii_chars_encode_utf8(("right")@);
            vstd::utf8::is_ascii_chars_encode_utf8(("left-of")@);
            vstd::utf8::is_ascii_chars_encode_utf8(("left")@);
            vstd::utf8::is_ascii_chars_encode_utf8(("above")@);
            vstd::utf8::is_ascii_chars_encode_utf8(("top")@);
            vstd::utf8::is_ascii_chars_encode_utf8(("below")@);
            vstd::utf8::is_ascii_chars_encode_utf8(("bottom")@);
            assert(("right-of").spec_bytes() =~= kw_right_of());
            assert(("right").spec_bytes() =~= kw_right());
            assert(("left-of").spec_bytes() =~= kw_left_of());
            assert(("left").spec_bytes() =~= kw_left());
            assert(("above").spec_bytes() =~= kw_above());
            assert(("top").spec_bytes() =~= kw_top());
            assert(("below").spec_bytes() =~= kw_below());
            assert(("bottom").spec_bytes() =~= kw_bottom());
        }
        if crate::text::bytes_eq(low.as_slice(), right_of.as_slice()) || crate::text::bytes_eq(
            low.as_slice(),
            right.as_slice(),
        ) {
            Ok(DisplayPosition::RightOf)
        } else if crate::text::bytes_eq(low.as_slice(), left_of.as_slice())
            || crate::text::bytes_eq(low.as_slice(), left.as_slice()) {
            Ok(DisplayPosition::LeftOf)
        } else if crate::text::bytes_eq(low.as_slice(), above.as_slice()) || crate::text::bytes_eq(
            low.as_slice(),
            top.as_slice(),
        ) {
            Ok(DisplayPosition::Above)
        } else if crate::text::bytes_eq(low.as_slice(), below.as_slice()) || crate::text::bytes_eq(
            low.as_slice(),
            bottom.as_slice(),
        ) {
            Ok(DisplayPosition::Below)
        } else {
            let mut msg = String::new();
            msg.append("Invalid position: ");
            msg.append(s);
            msg.append(". Use: right-of, left-of, above, below");
            Err(msg)
        }
    }
}

impl core::str::FromStr for DisplayPosition {
    type Err = String;

    fn from_str(s: &str) -> Result<Self, Self::Err> {
        DisplayPosition::parse(s)
    }
}

} // verus!
