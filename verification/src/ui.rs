//! The palette of the window and the look of its drawn controls: which
//! colours a button takes in which state, and the icons it can carry.

use vstd::prelude::*;

verus! {

/// A colour packed as `0xRRGGBBAA`; opaque colours carry alpha `0xFF`.
pub type Rgba = u32;

/// Window background.
pub const BG: Rgba = 0x15171CFF;
/// Header strip under the system title bar.
pub const HEADER: Rgba = 0x1A1D23FF;
/// Status card, secondary button.
pub const CARD: Rgba = 0x1E2127FF;
/// Secondary button under the pointer.
pub const CARD_HOVER: Rgba = 0x262A31FF;
/// Secondary button held down.
pub const CARD_ACTIVE: Rgba = 0x2E333BFF;
/// Input field, collapsed list.
pub const FIELD: Rgba = 0x14171BFF;
/// Log background, the deepest surface.
pub const LOG_BG: Rgba = 0x101215FF;
pub const LINE: Rgba = 0x2C3037FF;
pub const LINE_SOFT: Rgba = 0x262A31FF;
pub const LINE_HOVER: Rgba = 0x3A404AFF;
pub const TEXT: Rgba = 0xE4E6EAFF;
pub const TEXT_2: Rgba = 0xC6CBD3FF;
pub const TEXT_DIM: Rgba = 0x8C94A0FF;
/// Accent: the primary button and the "running" state.
pub const ACCENT: Rgba = 0x62A97BFF;
/// Text in the accent state on a dark background.
pub const ACCENT_TEXT: Rgba = 0x8FCBA4FF;
/// Status card background while the proxy runs.
pub const ACCENT_BG: Rgba = 0x1B2621FF;
/// Frame of that card.
pub const ACCENT_LINE: Rgba = 0x2F4739FF;
/// Secondary text on the accent background.
pub const ACCENT_DIM: Rgba = 0x93A79AFF;
/// Text on an accent fill.
pub const ON_ACCENT: Rgba = 0x0E1311FF;
pub const WARN: Rgba = 0xD8A648FF;
pub const WARN_LINE: Rgba = 0x8A6A28FF;
pub const WARN_BG: Rgba = 0x2A2418FF;
pub const WARN_ICON: Rgba = 0xE0B96AFF;
pub const ERR: Rgba = 0xDE6F65FF;
pub const ERR_TEXT: Rgba = 0xE8867CFF;
pub const DISABLED_BG: Rgba = 0x191C21FF;
pub const DISABLED_LINE: Rgba = 0x23272DFF;
pub const DISABLED_TEXT: Rgba = 0x5E646EFF;
/// Fully transparent: no outline is drawn in this colour.
pub const TRANSPARENT: Rgba = 0x00000000;
/// Primary button that cannot be pressed.
pub const PRIMARY_DISABLED_BG: Rgba = 0x2A3730FF;
pub const PRIMARY_DISABLED_TEXT: Rgba = 0x6A7167FF;
/// Primary button held down.
pub const PRIMARY_PRESSED: Rgba = 0x53936AFF;
/// Primary button under the pointer.
pub const PRIMARY_HOVER: Rgba = 0x6FB888FF;

/// Icons drawn by the window's painter.
#[derive(Clone, Copy, PartialEq, Eq, Structural, Debug)]
pub enum Icon {
    /// Triangle: "launch".
    Play,
    /// Circle with an arrow: "bring the proxy up".
    Restart,
    /// Square: "stop".
    Stop,
    /// Two frames: "copy".
    Copy,
    /// Folder: "browse".
    Folder,
    /// Triangle with an exclamation mark: warning.
    Warn,
    /// Corner mark in the header.
    Mark,
}

/// Fill, outline and foreground of a button.
#[derive(Clone, Copy, PartialEq, Eq, Structural, Debug)]
pub struct ButtonColors {
    pub fill: Rgba,
    pub line: Rgba,
    pub fg: Rgba,
}

/// The colours of an action button. A button that cannot be pressed reacts
/// neither to the pointer hovering it nor to a press; a held press shows
/// before hovering.
pub open spec fn action_palette(primary: bool, enabled: bool, down: bool, hovered: bool) -> ButtonColors {
    if primary {
        if !enabled {
            ButtonColors { fill: PRIMARY_DISABLED_BG, line: TRANSPARENT, fg: PRIMARY_DISABLED_TEXT }
        } else if down {
            ButtonColors { fill: PRIMARY_PRESSED, line: TRANSPARENT, fg: ON_ACCENT }
        } else if hovered {
            ButtonColors { fill: PRIMARY_HOVER, line: TRANSPARENT, fg: ON_ACCENT }
        } else {
            ButtonColors { fill: ACCENT, line: TRANSPARENT, fg: ON_ACCENT }
        }
    } else {
        if !enabled {
            ButtonColors { fill: DISABLED_BG, line: DISABLED_LINE, fg: DISABLED_TEXT }
        } else if down {
            ButtonColors { fill: CARD_ACTIVE, line: LINE_HOVER, fg: TEXT }
        } else if hovered {
            ButtonColors { fill: CARD_HOVER, line: LINE_HOVER, fg: TEXT }
        } else {
            ButtonColors { fill: CARD, line: LINE, fg: TEXT_2 }
        }
    }
}

/// Colours of an action button; `pointer_down` and `hovered` are what the
/// pointer does over it, whether or not the button can be pressed.
pub fn action_button_colors(primary: bool, enabled: bool, pointer_down: bool, hovered: bool) -> (r:
    ButtonColors)
    ensures
        r == action_palette(primary, enabled, pointer_down, hovered),
{
    let hovered = enabled && hovered;
    let pressed = enabled && pointer_down;
    if primary {
        if !enabled {
            ButtonColors { fill: PRIMARY_DISABLED_BG, line: TRANSPARENT, fg: PRIMARY_DISABLED_TEXT }
        } else if pressed {
            ButtonColors { fill: PRIMARY_PRESSED, line: TRANSPARENT, fg: ON_ACCENT }
        } else if hovered {
            ButtonColors { fill: PRIMARY_HOVER, line: TRANSPARENT, fg: ON_ACCENT }
        } else {
            ButtonColors { fill: ACCENT, line: TRANSPARENT, fg: ON_ACCENT }
        }
    } else {
        if !enabled {
            ButtonColors { fill: DISABLED_BG, line: DISABLED_LINE, fg: DISABLED_TEXT }
        } else if pressed {
            ButtonColors { fill: CARD_ACTIVE, line: LINE_HOVER, fg: TEXT }
        } else if hovered {
            ButtonColors { fill: CARD_HOVER, line: LINE_HOVER, fg: TEXT }
        } else {
            ButtonColors { fill: CARD, line: LINE, fg: TEXT_2 }
        }
    }
}

/// Whether an outline is drawn in `line`: a transparent one is left out.
pub fn draws_outline(line: Rgba) -> (r: bool)
    ensures
        r == (line != TRANSPARENT),
{
    line != TRANSPARENT
}

/// What an icon-only button draws: its background, its outline and the
/// tint of the icon.
#[derive(Clone, Copy, PartialEq, Eq, Structural, Debug)]
pub struct IconButtonLook {
    pub fill: Option<Rgba>,
    pub outline: Option<Rgba>,
    pub tint: Rgba,
}

/// The look of an icon-only button. A framed button keeps its outline and
/// darkens while held, lightens while hovered; an unframed one shows a card
/// background only while hovered. A hovered icon is drawn in full text
/// colour.
pub fn icon_button_look(frame: Option<(Rgba, Rgba)>, pointer_down: bool, hovered: bool, tint: Rgba) -> (r:
    IconButtonLook)
    ensures
        r.tint == (if hovered { TEXT } else { tint }),
        match frame {
            Some((fill, line)) => {
                &&& r.outline == Some(line)
                &&& r.fill == Some(
                    if pointer_down {
                        CARD_ACTIVE
                    } else if hovered {
                        CARD_HOVER
                    } else {
                        fill
                    },
                )
            },
            None => {
                &&& r.outline is None
                &&& r.fill == (if hovered { Some(CARD) } else { None })
            },
        },
{
    let tint = if hovered { TEXT } else { tint };
    match frame {
        Some((fill, line)) => {
            let fill = if pointer_down {
                CARD_ACTIVE
            } else if hovered {
                CARD_HOVER
            } else {
                fill
            };
            IconButtonLook { fill: Some(fill), outline: Some(line), tint }
        },
        None => {
            if hovered {
                IconButtonLook { fill: Some(CARD), outline: None, tint }
            } else {
                IconButtonLook { fill: None, outline: None, tint }
            }
        },
    }
}

} // verus!
