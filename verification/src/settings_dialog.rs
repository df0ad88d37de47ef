//! What the settings dialog does with the user's choices.

use vstd::prelude::*;
use crate::colors::{parse_hex_color, parsed_color, rgb_to_bgr, swapped_rgb};
use crate::display_type::DisplayType;
use crate::settings::FlipItSettings;

verus! {

/// A choice made in the settings dialog.
pub enum DialogCommand {
    /// OK: the size slider's position (0 to 10) and the colour box's text.
    Accept { slider: i32, color_text: String },
    /// Cancel, or the window closed.
    Cancel,
    /// The 12 hr (false) or 24 hr (true) button.
    SetClock24(bool),
    /// The daylight-time box, checked or not.
    SetShowDst(bool),
    /// A display-type button, with the index of the selected screen.
    SetDisplay { selected: usize, display: DisplayType },
}

/// What the dialog does next.
#[derive(Debug, Clone, Copy, PartialEq, Eq, Structural)]
pub enum DialogOutcome {
    /// Stays open.
    Stay,
    /// Closes.
    Close,
    /// Saves the settings and closes.
    SaveAndClose,
}

/// The colour kept when the colour box holds no colour: #B7B7B7.
pub open spec fn fallback_color() -> u32 {
    0x00b7b7b7
}

/// Applies a dialog choice to the settings: OK sets the scale to ten times
/// the slider and the colour to the typed one (#B7B7B7 when it is not a
/// colour) in GDI's byte order, then saves and closes; Cancel closes; the
/// clock buttons and the daylight box set their option; a display-type
/// button sets the selected screen's display type when there is such a
/// screen.
pub fn apply_dialog_command(settings: &mut FlipItSettings, cmd: DialogCommand) -> (r: DialogOutcome)
    requires
        cmd matches DialogCommand::Accept { slider, .. } ==> -214748364 <= slider <= 214748364,
    ensures
        match cmd {
            DialogCommand::Accept { slider, color_text } => {
                &&& r == DialogOutcome::SaveAndClose
                &&& final(settings).scale == slider * 10
                &&& final(settings).font_color == swapped_rgb(
                    match parsed_color(color_text@) {
                        Some(c) => c,
                        None => fallback_color(),
                    },
                )
                &&& final(settings).display_24h == old(settings).display_24h
                &&& final(settings).show_dst == old(settings).show_dst
                &&& final(settings).font_alpha == old(settings).font_alpha
                &&& final(settings).screen_settings == old(settings).screen_settings
            },
            DialogCommand::Cancel => r == DialogOutcome::Close && *final(settings) == *old(settings),
            DialogCommand::SetClock24(on) => {
                &&& r == DialogOutcome::Stay
                &&& *final(settings) == (FlipItSettings { display_24h: on, ..*old(settings) })
            },
            DialogCommand::SetShowDst(on) => {
                &&& r == DialogOutcome::Stay
                &&& *final(settings) == (FlipItSettings { show_dst: on, ..*old(settings) })
            },
            DialogCommand::SetDisplay { selected, display } => {
                &&& r == DialogOutcome::Stay
                &&& final(settings).display_24h == old(settings).display_24h
                &&& final(settings).show_dst == old(settings).show_dst
                &&& final(settings).scale == old(settings).scale
                &&& final(settings).font_color == old(settings).font_color
                &&& final(settings).font_alpha == old(settings).font_alpha
                &&& final(settings).screen_settings@.len() == old(settings).screen_settings@.len()
                &&& forall|i: int|
                    #![trigger final(settings).screen_settings@[i]]
                    0 <= i < old(settings).screen_settings@.len() ==> {
                        let before = old(settings).screen_settings@[i];
                        let after = final(settings).screen_settings@[i];
                        &&& after.screen_number == before.screen_number
                        &&& after.device_name == before.device_name
                        &&& after.width == before.width
                        &&& after.height == before.height
                        &&& after.locations == before.locations
                        &&& after.display_type == (if i == selected {
                            display
                        } else {
                            before.display_type
                        })
                    }
            },
        },
{
    match cmd {
        DialogCommand::Accept { slider, color_text } => {
            let color = match parse_hex_color(color_text.as_str()) {
                Some(c) => c,
                None => 0x00b7b7b7,
            };
            settings.scale = slider * 10;
            settings.font_color = rgb_to_bgr(color);
            DialogOutcome::SaveAndClose
        },
        DialogCommand::Cancel => DialogOutcome::Close,
        DialogCommand::SetClock24(on) => {
            settings.display_24h = on;
            DialogOutcome::Stay
        },
        DialogCommand::SetShowDst(on) => {
            settings.show_dst = on;
            DialogOutcome::Stay
        },
        DialogCommand::SetDisplay { selected, display } => {
            if selected < settings.screen_settings.len() {
                let mut screen = settings.screen_settings.remove(selected);
                screen.display_type = display;
                settings.screen_settings.insert(selected, screen);
            }
            DialogOutcome::Stay
        },
    }
}

} // verus!
