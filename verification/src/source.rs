//! What the oscilloscope source declares to its host: its identity, its
//! settings with their defaults, and its property sheet.

use vstd::prelude::*;
use crate::control::{Message, MessageView, Settings, SettingsView};
use crate::properties::{Control, ControlKind, ControlView, TextType};

verus! {

/// The identifier the source is registered under.
pub const ID: &'static str = "ds1054z";

/// The name the source is shown under.
pub const NAME: &'static str = "Rigol DS1054Z";

/// The setting that holds the oscilloscope's address.
pub const ADDRESS_KEY: &'static str = "address";

/// The setting that holds whether to show black frames while disconnected.
pub const BLANK_KEY: &'static str = "blank";

/// The address of an oscilloscope that announces itself on the local network.
pub const DEFAULT_ADDRESS: &'static str = "ds1054z.local:555";

/// The settings a source has before its user has changed any.
pub open spec fn default_settings() -> SettingsView {
    SettingsView { address: DEFAULT_ADDRESS@, blank: true }
}

/// The settings a source has before its user has changed any.
pub fn get_defaults() -> (s: Settings)
    ensures
        s@ == default_settings(),
{
    Settings { address: DEFAULT_ADDRESS.to_owned(), blank: true }
}

/// The property sheet: a text line for the address, then a checkbox for the
/// black frames.
pub open spec fn property_sheet() -> Seq<ControlView> {
    seq![
        ControlView {
            name: ADDRESS_KEY@,
            description: "Oscilloscope address"@,
            kind: ControlKind::Text(TextType::Default),
        },
        ControlView {
            name: BLANK_KEY@,
            description: "Blank when disconnected."@,
            kind: ControlKind::Bool,
        },
    ]
}

/// The controls of the property sheet, in the order they are shown.
pub fn get_properties() -> (sheet: Vec<Control>)
    ensures
        sheet@.map_values(|c: Control| c@) == property_sheet(),
{
    let mut sheet: Vec<Control> = Vec::new();
    sheet.push(
        Control {
            name: ADDRESS_KEY,
            description: "Oscilloscope address",
            kind: ControlKind::Text(TextType::Default),
        },
    );
    sheet.push(
        Control { name: BLANK_KEY, description: "Blank when disconnected.", kind: ControlKind::Bool },
    );
    assert(sheet@.map_values(|c: Control| c@) =~= property_sheet());
    sheet
}

/// The message that tells a worker of the settings its host holds.
pub fn update(address: &str, blank: bool) -> (m: Message)
    ensures
        m@ == MessageView::Update(SettingsView { address: address@, blank }),
{
    Message::Update(Settings { address: address.to_owned(), blank })
}

} // verus!
