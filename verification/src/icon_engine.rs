use vstd::prelude::*;

verus! {

/// Predefined vector and system icon types.
#[derive(Debug, Clone, Copy, PartialEq, Eq, Structural)]
pub enum IconType {
    Chart,
    Settings,
    LightningHFT,
    ExportExcel,
    ExportPdf,
    SecurityShield,
    Bluetooth,
    WebRTC,
    USB,
    ThemePalette,
    NotificationBell,
}

/// The glyph drawn for each icon.
pub open spec fn icon_symbol(icon: IconType) -> Seq<char> {
    match icon {
        IconType::Chart => "📊"@,
        IconType::Settings => "⚙"@,
        IconType::LightningHFT => "⚡"@,
        IconType::ExportExcel => "📋"@,
        IconType::ExportPdf => "📄"@,
        IconType::SecurityShield => "🛡"@,
        IconType::Bluetooth => "📶"@,
        IconType::WebRTC => "🎥"@,
        IconType::USB => "🔌"@,
        IconType::ThemePalette => "🎨"@,
        IconType::NotificationBell => "🔔"@,
    }
}

impl IconType {
    /// The glyph drawn for this icon.
    pub fn symbol(&self) -> (glyph: &'static str)
        ensures
            glyph@ == icon_symbol(*self),
    {
        match self {
            IconType::Chart => "📊",
            IconType::Settings => "⚙",
            IconType::LightningHFT => "⚡",
            IconType::ExportExcel => "📋",
            IconType::ExportPdf => "📄",
            IconType::SecurityShield => "🛡",
            IconType::Bluetooth => "📶",
            IconType::WebRTC => "🎥",
            IconType::USB => "🔌",
            IconType::ThemePalette => "🎨",
            IconType::NotificationBell => "🔔",
        }
    }
}

/// RGBA-tinted icon library; the drawing itself is done by the UI layer.
pub struct IconEngine;

} // verus!
