use crate::catalog::catalog;
use crate::color::{hex_of, Rgb};
use vstd::prelude::*;

verus! {

/// One keyboard shortcut of the reference table.
#[derive(Debug)]
pub struct Keybinding {
    /// Modifier keys in the order they are shown; may be empty.
    pub modifiers: Vec<String>,
    /// The primary key, or a label for a range of keys such as "1-9".
    pub key: String,
    /// Short name of the bound action.
    pub function: String,
    /// One sentence on what the action does.
    pub description: String,
    /// The one section the shortcut is filed under.
    pub category: Category,
}

/// What a [`Keybinding`] holds, as plain texts.
#[verifier::ext_equal]
pub struct KeybindingView {
    pub modifiers: Seq<Seq<char>>,
    pub key: Seq<char>,
    pub function: Seq<char>,
    pub description: Seq<char>,
    pub category: Category,
}

impl View for Keybinding {
    type V = KeybindingView;

    open spec fn view(&self) -> KeybindingView {
        KeybindingView {
            modifiers: self.modifiers.deep_view(),
            key: self.key@,
            function: self.function@,
            description: self.description@,
            category: self.category,
        }
    }
}

impl DeepView for Keybinding {
    type V = KeybindingView;

    open spec fn deep_view(&self) -> KeybindingView {
        self@
    }
}

impl Clone for Keybinding {
    fn clone(&self) -> (copy: Self)
        ensures
            copy@ == self@,
    {
        let modifiers = self.modifiers.clone();
        assert(modifiers.deep_view() =~= self.modifiers.deep_view());
        Keybinding {
            modifiers,
            key: self.key.clone(),
            function: self.function.clone(),
            description: self.description.clone(),
            category: self.category,
        }
    }
}

/// The closed set of sections a shortcut can be filed under.
///
/// The declaration order is the order in which sections are shown.
#[derive(Debug, Clone, Copy, PartialEq, Eq, Hash, Structural)]
pub enum Category {
    Media,
    Screenshot,
    Applications,
    WindowManagement,
    Layout,
    Gaps,
    Navigation,
    Tags,
    System,
    Borders,
}

/// All categories in display order.
pub const DISPLAY_ORDER: [Category; 10] = [
    Category::Media,
    Category::Screenshot,
    Category::Applications,
    Category::WindowManagement,
    Category::Layout,
    Category::Gaps,
    Category::Navigation,
    Category::Tags,
    Category::System,
    Category::Borders,
];

/// All categories in display order.
pub open spec fn display_order() -> Seq<Category> {
    seq![
        Category::Media,
        Category::Screenshot,
        Category::Applications,
        Category::WindowManagement,
        Category::Layout,
        Category::Gaps,
        Category::Navigation,
        Category::Tags,
        Category::System,
        Category::Borders,
    ]
}

/// The one accent colour of each category.
pub open spec fn accent_of(category: Category) -> Rgb {
    match category {
        Category::Media => Rgb { r: 0xf3, g: 0x8b, b: 0xa8 },
        Category::Screenshot => Rgb { r: 0xfa, g: 0xb3, b: 0x87 },
        Category::Applications => Rgb { r: 0xf9, g: 0xe2, b: 0xaf },
        Category::WindowManagement => Rgb { r: 0xa6, g: 0xe3, b: 0xa1 },
        Category::Layout => Rgb { r: 0x94, g: 0xe2, b: 0xd5 },
        Category::Gaps => Rgb { r: 0x89, g: 0xb4, b: 0xfa },
        Category::Navigation => Rgb { r: 0xcb, g: 0xa6, b: 0xf7 },
        Category::Tags => Rgb { r: 0xf5, g: 0xc2, b: 0xe7 },
        Category::System => Rgb { r: 0xeb, g: 0xa0, b: 0xac },
        Category::Borders => Rgb { r: 0x93, g: 0x99, b: 0xb2 },
    }
}

impl Category {
    /// The heading shown above the section.
    pub open spec fn label(self) -> Seq<char> {
        match self {
            Category::Media => "Media Controls"@,
            Category::Screenshot => "Screenshots"@,
            Category::Applications => "Applications"@,
            Category::WindowManagement => "Window Management"@,
            Category::Layout => "Layout Management"@,
            Category::Gaps => "Gap Management"@,
            Category::Navigation => "Navigation"@,
            Category::Tags => "Tags & Workspaces"@,
            Category::System => "System"@,
            Category::Borders => "Borders"@,
        }
    }

    /// The accent colour of the section in `#rrggbb` notation.
    pub open spec fn hex_color(self) -> Seq<char> {
        hex_of(accent_of(self))
    }

    /// Position of the category in the display order, from 0.
    pub open spec fn rank(self) -> int {
        match self {
            Category::Media => 0,
            Category::Screenshot => 1,
            Category::Applications => 2,
            Category::WindowManagement => 3,
            Category::Layout => 4,
            Category::Gaps => 5,
            Category::Navigation => 6,
            Category::Tags => 7,
            Category::System => 8,
            Category::Borders => 9,
        }
    }

    pub fn as_str(&self) -> (label: &'static str)
        ensures
            label@ == self.label(),
    {
        match self {
            Category::Media => "Media Controls",
            Category::Screenshot => "Screenshots",
            Category::Applications => "Applications",
            Category::WindowManagement => "Window Management",
            Category::Layout => "Layout Management",
            Category::Gaps => "Gap Management",
            Category::Navigation => "Navigation",
            Category::Tags => "Tags & Workspaces",
            Category::System => "System",
            Category::Borders => "Borders",
        }
    }

    /// The accent colour in `#rrggbb` notation.
    pub fn color(&self) -> (hex: &'static str)
        ensures
            hex@ == self.hex_color(),
    {
        let hex = match self {
            Category::Media => "#f38ba8",  // Red
            Category::Screenshot => "#fab387",  // Orange
            Category::Applications => "#f9e2af",  // Yellow
            Category::WindowManagement => "#a6e3a1",  // Green
            Category::Layout => "#94e2d5",  // Teal
            Category::Gaps => "#89b4fa",  // Blue
            Category::Navigation => "#cba6f7",  // Purple
            Category::Tags => "#f5c2e7",  // Pink
            Category::System => "#eba0ac",  // Maroon
            Category::Borders => "#9399b2",  // Overlay1
        };
        proof {
            reveal_strlit("#f38ba8");
            reveal_strlit("#fab387");
            reveal_strlit("#f9e2af");
            reveal_strlit("#a6e3a1");
            reveal_strlit("#94e2d5");
            reveal_strlit("#89b4fa");
            reveal_strlit("#cba6f7");
            reveal_strlit("#f5c2e7");
            reveal_strlit("#eba0ac");
            reveal_strlit("#9399b2");
            assert(hex@ =~= self.hex_color());
        }
        hex
    }

    /// The accent colour by its red, green and blue parts.
    pub fn accent(&self) -> (color: Rgb)
        ensures
            color == accent_of(*self),
    {
        match self {
            Category::Media => Rgb { r: 0xf3, g: 0x8b, b: 0xa8 },  // Red
            Category::Screenshot => Rgb { r: 0xfa, g: 0xb3, b: 0x87 },  // Orange
            Category::Applications => Rgb { r: 0xf9, g: 0xe2, b: 0xaf },  // Yellow
            Category::WindowManagement => Rgb { r: 0xa6, g: 0xe3, b: 0xa1 },  // Green
            Category::Layout => Rgb { r: 0x94, g: 0xe2, b: 0xd5 },  // Teal
            Category::Gaps => Rgb { r: 0x89, g: 0xb4, b: 0xfa },  // Blue
            Category::Navigation => Rgb { r: 0xcb, g: 0xa6, b: 0xf7 },  // Purple
            Category::Tags => Rgb { r: 0xf5, g: 0xc2, b: 0xe7 },  // Pink
            Category::System => Rgb { r: 0xeb, g: 0xa0, b: 0xac },  // Maroon
            Category::Borders => Rgb { r: 0x93, g: 0x99, b: 0xb2 },  // Overlay1
        }
    }
}

/// The fixed table of shortcuts, the same on every call.
pub fn get_keybindings() -> (table: Vec<Keybinding>)
    ensures
        table.deep_view() == catalog(),
{
    let table = vec![
        // Media Controls
        Keybinding {
            modifiers: vec![],
            key: "XF86AudioLowerVolume".to_string(),
            function: "Volume Down".to_string(),
            description: "Decrease volume by 5%".to_string(),
            category: Category::Media,
        },
        Keybinding {
            modifiers: vec![],
            key: "XF86AudioRaiseVolume".to_string(),
            function: "Volume Up".to_string(),
            description: "Increase volume by 5%".to_string(),
            category: Category::Media,
        },
        Keybinding {
            modifiers: vec![],
            key: "XF86AudioMute".to_string(),
            function: "Mute Toggle".to_string(),
            description: "Toggle audio mute".to_string(),
            category: Category::Media,
        },
        Keybinding {
            modifiers: vec![],
            key: "XF86MonBrightnessUp".to_string(),
            function: "Brightness Up".to_string(),
            description: "Increase screen brightness".to_string(),
            category: Category::Media,
        },
        Keybinding {
            modifiers: vec![],
            key: "XF86MonBrightnessDown".to_string(),
            function: "Brightness Down".to_string(),
            description: "Decrease screen brightness".to_string(),
            category: Category::Media,
        },
        Keybinding {
            modifiers: vec![],
            key: "XF86AudioPlay".to_string(),
            function: "Play/Pause".to_string(),
            description: "Toggle media playback".to_string(),
            category: Category::Media,
        },
        Keybinding {
            modifiers: vec![],
            key: "XF86AudioNext".to_string(),
            function: "Next Track".to_string(),
            description: "Skip to next track".to_string(),
            category: Category::Media,
        },
        Keybinding {
            modifiers: vec![],
            key: "XF86AudioPrev".to_string(),
            function: "Previous Track".to_string(),
            description: "Go to previous track".to_string(),
            category: Category::Media,
        },

        // Screenshots
        Keybinding {
            modifiers: vec!["Super".to_string(), "Ctrl".to_string()],
            key: "u".to_string(),
            function: "Screenshot (Full)".to_string(),
            description: "Take fullscreen screenshot to clipboard".to_string(),
            category: Category::Screenshot,
        },
        Keybinding {
            modifiers: vec!["Super".to_string()],
            key: "u".to_string(),
            function: "Screenshot (Select)".to_string(),
            description: "Take selected area screenshot to clipboard".to_string(),
            category: Category::Screenshot,
        },
        Keybinding {
            modifiers: vec!["Super".to_string(), "Alt".to_string()],
            key: "s".to_string(),
            function: "Screenshot Menu".to_string(),
            description: "Open screenshot utility menu".to_string(),
            category: Category::Screenshot,
        },

        // Applications
        Keybinding {
            modifiers: vec!["Super".to_string()],
            key: "b".to_string(),
            function: "Browser".to_string(),
            description: "Launch Firefox browser".to_string(),
            category: Category::Applications,
        },
        Keybinding {
            modifiers: vec!["Super".to_string()],
            key: "e".to_string(),
            function: "File Manager".to_string(),
            description: "Launch PCManFM file manager".to_string(),
            category: Category::Applications,
        },
        Keybinding {
            modifiers: vec!["Super".to_string(), "Shift".to_string()],
            key: "e".to_string(),
            function: "Code Editor".to_string(),
            description: "Launch VS Code".to_string(),
            category: Category::Applications,
        },
        Keybinding {
            modifiers: vec!["Super".to_string()],
            key: "Return".to_string(),
            function: "Terminal".to_string(),
            description: "Launch Kitty terminal".to_string(),
            category: Category::Applications,
        },
        Keybinding {
            modifiers: vec!["Super".to_string(), "Shift".to_string()],
            key: "Return".to_string(),
            function: "App Launcher".to_string(),
            description: "Open Rofi application launcher".to_string(),
            category: Category::Applications,
        },
        Keybinding {
            modifiers: vec!["Super".to_string(), "Alt".to_string()],
            key: "e".to_string(),
            function: "EWW Widget".to_string(),
            description: "Open EWW widget".to_string(),
            category: Category::Applications,
        },

        // Window Management
        Keybinding {
            modifiers: vec!["Super".to_string()],
            key: "c".to_string(),
            function: "Kill Window".to_string(),
            description: "Close the focused window".to_string(),
            category: Category::WindowManagement,
        },
        Keybinding {
            modifiers: vec!["Super".to_string(), "Shift".to_string()],
            key: "Space".to_string(),
            function: "Toggle Floating".to_string(),
            description: "Toggle floating mode for focused window".to_string(),
            category: Category::WindowManagement,
        },
        Keybinding {
            modifiers: vec!["Super".to_string()],
            key: "f".to_string(),
            function: "Toggle Fullscreen".to_string(),
            description: "Toggle fullscreen for focused window".to_string(),
            category: Category::WindowManagement,
        },
        Keybinding {
            modifiers: vec!["Super".to_string()],
            key: "n".to_string(),
            function: "Hide Window".to_string(),
            description: "Hide the focused window".to_string(),
            category: Category::WindowManagement,
        },
        Keybinding {
            modifiers: vec!["Super".to_string(), "Shift".to_string()],
            key: "n".to_string(),
            function: "Restore Window".to_string(),
            description: "Restore hidden window".to_string(),
            category: Category::WindowManagement,
        },
        Keybinding {
            modifiers: vec!["Super".to_string(), "Shift".to_string()],
            key: "Return".to_string(),
            function: "Zoom Master".to_string(),
            description: "Move window to/from master area".to_string(),
            category: Category::WindowManagement,
        },

        // Navigation
        Keybinding {
            modifiers: vec!["Super".to_string()],
            key: "j".to_string(),
            function: "Focus Next".to_string(),
            description: "Focus next window in stack".to_string(),
            category: Category::Navigation,
        },
        Keybinding {
            modifiers: vec!["Super".to_string()],
            key: "k".to_string(),
            function: "Focus Previous".to_string(),
            description: "Focus previous window in stack".to_string(),
            category: Category::Navigation,
        },
        Keybinding {
            modifiers: vec!["Super".to_string(), "Shift".to_string()],
            key: "j".to_string(),
            function: "Move Down".to_string(),
            description: "Move window down in stack".to_string(),
            category: Category::Navigation,
        },
        Keybinding {
            modifiers: vec!["Super".to_string(), "Shift".to_string()],
            key: "k".to_string(),
            function: "Move Up".to_string(),
            description: "Move window up in stack".to_string(),
            category: Category::Navigation,
        },
        Keybinding {
            modifiers: vec!["Super".to_string()],
            key: "Left".to_string(),
            function: "Previous Tag".to_string(),
            description: "Switch to previous tag".to_string(),
            category: Category::Navigation,
        },
        Keybinding {
            modifiers: vec!["Super".to_string()],
            key: "Right".to_string(),
            function: "Next Tag".to_string(),
            description: "Switch to next tag".to_string(),
            category: Category::Navigation,
        },
        Keybinding {
            modifiers: vec!["Super".to_string()],
            key: "Tab".to_string(),
            function: "Last Tag".to_string(),
            description: "Switch to last viewed tag".to_string(),
            category: Category::Navigation,
        },

        // Layout Management
        Keybinding {
            modifiers: vec!["Super".to_string()],
            key: "h".to_string(),
            function: "Shrink Master".to_string(),
            description: "Decrease master area size".to_string(),
            category: Category::Layout,
        },
        Keybinding {
            modifiers: vec!["Super".to_string()],
            key: "l".to_string(),
            function: "Expand Master".to_string(),
            description: "Increase master area size".to_string(),
            category: Category::Layout,
        },
        Keybinding {
            modifiers: vec!["Super".to_string()],
            key: "i".to_string(),
            function: "Inc Master".to_string(),
            description: "Increase number of masters".to_string(),
            category: Category::Layout,
        },
        Keybinding {
            modifiers: vec!["Super".to_string()],
            key: "t".to_string(),
            function: "Dwindle Layout".to_string(),
            description: "Set layout to dwindle".to_string(),
            category: Category::Layout,
        },
        Keybinding {
            modifiers: vec!["Super".to_string(), "Shift".to_string()],
            key: "f".to_string(),
            function: "Grid Layout".to_string(),
            description: "Set layout to grid".to_string(),
            category: Category::Layout,
        },
        Keybinding {
            modifiers: vec!["Super".to_string()],
            key: "Space".to_string(),
            function: "Cycle Layout".to_string(),
            description: "Cycle through layouts".to_string(),
            category: Category::Layout,
        },

        // Gap Management
        Keybinding {
            modifiers: vec!["Super".to_string(), "Ctrl".to_string()],
            key: "t".to_string(),
            function: "Toggle Gaps".to_string(),
            description: "Toggle gaps on/off".to_string(),
            category: Category::Gaps,
        },
        Keybinding {
            modifiers: vec!["Super".to_string(), "Ctrl".to_string()],
            key: "i".to_string(),
            function: "Increase All Gaps".to_string(),
            description: "Increase all gaps".to_string(),
            category: Category::Gaps,
        },
        Keybinding {
            modifiers: vec!["Super".to_string(), "Ctrl".to_string()],
            key: "d".to_string(),
            function: "Decrease All Gaps".to_string(),
            description: "Decrease all gaps".to_string(),
            category: Category::Gaps,
        },
        Keybinding {
            modifiers: vec!["Super".to_string(), "Ctrl".to_string(), "Shift".to_string()],
            key: "d".to_string(),
            function: "Default Gaps".to_string(),
            description: "Reset gaps to default".to_string(),
            category: Category::Gaps,
        },

        // Tags (1-9)
        Keybinding {
            modifiers: vec!["Super".to_string()],
            key: "1-9".to_string(),
            function: "View Tag".to_string(),
            description: "Switch to tag 1-9".to_string(),
            category: Category::Tags,
        },
        Keybinding {
            modifiers: vec!["Super".to_string(), "Shift".to_string()],
            key: "1-9".to_string(),
            function: "Move to Tag".to_string(),
            description: "Move window to tag 1-9".to_string(),
            category: Category::Tags,
        },
        Keybinding {
            modifiers: vec!["Super".to_string(), "Ctrl".to_string()],
            key: "1-9".to_string(),
            function: "Toggle Tag View".to_string(),
            description: "Toggle view of tag 1-9".to_string(),
            category: Category::Tags,
        },

        // System
        Keybinding {
            modifiers: vec!["Super".to_string(), "Ctrl".to_string()],
            key: "q".to_string(),
            function: "Quit DWM".to_string(),
            description: "Kill dwm and bar".to_string(),
            category: Category::System,
        },
        Keybinding {
            modifiers: vec!["Super".to_string(), "Shift".to_string()],
            key: "r".to_string(),
            function: "Restart DWM".to_string(),
            description: "Restart dwm".to_string(),
            category: Category::System,
        },
        Keybinding {
            modifiers: vec!["Alt".to_string()],
            key: "l".to_string(),
            function: "Lock Screen".to_string(),
            description: "Lock the screen".to_string(),
            category: Category::System,
        },
        Keybinding {
            modifiers: vec!["Alt".to_string()],
            key: "x".to_string(),
            function: "Power Menu".to_string(),
            description: "Open power menu".to_string(),
            category: Category::System,
        },
        Keybinding {
            modifiers: vec!["Super".to_string()],
            key: "m".to_string(),
            function: "Keyboard Layout".to_string(),
            description: "Switch keyboard layout".to_string(),
            category: Category::System,
        },

        // Borders
        Keybinding {
            modifiers: vec!["Super".to_string(), "Shift".to_string()],
            key: "minus".to_string(),
            function: "Decrease Border".to_string(),
            description: "Decrease border width".to_string(),
            category: Category::Borders,
        },
        Keybinding {
            modifiers: vec!["Super".to_string(), "Shift".to_string()],
            key: "p".to_string(),
            function: "Increase Border".to_string(),
            description: "Increase border width".to_string(),
            category: Category::Borders,
        },
        Keybinding {
            modifiers: vec!["Super".to_string(), "Shift".to_string()],
            key: "w".to_string(),
            function: "Default Border".to_string(),
            description: "Reset border to default".to_string(),
            category: Category::Borders,
        },
    ];
    assert(table.deep_view() =~~= catalog());
    table
}

} // verus!
