use crate::keybindings::{Category, KeybindingView};
use vstd::prelude::*;

verus! {

/// One row of the table below.
pub open spec fn entry(
    modifiers: Seq<Seq<char>>,
    key: Seq<char>,
    function: Seq<char>,
    description: Seq<char>,
    category: Category,
) -> KeybindingView {
    KeybindingView { modifiers, key, function, description, category }
}

/// The shortcuts filed under "Media Controls".
pub open spec fn media_controls() -> Seq<KeybindingView> {
    seq![
        entry(
            seq![],
            "XF86AudioLowerVolume"@,
            "Volume Down"@,
            "Decrease volume by 5%"@,
            Category::Media,
        ),
        entry(
            seq![],
            "XF86AudioRaiseVolume"@,
            "Volume Up"@,
            "Increase volume by 5%"@,
            Category::Media,
        ),
        entry(
            seq![],
            "XF86AudioMute"@,
            "Mute Toggle"@,
            "Toggle audio mute"@,
            Category::Media,
        ),
        entry(
            seq![],
            "XF86MonBrightnessUp"@,
            "Brightness Up"@,
            "Increase screen brightness"@,
            Category::Media,
        ),
        entry(
            seq![],
            "XF86MonBrightnessDown"@,
            "Brightness Down"@,
            "Decrease screen brightness"@,
            Category::Media,
        ),
        entry(
            seq![],
            "XF86AudioPlay"@,
            "Play/Pause"@,
            "Toggle media playback"@,
            Category::Media,
        ),
        entry(
            seq![],
            "XF86AudioNext"@,
            "Next Track"@,
            "Skip to next track"@,
            Category::Media,
        ),
        entry(
            seq![],
            "XF86AudioPrev"@,
            "Previous Track"@,
            "Go to previous track"@,
            Category::Media,
        ),
    ]
}

/// The shortcuts filed under "Screenshots".
pub open spec fn screenshots() -> Seq<KeybindingView> {
    seq![
        entry(
            seq!["Super"@, "Ctrl"@],
            "u"@,
            "Screenshot (Full)"@,
            "Take fullscreen screenshot to clipboard"@,
            Category::Screenshot,
        ),
        entry(
            seq!["Super"@],
            "u"@,
            "Screenshot (Select)"@,
            "Take selected area screenshot to clipboard"@,
            Category::Screenshot,
        ),
        entry(
            seq!["Super"@, "Alt"@],
            "s"@,
            "Screenshot Menu"@,
            "Open screenshot utility menu"@,
            Category::Screenshot,
        ),
    ]
}

/// The shortcuts filed under "Applications".
pub open spec fn applications() -> Seq<KeybindingView> {
    seq![
        entry(
            seq!["Super"@],
            "b"@,
            "Browser"@,
            "Launch Firefox browser"@,
            Category::Applications,
        ),
        entry(
            seq!["Super"@],
            "e"@,
            "File Manager"@,
            "Launch PCManFM file manager"@,
            Category::Applications,
        ),
        entry(
            seq!["Super"@, "Shift"@],
            "e"@,
            "Code Editor"@,
            "Launch VS Code"@,
            Category::Applications,
        ),
        entry(
            seq!["Super"@],
            "Return"@,
            "Terminal"@,
            "Launch Kitty terminal"@,
            Category::Applications,
        ),
        entry(
            seq!["Super"@, "Shift"@],
            "Return"@,
            "App Launcher"@,
            "Open Rofi application launcher"@,
            Category::Applications,
        ),
        entry(
            seq!["Super"@, "Alt"@],
            "e"@,
            "EWW Widget"@,
            "Open EWW widget"@,
            Category::Applications,
        ),
    ]
}

/// The shortcuts filed under "Window Management".
pub open spec fn window_management() -> Seq<KeybindingView> {
    seq![
        entry(
            seq!["Super"@],
            "c"@,
            "Kill Window"@,
            "Close the focused window"@,
            Category::WindowManagement,
        ),
        entry(
            seq!["Super"@, "Shift"@],
            "Space"@,
            "Toggle Floating"@,
            "Toggle floating mode for focused window"@,
            Category::WindowManagement,
        ),
        entry(
            seq!["Super"@],
            "f"@,
            "Toggle Fullscreen"@,
            "Toggle fullscreen for focused window"@,
            Category::WindowManagement,
        ),
        entry(
            seq!["Super"@],
            "n"@,
            "Hide Window"@,
            "Hide the focused window"@,
            Category::WindowManagement,
        ),
        entry(
            seq!["Super"@, "Shift"@],
            "n"@,
            "Restore Window"@,
            "Restore hidden window"@,
            Category::WindowManagement,
        ),
        entry(
            seq!["Super"@, "Shift"@],
            "Return"@,
            "Zoom Master"@,
            "Move window to/from master area"@,
            Category::WindowManagement,
        ),
    ]
}

/// The shortcuts filed under "Navigation".
pub open spec fn navigation() -> Seq<KeybindingView> {
    seq![
        entry(
            seq!["Super"@],
            "j"@,
            "Focus Next"@,
            "Focus next window in stack"@,
            Category::Navigation,
        ),
        entry(
            seq!["Super"@],
            "k"@,
            "Focus Previous"@,
            "Focus previous window in stack"@,
            Category::Navigation,
        ),
        entry(
            seq!["Super"@, "Shift"@],
            "j"@,
            "Move Down"@,
            "Move window down in stack"@,
            Category::Navigation,
        ),
        entry(
            seq!["Super"@, "Shift"@],
            "k"@,
            "Move Up"@,
            "Move window up in stack"@,
            Category::Navigation,
        ),
        entry(
            seq!["Super"@],
            "Left"@,
            "Previous Tag"@,
            "Switch to previous tag"@,
            Category::Navigation,
        ),
        entry(
            seq!["Super"@],
            "Right"@,
            "Next Tag"@,
            "Switch to next tag"@,
            Category::Navigation,
        ),
        entry(
            seq!["Super"@],
            "Tab"@,
            "Last Tag"@,
            "Switch to last viewed tag"@,
            Category::Navigation,
        ),
    ]
}

/// The shortcuts filed under "Layout Management".
pub open spec fn layout_management() -> Seq<KeybindingView> {
    seq![
        entry(
            seq!["Super"@],
            "h"@,
            "Shrink Master"@,
            "Decrease master area size"@,
            Category::Layout,
        ),
        entry(
            seq!["Super"@],
            "l"@,
            "Expand Master"@,
            "Increase master area size"@,
            Category::Layout,
        ),
        entry(
            seq!["Super"@],
            "i"@,
            "Inc Master"@,
            "Increase number of masters"@,
            Category::Layout,
        ),
        entry(
            seq!["Super"@],
            "t"@,
            "Dwindle Layout"@,
            "Set layout to dwindle"@,
            Category::Layout,
        ),
        entry(
            seq!["Super"@, "Shift"@],
            "f"@,
            "Grid Layout"@,
            "Set layout to grid"@,
            Category::Layout,
        ),
        entry(
            seq!["Super"@],
            "Space"@,
            "Cycle Layout"@,
            "Cycle through layouts"@,
            Category::Layout,
        ),
    ]
}

/// The shortcuts filed under "Gap Management".
pub open spec fn gap_management() -> Seq<KeybindingView> {
    seq![
        entry(
            seq!["Super"@, "Ctrl"@],
            "t"@,
            "Toggle Gaps"@,
            "Toggle gaps on/off"@,
            Category::Gaps,
        ),
        entry(
            seq!["Super"@, "Ctrl"@],
            "i"@,
            "Increase All Gaps"@,
            "Increase all gaps"@,
            Category::Gaps,
        ),
        entry(
            seq!["Super"@, "Ctrl"@],
            "d"@,
            "Decrease All Gaps"@,
            "Decrease all gaps"@,
            Category::Gaps,
        ),
        entry(
            seq!["Super"@, "Ctrl"@, "Shift"@],
            "d"@,
            "Default Gaps"@,
            "Reset gaps to default"@,
            Category::Gaps,
        ),
    ]
}

/// The shortcuts filed under "Tags & Workspaces".
pub open spec fn tags() -> Seq<KeybindingView> {
    seq![
        entry(
            seq!["Super"@],
            "1-9"@,
            "View Tag"@,
            "Switch to tag 1-9"@,
            Category::Tags,
        ),
        entry(
            seq!["Super"@, "Shift"@],
            "1-9"@,
            "Move to Tag"@,
            "Move window to tag 1-9"@,
            Category::Tags,
        ),
        entry(
            seq!["Super"@, "Ctrl"@],
            "1-9"@,
            "Toggle Tag View"@,
            "Toggle view of tag 1-9"@,
            Category::Tags,
        ),
    ]
}

/// The shortcuts filed under "System".
pub open spec fn system() -> Seq<KeybindingView> {
    seq![
        entry(
            seq!["Super"@, "Ctrl"@],
            "q"@,
            "Quit DWM"@,
            "Kill dwm and bar"@,
            Category::System,
        ),
        entry(
            seq!["Super"@, "Shift"@],
            "r"@,
            "Restart DWM"@,
            "Restart dwm"@,
            Category::System,
        ),
        entry(
            seq!["Alt"@],
            "l"@,
            "Lock Screen"@,
            "Lock the screen"@,
            Category::System,
        ),
        entry(
            seq!["Alt"@],
            "x"@,
            "Power Menu"@,
            "Open power menu"@,
            Category::System,
        ),
        entry(
            seq!["Super"@],
            "m"@,
            "Keyboard Layout"@,
            "Switch keyboard layout"@,
            Category::System,
        ),
    ]
}

/// The shortcuts filed under "Borders".
pub open spec fn borders() -> Seq<KeybindingView> {
    seq![
        entry(
            seq!["Super"@, "Shift"@],
            "minus"@,
            "Decrease Border"@,
            "Decrease border width"@,
            Category::Borders,
        ),
        entry(
            seq!["Super"@, "Shift"@],
            "p"@,
            "Increase Border"@,
            "Increase border width"@,
            Category::Borders,
        ),
        entry(
            seq!["Super"@, "Shift"@],
            "w"@,
            "Default Border"@,
            "Reset border to default"@,
            Category::Borders,
        ),
    ]
}

/// The whole fixed table of shortcuts, section after section.
pub open spec fn catalog() -> Seq<KeybindingView> {
    media_controls()
        + screenshots()
        + applications()
        + window_management()
        + navigation()
        + layout_management()
        + gap_management()
        + tags()
        + system()
        + borders()
}

} // verus!
