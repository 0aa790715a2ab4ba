use vstd::prelude::*;

verus! {

/// The maximize button.
pub const WS_MAXIMIZEBOX: u32 = 0x0001_0000;

/// A thin border.
pub const WS_BORDER: u32 = 0x0080_0000;

/// Title bar (border and dialog frame).
pub const WS_CAPTION: u32 = 0x00C0_0000;

/// Sizing border.
pub const WS_THICKFRAME: u32 = 0x0004_0000;

/// Minimized state.
pub const WS_MINIMIZE: u32 = 0x2000_0000;

/// Maximized state.
pub const WS_MAXIMIZE: u32 = 0x0100_0000;

/// Window menu on the title bar.
pub const WS_SYSMENU: u32 = 0x0008_0000;

/// The style bits a borderless window drops.
pub const DECORATION_BITS: u32 = 0x21CC_0000;

/// Class name of the host's main window.
pub open spec fn target_window_class() -> Seq<char> {
    "ChessWindowClass"@
}

/// Whether a top-level window is the host's main window: it belongs to this
/// process and has the host's window class.
pub fn is_target_window(window_pid: u32, own_pid: u32, class_name: &str) -> (r: bool)
    ensures
        r == (window_pid == own_pid && class_name@ == target_window_class()),
{
    if window_pid != own_pid {
        return false;
    }
    let found = class_name.to_owned();
    let wanted = "ChessWindowClass".to_owned();
    proof {
        reveal_strlit("ChessWindowClass");
    }
    found == wanted
}

/// The window style with the maximize button removed and every other bit kept.
pub fn without_maximize_box(style: i32) -> (r: i32)
    ensures
        r == style & !(WS_MAXIMIZEBOX as i32),
{
    style & !(WS_MAXIMIZEBOX as i32)
}

/// The style of a borderless window: when the window has a border, its
/// caption, sizing frame, minimized and maximized states and window menu are
/// dropped; a window without a border needs no change (`None`).
pub fn borderless_style(style: i32) -> (r: Option<i32>)
    ensures
        r == (if style & (WS_BORDER as i32) != 0 {
            Some(style & !(DECORATION_BITS as i32))
        } else {
            None::<i32>
        }),
{
    if style & (WS_BORDER as i32) != 0 {
        Some(style & !(DECORATION_BITS as i32))
    } else {
        None
    }
}

/// The decoration mask is the union of the bits it names.
pub proof fn lemma_decoration_bits()
    ensures
        DECORATION_BITS == WS_CAPTION | WS_THICKFRAME | WS_MINIMIZE | WS_MAXIMIZE | WS_SYSMENU,
{
    assert(0x21CC_0000u32 == 0x00C0_0000u32 | 0x0004_0000u32 | 0x2000_0000u32 | 0x0100_0000u32
        | 0x0008_0000u32) by (bit_vector);
}

/// One action on the host's main window.
#[derive(Clone, Copy, Debug, PartialEq, Eq, Structural)]
pub enum ChromeStep {
    /// Restore the window from the maximized state and remove its maximize button.
    DisableMaximize,
    /// Drop the border, caption and sizing frame.
    MakeBorderless,
    /// Place the window at the screen's origin with this size.
    Resize { width: u32, height: u32 },
    /// Move the window to the screen's origin, keeping its size, out of the topmost band.
    Reposition,
    /// The window should fill the display, whose size is unknown: nothing
    /// further can be done.
    DisplaySizeUnknown,
}

/// The configured size is incomplete and the display's size stands in for it.
pub open spec fn needs_display_size(width: u32, height: u32) -> bool {
    width == 0 || height == 0
}

/// The actions that enforce the window's presentation: the maximize button
/// always goes first; a fullscreen window then loses its decorations and
/// takes the configured size (the display's, when a configured dimension is
/// zero); any other window is repositioned. When the display's size is needed
/// and unknown, the plan ends after the first step with `DisplaySizeUnknown`.
pub open spec fn chrome_steps(
    fullscreen: bool,
    width: u32,
    height: u32,
    display: Option<(u32, u32)>,
) -> Seq<ChromeStep> {
    if !fullscreen {
        seq![ChromeStep::DisableMaximize, ChromeStep::Reposition]
    } else if !needs_display_size(width, height) {
        seq![
            ChromeStep::DisableMaximize,
            ChromeStep::MakeBorderless,
            ChromeStep::Resize { width, height },
        ]
    } else {
        match display {
            Some((w, h)) => seq![
                ChromeStep::DisableMaximize,
                ChromeStep::MakeBorderless,
                ChromeStep::Resize { width: w, height: h },
            ],
            None => seq![ChromeStep::DisableMaximize, ChromeStep::DisplaySizeUnknown],
        }
    }
}

/// Whether the display's size must be asked for before planning.
pub fn display_size_needed(fullscreen: bool, width: u32, height: u32) -> (r: bool)
    ensures
        r == (fullscreen && needs_display_size(width, height)),
{
    fullscreen && (width == 0 || height == 0)
}

/// Plans the actions on the host's main window from the configuration and,
/// where known, the display's size. Every plan starts by disabling maximize.
pub fn chrome_plan(fullscreen: bool, width: u32, height: u32, display: Option<(u32, u32)>) -> (r:
    Vec<ChromeStep>)
    ensures
        r@ == chrome_steps(fullscreen, width, height, display),
        r@.len() >= 2,
        r@[0] == ChromeStep::DisableMaximize,
{
    let mut steps: Vec<ChromeStep> = Vec::new();
    steps.push(ChromeStep::DisableMaximize);
    if !fullscreen {
        steps.push(ChromeStep::Reposition);
        assert(steps@ =~= seq![ChromeStep::DisableMaximize, ChromeStep::Reposition]);
        return steps;
    }
    let (w, h) = if width == 0 || height == 0 {
        match display {
            Some(size) => size,
            None => {
                steps.push(ChromeStep::DisplaySizeUnknown);
                assert(steps@ =~= seq![ChromeStep::DisableMaximize, ChromeStep::DisplaySizeUnknown]);
                return steps;
            },
        }
    } else {
        (width, height)
    };
    steps.push(ChromeStep::MakeBorderless);
    steps.push(ChromeStep::Resize { width: w, height: h });
    assert(steps@ =~= seq![
        ChromeStep::DisableMaximize,
        ChromeStep::MakeBorderless,
        ChromeStep::Resize { width: w, height: h },
    ]);
    steps
}

} // verus!
