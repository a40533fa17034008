use vstd::prelude::*;

use crate::config::DEFAULT_HEIGHT;
use crate::config::DEFAULT_WIDTH;
use crate::config::WindowConfig;
use crate::config::get_window_size;
use crate::config::resolved_dimension;
use crate::errors::WindowError;
use crate::geometry::CursorReading;
use crate::geometry::ScreenPoint;
use crate::geometry::get_mouse_location;
use crate::geometry::located;

verus! {

/// A named window slot. At most one live window exists per role; the role's
/// label identifies it in the host's window registry.
#[derive(Clone, Copy, Debug, PartialEq, Eq, Structural)]
pub enum WindowRole {
    /// The selection-translation popup.
    Translator,
    /// The centered, taskbar-visible variant that is never auto-closed.
    Persistent,
    /// The popup fed with externally supplied text.
    Popclip,
}

impl WindowRole {
    /// The stable label the role's window is registered under.
    pub open spec fn spec_label(self) -> Seq<char> {
        match self {
            WindowRole::Translator => "translator"@,
            WindowRole::Persistent => "persistent"@,
            WindowRole::Popclip => "popclip"@,
        }
    }

    /// The window title shown for the role.
    pub open spec fn spec_title(self) -> Seq<char> {
        match self {
            WindowRole::Translator => "Translator"@,
            WindowRole::Persistent => "Persistent"@,
            WindowRole::Popclip => "PopClip"@,
        }
    }

    pub fn label(&self) -> (r: &'static str)
        ensures
            r@ == self.spec_label(),
    {
        match self {
            WindowRole::Translator => "translator",
            WindowRole::Persistent => "persistent",
            WindowRole::Popclip => "popclip",
        }
    }

    pub fn title(&self) -> (r: &'static str)
        ensures
            r@ == self.spec_title(),
    {
        match self {
            WindowRole::Translator => "Translator",
            WindowRole::Persistent => "Persistent",
            WindowRole::Popclip => "PopClip",
        }
    }
}

/// The content page every popup window loads: the host resolves this
/// identifier to the translator interface it renders.
pub open spec fn spec_content_page() -> Seq<char> {
    "index_translator.html"@
}

/// The content URL/identifier handed to window creation.
pub fn content_page() -> (r: &'static str)
    ensures
        r@ == spec_content_page(),
{
    "index_translator.html"
}

/// The operating systems the placement policy distinguishes.
#[derive(Clone, Copy, Debug, PartialEq, Eq, Structural)]
pub enum Platform {
    MacOs,
    Windows,
    Linux,
}

/// The reference point a window's position is computed from.
#[derive(Clone, Copy, Debug, PartialEq, Eq, Structural)]
pub enum Anchor {
    /// Place the window at this clamped cursor-derived point.
    Cursor(ScreenPoint),
    /// Let the host center the window on the active display.
    Centered,
}

/// What window creation consumes: the window size in logical pixels and the
/// anchor its position is computed from.
#[derive(Clone, Copy, Debug, PartialEq, Eq, Structural)]
pub struct GeometryRequest {
    pub width: i64,
    pub height: i64,
    pub anchor: Anchor,
}

/// The fixed cosmetic window-creation flags. Declared per (platform, role),
/// not computed.
#[derive(Clone, Copy, Debug, PartialEq, Eq, Structural)]
pub struct CosmeticFlags {
    pub always_on_top: bool,
    pub focused: bool,
    /// OS decorations; only macOS keeps them (with the overlay title bar).
    pub decorations: bool,
    /// Transparent background; Linux only.
    pub transparent: bool,
    /// Host-drawn window shadow; macOS and Windows.
    pub shadow: bool,
    /// macOS overlay title-bar style.
    pub overlay_title_bar: bool,
    /// macOS hidden window title.
    pub hidden_title: bool,
    /// Kept out of the taskbar; every role but the persistent one.
    pub skip_taskbar: bool,
}

/// The cosmetic-flag lookup table keyed by (platform, role).
pub open spec fn spec_cosmetic_flags(platform: Platform, role: WindowRole) -> CosmeticFlags {
    CosmeticFlags {
        always_on_top: true,
        focused: true,
        decorations: platform is MacOs,
        transparent: platform is Linux,
        shadow: !(platform is Linux),
        overlay_title_bar: platform is MacOs,
        hidden_title: platform is MacOs,
        skip_taskbar: !(role is Persistent),
    }
}

/// Assembles the cosmetic window-creation flags for a platform and role.
pub fn cosmetic_flags(platform: Platform, role: WindowRole) -> (r: CosmeticFlags)
    ensures
        r == spec_cosmetic_flags(platform, role),
{
    let mac = matches!(platform, Platform::MacOs);
    let linux = matches!(platform, Platform::Linux);
    CosmeticFlags {
        always_on_top: true,
        focused: true,
        decorations: mac,
        transparent: linux,
        shadow: !linux,
        overlay_title_bar: mac,
        hidden_title: mac,
        skip_taskbar: !matches!(role, WindowRole::Persistent),
    }
}

/// Whether `g` is the geometry the placement policy owes for `role` under
/// `config`, given the locator's raw reading: size from configuration with
/// the defaults applied; centered for the persistent role, the clamped
/// cursor point for every other role.
pub open spec fn geometry_matches(
    g: GeometryRequest,
    role: WindowRole,
    config: WindowConfig,
    cursor: Option<CursorReading>,
) -> bool {
    &&& g.width == resolved_dimension(config.window_width, DEFAULT_WIDTH)
    &&& g.height == resolved_dimension(config.window_height, DEFAULT_HEIGHT)
    &&& if role is Persistent {
        g.anchor is Centered
    } else {
        &&& cursor matches Some(c) && g.anchor matches Anchor::Cursor(p) && (
        p.x as int,
        p.y as int,
        ) == located(c, g.width as int, g.height as int)
    }
}

/// The Window Placement Policy: decides the window size (configuration with
/// the `400 x 500` defaults) and the anchor (centered for the persistent
/// role, the clamped cursor point otherwise). A locator failure (`cursor`
/// is `None`) is fatal for cursor-anchored roles and irrelevant for the
/// persistent one.
pub fn resolve_geometry(
    role: WindowRole,
    config: &WindowConfig,
    cursor: Option<CursorReading>,
) -> (r: Result<GeometryRequest, WindowError>)
    requires
        cursor matches Some(c) ==> c.wf(),
    ensures
        r matches Ok(g) ==> geometry_matches(g, role, *config, cursor),
        r matches Err(e) ==> e is Locator && !(role is Persistent) && cursor is None,
        r is Ok <==> (role is Persistent || cursor is Some),
{
    let (width, height) = get_window_size(config);
    if matches!(role, WindowRole::Persistent) {
        Ok(GeometryRequest { width, height, anchor: Anchor::Centered })
    } else {
        match get_mouse_location(cursor, width, height) {
            Ok(point) => Ok(GeometryRequest { width, height, anchor: Anchor::Cursor(point) }),
            Err(e) => Err(e),
        }
    }
}

/// Everything the host framework needs to create one role's window; produced
/// by `build_window`, consumed unchanged by the host.
#[derive(Clone, Copy, Debug)]
pub struct BuildPlan {
    /// The registry label the new window must be registered under.
    pub label: &'static str,
    /// The window title.
    pub title: &'static str,
    /// The content URL/identifier the new window must load.
    pub content: &'static str,
    pub geometry: GeometryRequest,
    pub flags: CosmeticFlags,
    /// Attach the focus-loss observer after creation (every role but the
    /// persistent one).
    pub attach_focus_listener: bool,
    /// Give the new window OS focus after creation (always).
    pub set_focus: bool,
}

/// Whether `plan` is the complete creation plan owed for `role` on
/// `platform` under `config` and the locator reading `cursor`.
pub open spec fn plan_matches(
    plan: BuildPlan,
    role: WindowRole,
    platform: Platform,
    config: WindowConfig,
    cursor: Option<CursorReading>,
) -> bool {
    &&& plan.label@ == role.spec_label()
    &&& plan.title@ == role.spec_title()
    &&& plan.content@ == spec_content_page()
    &&& geometry_matches(plan.geometry, role, config, cursor)
    &&& plan.flags == spec_cosmetic_flags(platform, role)
    &&& plan.attach_focus_listener == !(role is Persistent)
    &&& plan.set_focus
}

/// Assembles the full creation plan for a role's window: geometry from the
/// placement policy, the platform's cosmetic flags, label and title from the
/// role, the content page the window loads, focus given to the new window,
/// and the focus-loss observer for every role but the persistent one.
/// Propagates the locator failure of cursor-anchored roles.
pub fn build_window(
    role: WindowRole,
    platform: Platform,
    config: &WindowConfig,
    cursor: Option<CursorReading>,
) -> (r: Result<BuildPlan, WindowError>)
    requires
        cursor matches Some(c) ==> c.wf(),
    ensures
        r matches Ok(plan) ==> plan_matches(plan, role, platform, *config, cursor),
        r matches Err(e) ==> e is Locator && !(role is Persistent) && cursor is None,
        r is Ok <==> (role is Persistent || cursor is Some),
{
    let geometry = match resolve_geometry(role, config, cursor) {
        Ok(g) => g,
        Err(e) => {
            return Err(e);
        },
    };
    Ok(
        BuildPlan {
            label: role.label(),
            title: role.title(),
            content: content_page(),
            geometry,
            flags: cosmetic_flags(platform, role),
            attach_focus_listener: !matches!(role, WindowRole::Persistent),
            set_focus: true,
        },
    )
}

} // verus!
