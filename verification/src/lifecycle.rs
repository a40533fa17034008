use vstd::prelude::*;

use crate::buffer::SelectionBuffer;
use crate::config::WindowConfig;
use crate::errors::WindowError;
use crate::geometry::CursorReading;
use crate::placement::BuildPlan;
use crate::placement::Platform;
use crate::placement::WindowRole;
use crate::placement::build_window;
use crate::placement::plan_matches;

verus! {

/// Whether a role's window exists, and whether the focus-loss observer is
/// attached to it.
#[derive(Clone, Copy, Debug, PartialEq, Eq, Structural)]
pub enum WindowSlot {
    Absent,
    Present { focus_listener: bool },
}

impl WindowSlot {
    pub open spec fn is_present(self) -> bool {
        self matches WindowSlot::Present { .. }
    }
}

/// The per-role window registry: the model of the host's label-to-handle
/// map, the sole source of truth for "is this window currently open".
#[derive(Clone, Copy, Debug, PartialEq, Eq, Structural)]
pub struct WindowRegistry {
    pub translator: WindowSlot,
    pub persistent: WindowSlot,
    pub popclip: WindowSlot,
}

impl WindowRegistry {
    pub open spec fn slot(self, role: WindowRole) -> WindowSlot {
        match role {
            WindowRole::Translator => self.translator,
            WindowRole::Persistent => self.persistent,
            WindowRole::Popclip => self.popclip,
        }
    }

    pub open spec fn is_open(self, role: WindowRole) -> bool {
        self.slot(role).is_present()
    }

    /// The registry invariant: a present transient window carries the
    /// focus-loss observer; the persistent window never does.
    pub open spec fn wf(self) -> bool {
        &&& self.translator matches WindowSlot::Present { focus_listener } ==> focus_listener
        &&& self.popclip matches WindowSlot::Present { focus_listener } ==> focus_listener
        &&& self.persistent matches WindowSlot::Present { focus_listener } ==> !focus_listener
    }

    /// How many windows are open.
    pub open spec fn open_count(self) -> int {
        (if self.translator.is_present() {
            1int
        } else {
            0int
        }) + (if self.persistent.is_present() {
            1int
        } else {
            0int
        }) + (if self.popclip.is_present() {
            1int
        } else {
            0int
        })
    }

    /// The registry after the role's window was closed.
    pub open spec fn closed(self, role: WindowRole) -> WindowRegistry {
        match role {
            WindowRole::Translator => WindowRegistry { translator: WindowSlot::Absent, ..self },
            WindowRole::Persistent => WindowRegistry { persistent: WindowSlot::Absent, ..self },
            WindowRole::Popclip => WindowRegistry { popclip: WindowSlot::Absent, ..self },
        }
    }

    /// The registry after the role's window was created: present, with the
    /// focus-loss observer for every role but the persistent one.
    pub open spec fn opened(self, role: WindowRole) -> WindowRegistry {
        let slot = WindowSlot::Present { focus_listener: !(role is Persistent) };
        match role {
            WindowRole::Translator => WindowRegistry { translator: slot, ..self },
            WindowRole::Persistent => WindowRegistry { persistent: slot, ..self },
            WindowRole::Popclip => WindowRegistry { popclip: slot, ..self },
        }
    }

    /// The registry after a focus-loss event: both transient windows closed,
    /// the persistent one untouched.
    pub open spec fn after_focus_loss(self) -> WindowRegistry {
        WindowRegistry {
            translator: WindowSlot::Absent,
            popclip: WindowSlot::Absent,
            persistent: self.persistent,
        }
    }

    /// The registry at startup: no window open.
    pub fn new() -> (r: WindowRegistry)
        ensures
            r == (WindowRegistry {
                translator: WindowSlot::Absent,
                persistent: WindowSlot::Absent,
                popclip: WindowSlot::Absent,
            }),
            r.wf(),
            r.open_count() == 0,
    {
        WindowRegistry {
            translator: WindowSlot::Absent,
            persistent: WindowSlot::Absent,
            popclip: WindowSlot::Absent,
        }
    }

    /// The role lookup: whether a window is registered for the role's label.
    pub fn get_window(&self, role: WindowRole) -> (r: bool)
        ensures
            r == self.is_open(role),
    {
        let slot = match role {
            WindowRole::Translator => &self.translator,
            WindowRole::Persistent => &self.persistent,
            WindowRole::Popclip => &self.popclip,
        };
        matches!(slot, WindowSlot::Present { .. })
    }

    fn set_slot(&mut self, role: WindowRole, slot: WindowSlot)
        ensures
            final(self).slot(role) == slot,
            role != WindowRole::Translator ==> final(self).translator == old(self).translator,
            role != WindowRole::Persistent ==> final(self).persistent == old(self).persistent,
            role != WindowRole::Popclip ==> final(self).popclip == old(self).popclip,
    {
        match role {
            WindowRole::Translator => self.translator = slot,
            WindowRole::Persistent => self.persistent = slot,
            WindowRole::Popclip => self.popclip = slot,
        }
    }

    /// Records that the host completed the build of the role's window: the
    /// role becomes present, with the focus-loss observer for every role
    /// but the persistent one. The host calls this only after the creation
    /// plan it was handed succeeded.
    pub fn confirm_created(&mut self, role: WindowRole)
        ensures
            *final(self) == old(self).opened(role),
    {
        let listener = !matches!(role, WindowRole::Persistent);
        self.set_slot(role, WindowSlot::Present { focus_listener: listener });
        proof {
            assert(*self =~= old(self).opened(role));
        }
    }

    fn mark_closed(&mut self, role: WindowRole)
        ensures
            *final(self) == old(self).closed(role),
    {
        self.set_slot(role, WindowSlot::Absent);
        proof {
            assert(*self =~= old(self).closed(role));
        }
    }
}

/// A host-framework window event, as far as the lifecycle manager reads it.
#[derive(Clone, Copy, Debug, PartialEq, Eq, Structural)]
pub enum WindowEvent {
    /// The window's focus state changed; `true` means it became focused.
    Focused(bool),
    /// Any other window event; ignored.
    Other,
}

/// The host-side effects a focus event demands: which transient windows
/// existed and must now actually be closed by the host.
#[derive(Clone, Copy, Debug, PartialEq, Eq, Structural)]
pub struct CloseRequests {
    pub close_translator: bool,
    pub close_popclip: bool,
}

/// The focus-change observer. On any event whose new focus state is "not
/// focused" it closes the translator and popclip windows, whichever of the
/// two are present — a deliberate blanket policy: losing focus on either
/// transient window closes both. The persistent window is never auto-closed,
/// and the absence of either transient window is valid steady state, not an
/// error. Every other event leaves the registry untouched.
pub fn on_lose_focus(registry: &mut WindowRegistry, event: &WindowEvent) -> (r: CloseRequests)
    ensures
        *event matches WindowEvent::Focused(false) ==> {
            &&& *final(registry) == old(registry).after_focus_loss()
            &&& r.close_translator == old(registry).is_open(WindowRole::Translator)
            &&& r.close_popclip == old(registry).is_open(WindowRole::Popclip)
        },
        !(*event matches WindowEvent::Focused(false)) ==> {
            &&& *final(registry) == *old(registry)
            &&& !r.close_translator
            &&& !r.close_popclip
        },
        old(registry).wf() ==> final(registry).wf(),
{
    match event {
        WindowEvent::Focused(false) => {
            let close_translator = registry.get_window(WindowRole::Translator);
            if close_translator {
                registry.mark_closed(WindowRole::Translator);
            }
            let close_popclip = registry.get_window(WindowRole::Popclip);
            if close_popclip {
                registry.mark_closed(WindowRole::Popclip);
            }
            proof {
                assert(*registry =~= old(registry).after_focus_loss());
            }
            CloseRequests { close_translator, close_popclip }
        },
        _ => CloseRequests { close_translator: false, close_popclip: false },
    }
}

/// What the host must do after a toggle decision.
#[derive(Clone, Copy, Debug)]
pub enum ToggleAction {
    /// The role's window existed and the registry dropped it: the host must
    /// close the window registered under the role's label.
    CloseWindow,
    /// The role's window was absent: the host must create it from this plan
    /// and, on success, report back through `confirm_created`.
    CreateWindow(BuildPlan),
}

/// Everything a toggle promises: a present role transitions to absent with a
/// close demanded of the host; an absent role leaves the registry unchanged
/// and yields either the complete creation plan or, for a cursor-anchored
/// role whose locator query failed, the locator error.
pub open spec fn toggle_post(
    reg0: WindowRegistry,
    reg1: WindowRegistry,
    role: WindowRole,
    platform: Platform,
    config: WindowConfig,
    cursor: Option<CursorReading>,
    r: Result<ToggleAction, WindowError>,
) -> bool {
    if reg0.is_open(role) {
        &&& r matches Ok(ToggleAction::CloseWindow)
        &&& reg1 == reg0.closed(role)
    } else {
        &&& reg1 == reg0
        &&& if role is Persistent || cursor is Some {
            r matches Ok(ToggleAction::CreateWindow(plan)) && plan_matches(
                plan,
                role,
                platform,
                config,
                cursor,
            )
        } else {
            r matches Err(e) && e is Locator
        }
    }
}

/// The Window Lifecycle Manager's toggle: close-if-present, else plan the
/// creation. The role only becomes present once the host confirms the
/// successful build, so a failed build leaves it absent; a locator failure
/// aborts the open attempt with the registry unchanged.
pub fn toggle_window(
    registry: &mut WindowRegistry,
    role: WindowRole,
    platform: Platform,
    config: &WindowConfig,
    cursor: Option<CursorReading>,
) -> (r: Result<ToggleAction, WindowError>)
    requires
        old(registry).wf(),
        cursor matches Some(c) ==> c.wf(),
    ensures
        toggle_post(*old(registry), *final(registry), role, platform, *config, cursor, r),
        final(registry).wf(),
{
    if registry.get_window(role) {
        registry.mark_closed(role);
        Ok(ToggleAction::CloseWindow)
    } else {
        match build_window(role, platform, config, cursor) {
            Ok(plan) => Ok(ToggleAction::CreateWindow(plan)),
            Err(e) => Err(e),
        }
    }
}

/// The process-scoped context the entry points act on: the window registry,
/// the shared selection buffer, the window-size configuration and the
/// platform whose cosmetic table applies.
pub struct Session {
    pub registry: WindowRegistry,
    pub buffer: SelectionBuffer,
    pub config: WindowConfig,
    pub platform: Platform,
}

impl Session {
    pub open spec fn wf(self) -> bool {
        self.registry.wf()
    }

    /// A fresh session: empty registry, empty buffer.
    pub fn new(platform: Platform, config: WindowConfig) -> (r: Session)
        ensures
            r.wf(),
            r.registry.open_count() == 0,
            r.buffer@ === Seq::<char>::empty(),
            r.config == config,
            r.platform == platform,
    {
        Session { registry: WindowRegistry::new(), buffer: SelectionBuffer::new(), config, platform }
    }
}

/// Entry point for the selection-translation trigger. `selection` is what
/// the capture mechanism delivered (`None` when nothing was selected or the
/// capture failed — fatal, nothing is toggled). On success the captured text
/// replaces the buffer contents before the translator window is toggled, so
/// the window's content load reads exactly this trigger's text.
pub fn translate_window(
    session: &mut Session,
    selection: Option<String>,
    cursor: Option<CursorReading>,
) -> (r: Result<ToggleAction, WindowError>)
    requires
        old(session).wf(),
        cursor matches Some(c) ==> c.wf(),
    ensures
        final(session).wf(),
        final(session).config == old(session).config,
        final(session).platform == old(session).platform,
        selection is None ==> {
            &&& r matches Err(e) && e is SelectionCapture
            &&& *final(session) == *old(session)
        },
        selection matches Some(text) ==> {
            &&& final(session).buffer@ == text@
            &&& toggle_post(
                old(session).registry,
                final(session).registry,
                WindowRole::Translator,
                old(session).platform,
                old(session).config,
                cursor,
                r,
            )
        },
{
    let text = match selection {
        Some(text) => text,
        None => {
            return Err(WindowError::SelectionCapture);
        },
    };
    session.buffer.set_text(text);
    toggle_window(
        &mut session.registry,
        WindowRole::Translator,
        session.platform,
        &session.config,
        cursor,
    )
}

/// Entry point for the persistent-window trigger: toggles the centered,
/// taskbar-visible window. No text capture, no locator dependence; the
/// toggle itself cannot fail.
pub fn persistent_window(session: &mut Session) -> (r: Result<ToggleAction, WindowError>)
    requires
        old(session).wf(),
    ensures
        final(session).wf(),
        final(session).config == old(session).config,
        final(session).platform == old(session).platform,
        final(session).buffer@ == old(session).buffer@,
        toggle_post(
            old(session).registry,
            final(session).registry,
            WindowRole::Persistent,
            old(session).platform,
            old(session).config,
            None,
            r,
        ),
        r is Ok,
{
    toggle_window(
        &mut session.registry,
        WindowRole::Persistent,
        session.platform,
        &session.config,
        None,
    )
}

/// Entry point for the externally supplied text trigger: the given text
/// replaces the buffer contents — before the toggle, so it is stored even
/// when the open attempt then fails — and the popclip window is toggled.
pub fn popclip_window(
    session: &mut Session,
    text: String,
    cursor: Option<CursorReading>,
) -> (r: Result<ToggleAction, WindowError>)
    requires
        old(session).wf(),
        cursor matches Some(c) ==> c.wf(),
    ensures
        final(session).wf(),
        final(session).config == old(session).config,
        final(session).platform == old(session).platform,
        final(session).buffer@ == text@,
        toggle_post(
            old(session).registry,
            final(session).registry,
            WindowRole::Popclip,
            old(session).platform,
            old(session).config,
            cursor,
            r,
        ),
{
    session.buffer.set_text(text);
    toggle_window(
        &mut session.registry,
        WindowRole::Popclip,
        session.platform,
        &session.config,
        cursor,
    )
}

/// Idempotent toggle: opening a role's window and then closing it — the
/// effect of two toggles in immediate succession with no intervening focus
/// loss — returns the registry to its initial state; in particular no window
/// remains for the role and the open count is back to where it started.
pub proof fn lemma_toggle_idempotent(reg: WindowRegistry, role: WindowRole)
    requires
        reg.wf(),
        !reg.is_open(role),
    ensures
        reg.opened(role).closed(role) == reg,
        !reg.opened(role).closed(role).is_open(role),
        reg.opened(role).closed(role).open_count() == reg.open_count(),
{
    assert(reg.opened(role).closed(role) =~= reg);
}

/// Focus-loss closes both transient windows: after a focus-loss event the
/// translator and popclip windows are absent, whatever was open before,
/// while the persistent window's slot is exactly what it was — it is never
/// auto-closed.
pub proof fn lemma_focus_loss_closes_transients(reg: WindowRegistry)
    requires
        reg.wf(),
    ensures
        !reg.after_focus_loss().is_open(WindowRole::Translator),
        !reg.after_focus_loss().is_open(WindowRole::Popclip),
        reg.after_focus_loss().slot(WindowRole::Persistent) == reg.slot(WindowRole::Persistent),
        reg.after_focus_loss().wf(),
{
}

} // verus!
