//! What the status indicator shows: the icon identifier encoding unread
//! state, the static texts, the two-item menu whose toggle label reflects
//! window visibility, and the decisions taken when an item is activated.
//!
//! Every query here is a side-effect-free function of the flags passed in;
//! the indicator's own execution context calls them on a fresh read of the
//! shared flags, so nothing is cached across polls.

use vstd::prelude::*;

verus! {

/// Application identifier; the shell derives icon names from it.
pub open spec fn spec_app_id() -> Seq<char> {
    "io.github.tobagin.Ntfyr"@
}

pub fn app_id() -> (r: &'static str)
    ensures
        r@ == spec_app_id(),
{
    "io.github.tobagin.Ntfyr"
}

/// Icon identifier shown while nothing is unread.
pub open spec fn default_icon_id() -> Seq<char> {
    spec_app_id() + "-symbolic"@
}

/// Icon identifier shown while unread notifications are present.
pub open spec fn unread_icon_id() -> Seq<char> {
    spec_app_id() + "-new-notification-symbolic"@
}

pub open spec fn spec_icon_identifier(has_unread: bool) -> Seq<char> {
    if has_unread {
        unread_icon_id()
    } else {
        default_icon_id()
    }
}

/// Icon identifier for the current unread state. Recomputed on every call:
/// the shell polls this synchronously and must see the flag as it is now.
pub fn icon_identifier(has_unread: bool) -> (r: String)
    ensures
        r@ == spec_icon_identifier(has_unread),
{
    let base = String::from_str(app_id());
    if has_unread {
        base.concat("-new-notification-symbolic")
    } else {
        base.concat("-symbolic")
    }
}

pub proof fn lemma_icon_identifiers_distinct()
    ensures
        default_icon_id() != unread_icon_id(),
{
    reveal_strlit("-symbolic");
    reveal_strlit("-new-notification-symbolic");
    assert(default_icon_id().len() != unread_icon_id().len());
}

/// The icon encodes unread state and nothing else: the unread variant is
/// returned exactly when `has_unread` is set. Visibility plays no part,
/// which the signature of `icon_identifier` already shows.
pub proof fn lemma_icon_identifier_reflects_unread(has_unread: bool)
    ensures
        (spec_icon_identifier(has_unread) == unread_icon_id()) <==> has_unread,
{
    lemma_icon_identifiers_distinct();
}

pub fn title() -> (r: String)
    ensures
        r@ == "Ntfyr"@,
{
    String::from_str("Ntfyr")
}

pub fn id() -> (r: String)
    ensures
        r@ == spec_app_id(),
{
    String::from_str(app_id())
}

pub struct ToolTip {
    pub title: String,
    pub description: String,
}

pub fn tool_tip() -> (r: ToolTip)
    ensures
        r.title@ == "Ntfyr"@,
        r.description@ == "Notifications in background"@,
{
    ToolTip {
        title: String::from_str("Ntfyr"),
        description: String::from_str("Notifications in background"),
    }
}

#[derive(Clone, Copy, Debug, PartialEq, Eq, Structural)]
pub enum Category {
    ApplicationStatus,
}

pub fn category() -> (c: Category)
    ensures
        c == Category::ApplicationStatus,
{
    Category::ApplicationStatus
}

/// Named actions the indicator may dispatch to the application shell on the
/// main context. Dispatch is fire-and-forget: nothing crosses back.
#[derive(Clone, Copy, Debug, PartialEq, Eq, Structural)]
pub enum ShellAction {
    ToggleWindow,
    Quit,
}

/// Primary activation (e.g. a left click) asks the main context to toggle
/// the window; the indicator context itself mutates no state.
pub fn primary_activation() -> (a: ShellAction)
    ensures
        a == ShellAction::ToggleWindow,
{
    ShellAction::ToggleWindow
}

#[derive(Clone, Copy, Debug, PartialEq, Eq, Structural)]
pub enum MenuAction {
    ToggleVisibility,
    Quit,
}

pub struct MenuEntry {
    pub label: String,
    pub action: MenuAction,
}

#[verifier::ext_equal]
pub struct MenuEntryV {
    pub label: Seq<char>,
    pub action: MenuAction,
}

impl DeepView for MenuEntry {
    type V = MenuEntryV;

    open spec fn deep_view(&self) -> MenuEntryV {
        MenuEntryV { label: self.label@, action: self.action }
    }
}

pub open spec fn toggle_label(visible: bool) -> Seq<char> {
    if visible {
        "Hide Window"@
    } else {
        "Show Window"@
    }
}

pub open spec fn spec_menu(visible: bool) -> Seq<MenuEntryV> {
    seq![
        MenuEntryV { label: toggle_label(visible), action: MenuAction::ToggleVisibility },
        MenuEntryV { label: "Quit"@, action: MenuAction::Quit },
    ]
}

/// The menu: exactly a visibility toggle and a quit item, in that order.
/// Built lazily when the menu opens, so the toggle label reflects `visible`
/// as read at that moment, never a cached copy.
pub fn menu_items(visible: bool) -> (r: Vec<MenuEntry>)
    ensures
        r.deep_view() == spec_menu(visible),
{
    let label = if visible {
        String::from_str("Hide Window")
    } else {
        String::from_str("Show Window")
    };
    let mut r: Vec<MenuEntry> = Vec::new();
    r.push(MenuEntry { label, action: MenuAction::ToggleVisibility });
    r.push(MenuEntry { label: String::from_str("Quit"), action: MenuAction::Quit });
    proof {
        assert(r.deep_view() =~= spec_menu(visible));
    }
    r
}

pub proof fn lemma_toggle_labels_distinct()
    ensures
        "Hide Window"@ != "Show Window"@,
{
    reveal_strlit("Hide Window");
    reveal_strlit("Show Window");
    assert("Hide Window"@[0] == 'H');
    assert("Show Window"@[0] == 'S');
}

/// The toggle item reads "Hide Window" exactly when the window is visible,
/// and "Show Window" otherwise.
pub proof fn lemma_toggle_label_reflects_visibility(visible: bool)
    ensures
        (toggle_label(visible) == "Hide Window"@) <==> visible,
{
    lemma_toggle_labels_distinct();
}

/// What a menu activation does once marshaled onto the main context.
#[derive(Clone, Copy, Debug, PartialEq, Eq, Structural)]
pub enum WindowDirective {
    /// Hide the existing top-level window directly.
    Hide,
    /// Present the existing top-level window directly.
    Present,
    /// No window handle resolvable: fall back to the named toggle action.
    DispatchToggle,
    /// Dispatch the named quit action.
    DispatchQuit,
}

pub open spec fn spec_menu_directive(
    action: MenuAction,
    window_present: bool,
    window_visible: bool,
) -> WindowDirective {
    match action {
        MenuAction::ToggleVisibility => if window_present {
            if window_visible {
                WindowDirective::Hide
            } else {
                WindowDirective::Present
            }
        } else {
            WindowDirective::DispatchToggle
        },
        MenuAction::Quit => WindowDirective::DispatchQuit,
    }
}

/// Decision taken on the main context when a menu item fires: a toggle flips
/// the shown state of an existing window, falls back to the named action when
/// no window handle is resolvable, and quit always dispatches the named quit
/// action.
pub fn menu_directive(action: MenuAction, window_present: bool, window_visible: bool) -> (d:
    WindowDirective)
    ensures
        d == spec_menu_directive(action, window_present, window_visible),
{
    match action {
        MenuAction::ToggleVisibility => if window_present {
            if window_visible {
                WindowDirective::Hide
            } else {
                WindowDirective::Present
            }
        } else {
            WindowDirective::DispatchToggle
        },
        MenuAction::Quit => WindowDirective::DispatchQuit,
    }
}

/// Snapshot of the two flags shared between the main context (writer) and
/// the indicator context (reader). Each field is committed on its own: a
/// write of one leaves the other untouched, and readers never see a partial
/// write of a single field. Joint consistency of the pair is not promised.
#[derive(Clone, Copy, Debug, PartialEq, Eq, Structural)]
pub struct IndicatorFlags {
    pub visible: bool,
    pub has_unread: bool,
}

impl IndicatorFlags {
    pub fn new(visible: bool, has_unread: bool) -> (f: IndicatorFlags)
        ensures
            f.visible == visible,
            f.has_unread == has_unread,
    {
        IndicatorFlags { visible, has_unread }
    }

    pub fn set_visible(&mut self, visible: bool)
        ensures
            final(self).visible == visible,
            final(self).has_unread == old(self).has_unread,
    {
        self.visible = visible;
    }

    pub fn set_has_unread(&mut self, has_unread: bool)
        ensures
            final(self).has_unread == has_unread,
            final(self).visible == old(self).visible,
    {
        self.has_unread = has_unread;
    }
}

} // verus!
