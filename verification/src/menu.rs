//! The application menu: what the File menu offers and what each of its
//! items sets off.

use vstd::prelude::*;
use vstd::string::*;

verus! {

/// Width of a new window, in logical pixels.
pub const WINDOW_WIDTH: u32 = 1280;

/// Height of a new window, in logical pixels.
pub const WINDOW_HEIGHT: u32 = 800;

/// One entry of a menu.
#[derive(Debug, PartialEq, Eq)]
pub enum MenuEntry {
    /// An item that reports `id` when chosen, shown as `text`, with a
    /// keyboard shortcut.
    Item { id: String, text: String, accelerator: String },
    /// A line between groups of items.
    Separator,
}

/// The mathematical value of a [`MenuEntry`].
pub enum MenuEntryView {
    Item { id: Seq<char>, text: Seq<char>, accelerator: Seq<char> },
    Separator,
}

impl View for MenuEntry {
    type V = MenuEntryView;

    open spec fn view(&self) -> MenuEntryView {
        match self {
            MenuEntry::Item { id, text, accelerator } => MenuEntryView::Item {
                id: id@,
                text: text@,
                accelerator: accelerator@,
            },
            MenuEntry::Separator => MenuEntryView::Separator,
        }
    }
}

/// The views of a sequence of entries.
pub open spec fn entry_views(entries: Seq<MenuEntry>) -> Seq<MenuEntryView> {
    Seq::new(entries.len(), |i: int| entries[i]@)
}

/// The entries at the top of the File menu.
pub open spec fn spec_file_entries() -> Seq<MenuEntryView> {
    seq![
        MenuEntryView::Item {
            id: "new_window"@,
            text: "New Window"@,
            accelerator: "CommandOrControl+N"@,
        },
        MenuEntryView::Item { id: "new_tab"@, text: "New Tab"@, accelerator: "CommandOrControl+T"@ },
        MenuEntryView::Separator,
        MenuEntryView::Item {
            id: "close_tab"@,
            text: "Close Tab"@,
            accelerator: "CommandOrControl+W"@,
        },
        MenuEntryView::Item {
            id: "close_window"@,
            text: "Close Window"@,
            accelerator: "CommandOrControl+Shift+W"@,
        },
    ]
}

fn item(id: &str, text: &str, accelerator: &str) -> (entry: MenuEntry)
    ensures
        entry@ == (MenuEntryView::Item { id: id@, text: text@, accelerator: accelerator@ }),
{
    MenuEntry::Item { id: id.to_string(), text: text.to_string(), accelerator: accelerator.to_string() }
}

/// The entries that take the place of the first entry of the File menu.
pub fn customize() -> (entries: Vec<MenuEntry>)
    ensures
        entry_views(entries@) == spec_file_entries(),
{
    let mut entries: Vec<MenuEntry> = Vec::new();
    entries.push(item("new_window", "New Window", "CommandOrControl+N"));
    entries.push(item("new_tab", "New Tab", "CommandOrControl+T"));
    entries.push(MenuEntry::Separator);
    entries.push(item("close_tab", "Close Tab", "CommandOrControl+W"));
    entries.push(item("close_window", "Close Window", "CommandOrControl+Shift+W"));
    entries
}

/// The title of the menu that is customized.
pub open spec fn spec_file_title() -> Seq<char> {
    "File"@
}

/// Finds the File menu among the titles of the submenus: the position of
/// the first one titled `File`, if there is one.
pub fn find_file_menu(titles: &Vec<String>) -> (found: Option<usize>)
    ensures
        match found {
            Some(at) => at < titles@.len() && titles@[at as int]@ == spec_file_title() && forall|j: int|
                0 <= j < at ==> (#[trigger] titles@[j])@ != spec_file_title(),
            None => forall|j: int| 0 <= j < titles@.len() ==> (#[trigger] titles@[j])@ != spec_file_title(),
        },
{
    let wanted = "File".to_string();
    let mut at: usize = 0;
    while at < titles.len()
        invariant
            at <= titles@.len(),
            wanted@ == spec_file_title(),
            forall|j: int| 0 <= j < at ==> (#[trigger] titles@[j])@ != spec_file_title(),
        decreases titles.len() - at,
    {
        if titles[at] == wanted {
            return Some(at);
        }
        at = at + 1;
    }
    None
}

/// What choosing a menu item sets off.
#[derive(Debug, PartialEq, Eq)]
pub enum MenuCommand {
    /// Open a window labelled `label`, showing the application's root page.
    NewWindow { label: String },
    /// Close every window that has the focus.
    CloseFocused,
    /// Nothing.
    Ignore,
}

/// The mathematical value of a [`MenuCommand`].
pub enum MenuCommandView {
    NewWindow { label: Seq<char> },
    CloseFocused,
    Ignore,
}

impl View for MenuCommand {
    type V = MenuCommandView;

    open spec fn view(&self) -> MenuCommandView {
        match self {
            MenuCommand::NewWindow { label } => MenuCommandView::NewWindow { label: label@ },
            MenuCommand::CloseFocused => MenuCommandView::CloseFocused,
            MenuCommand::Ignore => MenuCommandView::Ignore,
        }
    }
}

/// What the item that reports `id` sets off, `label` being the label for a
/// window that it may open.
pub open spec fn spec_menu_command(id: Seq<char>, label: Seq<char>) -> MenuCommandView {
    if id == "new_window"@ {
        MenuCommandView::NewWindow { label }
    } else if id == "close_window"@ {
        MenuCommandView::CloseFocused
    } else {
        MenuCommandView::Ignore
    }
}

/// Decides what the item that reports `id` sets off. A new window gets
/// `label`.
pub fn menu_command(id: &str, label: String) -> (command: MenuCommand)
    ensures
        command@ == spec_menu_command(id@, label@),
{
    let id = id.to_string();
    if id == "new_window".to_string() {
        MenuCommand::NewWindow { label }
    } else if id == "close_window".to_string() {
        MenuCommand::CloseFocused
    } else {
        MenuCommand::Ignore
    }
}

/// Whether `text` has the shape of an identifier as `uuid` writes it: 36
/// characters, hyphens after the 8th, 12th, 16th and 20th digit.
pub open spec fn spec_uuid_shape(text: Seq<char>) -> bool {
    &&& text.len() == 36
    &&& text[8] == '-'
    &&& text[13] == '-'
    &&& text[18] == '-'
    &&& text[23] == '-'
}

/// Calls `uuid::Uuid::new_v4` and writes the identifier with its `Display`,
/// which gives 32 hexadecimal digits in groups of 8, 4, 4, 4 and 12 with a
/// hyphen between groups. The digits are random: nothing is claimed of them.
#[verifier::external_body]
fn random_label() -> (label: String)
    ensures
        spec_uuid_shape(label@),
{
    uuid::Uuid::new_v4().to_string()
}

/// Handles the choice of the menu item that reports `id`.
pub fn on_menu_event(id: &str) -> (command: MenuCommand)
    ensures
        command@ is NewWindow <==> id@ == "new_window"@,
        command@ is NewWindow ==> spec_uuid_shape(command@->label),
        !(command@ is NewWindow) ==> command@ == spec_menu_command(id@, Seq::<char>::empty()),
{
    if id.to_string() == "new_window".to_string() {
        menu_command(id, random_label())
    } else {
        menu_command(id, String::new())
    }
}

} // verus!
