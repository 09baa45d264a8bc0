//! The tray menu: three fixed entries, each with an identifier and a label.

use vstd::prelude::*;

verus! {

/// An entry of the tray menu.
#[derive(Clone, Copy, Debug, PartialEq, Eq, Structural)]
pub enum MenuAction {
    Show,
    Hide,
    Quit,
}

impl MenuAction {
    /// The identifier under which the entry is registered with the host.
    pub open spec fn spec_id(self) -> Seq<char> {
        match self {
            MenuAction::Show => "show"@,
            MenuAction::Hide => "hide"@,
            MenuAction::Quit => "quit"@,
        }
    }

    /// The text that the entry shows.
    pub open spec fn spec_label(self) -> Seq<char> {
        match self {
            MenuAction::Show => "Show"@,
            MenuAction::Hide => "Hide"@,
            MenuAction::Quit => "Quit"@,
        }
    }

    /// The entry registered under `id`, if there is one.
    pub open spec fn spec_from_id(id: Seq<char>) -> Option<MenuAction> {
        if id == "show"@ {
            Some(MenuAction::Show)
        } else if id == "hide"@ {
            Some(MenuAction::Hide)
        } else if id == "quit"@ {
            Some(MenuAction::Quit)
        } else {
            None
        }
    }

    /// The entry's identifier.
    pub fn id(self) -> (r: &'static str)
        ensures
            r@ == self.spec_id(),
    {
        match self {
            MenuAction::Show => "show",
            MenuAction::Hide => "hide",
            MenuAction::Quit => "quit",
        }
    }

    /// The entry's label.
    pub fn label(self) -> (r: &'static str)
        ensures
            r@ == self.spec_label(),
    {
        match self {
            MenuAction::Show => "Show",
            MenuAction::Hide => "Hide",
            MenuAction::Quit => "Quit",
        }
    }

    /// Resolves the identifier of a menu event. An identifier that no entry
    /// carries resolves to nothing, and the event is then ignored.
    pub fn from_id(id: &str) -> (r: Option<MenuAction>)
        ensures
            r == Self::spec_from_id(id@),
    {
        if same_text(id, "show") {
            Some(MenuAction::Show)
        } else if same_text(id, "hide") {
            Some(MenuAction::Hide)
        } else if same_text(id, "quit") {
            Some(MenuAction::Quit)
        } else {
            None
        }
    }
}

/// Whether two strings hold the same characters.
fn same_text(a: &str, b: &str) -> (r: bool)
    ensures
        r == (a@ == b@),
{
    let x = a.to_owned();
    let y = b.to_owned();
    x == y
}

/// The entries of the tray menu, in the order in which they are shown.
pub fn menu_items() -> (r: Vec<MenuAction>)
    ensures
        r@ == seq![MenuAction::Show, MenuAction::Hide, MenuAction::Quit],
{
    let mut items: Vec<MenuAction> = Vec::new();
    items.push(MenuAction::Show);
    items.push(MenuAction::Hide);
    items.push(MenuAction::Quit);
    proof {
        assert(items@ =~= seq![MenuAction::Show, MenuAction::Hide, MenuAction::Quit]);
    }
    items
}

/// Every entry is found again under its own identifier.
pub proof fn lemma_id_resolves_to_its_entry(action: MenuAction)
    ensures
        MenuAction::spec_from_id(action.spec_id()) == Some(action),
{
    reveal_strlit("show");
    reveal_strlit("hide");
    reveal_strlit("quit");
    assert("show"@[0] != "hide"@[0]);
    assert("show"@[0] != "quit"@[0]);
    assert("hide"@[0] != "quit"@[0]);
}

/// An identifier resolves to an entry only if it is that entry's own.
pub proof fn lemma_resolved_entry_has_the_id(id: Seq<char>)
    ensures
        MenuAction::spec_from_id(id) matches Some(action) ==> action.spec_id() == id,
{
}

} // verus!
