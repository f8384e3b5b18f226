//! Pages of a listing, and the popup that clients show.

use vstd::prelude::*;
use vstd::string::StringExecFns;

verus! {

/// One page of a listing.
#[derive(Debug)]
pub struct PagedResponse<T> {
    items: Vec<T>,
    has_next: bool,
}

impl<T> PagedResponse<T> {
    /// The items of the page, in order.
    pub closed spec fn items_spec(&self) -> Seq<T> {
        self.items@
    }

    /// Whether a page follows this one.
    pub closed spec fn has_next_spec(&self) -> bool {
        self.has_next
    }

    /// A page of the given items.
    pub fn new(items: Vec<T>, has_next: bool) -> (page: Self)
        ensures
            page.items_spec() == items@,
            page.has_next_spec() == has_next,
    {
        PagedResponse { items, has_next }
    }

    /// The items of the page.
    pub fn items(&self) -> (items: &Vec<T>)
        ensures
            items@ == self.items_spec(),
    {
        &self.items
    }

    /// Whether a page follows this one.
    pub fn has_next(&self) -> (more: bool)
        ensures
            more == self.has_next_spec(),
    {
        self.has_next
    }
}

/// A message that clients show on start.
#[derive(Debug, Clone)]
pub struct ClientPopup {
    pub heading: String,
    pub paragraph: String,
    pub active: bool,
}

/// Keeps the popup that is shown now.
#[derive(Debug, Clone)]
pub struct PopupManager {
    popup: ClientPopup,
}

impl PopupManager {
    /// The popup that is shown now.
    pub closed spec fn current(&self) -> ClientPopup {
        self.popup
    }

    /// A manager with the welcome popup, switched off.
    pub fn new() -> (manager: Self)
        ensures
            manager.current().heading@ == "Velkommen"@,
            manager.current().paragraph@ == "Takk for at du har lastet ned appen vår!"@,
            !manager.current().active,
    {
        PopupManager {
            popup: ClientPopup {
                heading: String::from_str("Velkommen"),
                paragraph: String::from_str("Takk for at du har lastet ned appen vår!"),
                active: false,
            },
        }
    }

    /// The popup that is shown now.
    pub fn popup(&self) -> (popup: &ClientPopup)
        ensures
            *popup == self.current(),
    {
        &self.popup
    }

    /// Replaces the popup and hands back what is shown from now on.
    pub fn update(&mut self, update: ClientPopup) -> (shown: ClientPopup)
        ensures
            final(self).current() == update,
            shown == update,
    {
        let shown = ClientPopup {
            heading: update.heading.clone(),
            paragraph: update.paragraph.clone(),
            active: update.active,
        };
        self.popup = update;
        shown
    }
}

} // verus!
