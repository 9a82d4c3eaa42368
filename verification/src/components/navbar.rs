//! A row of Back / Cancel / Next buttons for paged messages.

use vstd::prelude::*;
use vstd::string::*;

use crate::discord::component::{ButtonStyle, Component, CustomComponent, child_custom_id};
use crate::text::{decimal, u64_to_decimal};

verus! {

/// A navigation bar for the pages of a parent component.
pub struct NavBar {
    parent_id: String,
    page: u8,
}

/// The id of the navigation bar of `parent` on `page`: `parent:nav:page`.
pub open spec fn navbar_id(parent: Seq<char>, page: u8) -> Seq<char> {
    parent + ":nav:"@ + decimal(page as nat)
}

/// Whether `b` is a button with custom id `parent_id:id`, label `label` and
/// style `style`, enabled, without emoji, link or SKU.
pub open spec fn is_nav_button(c: Component, parent_id: Seq<char>, id: Seq<char>, label: Seq<char>, style: ButtonStyle) -> bool {
    &&& c matches Component::Button(b)
    &&& b.custom_id matches Some(cid) && cid@ == child_custom_id(parent_id, id)
    &&& b.label matches Some(l) && l@ == label
    &&& b.style == style
    &&& b.emoji is None && b.url is None && b.sku_id is None && !b.disabled
}

/// Whether `c` is the row of the navigation bar whose id is `id`: the
/// buttons `back`, `cancel` and `next`.
pub open spec fn is_navbar_row(c: Component, id: Seq<char>) -> bool {
    &&& c matches Component::ActionRow(row)
    &&& row@.len() == 3
    &&& is_nav_button(row@[0], id, "back"@, "Back"@, ButtonStyle::Secondary)
    &&& is_nav_button(row@[1], id, "cancel"@, "Cancel"@, ButtonStyle::Danger)
    &&& is_nav_button(row@[2], id, "next"@, "Next"@, ButtonStyle::Primary)
}

/// The page after going forward from `page`.
pub open spec fn page_after_next(page: u8) -> u8 {
    (page + 1) as u8
}

/// The page after going back from `page`.
pub open spec fn page_after_prev(page: u8) -> u8 {
    (page - 1) as u8
}

impl NavBar {
    pub closed spec fn parent(&self) -> Seq<char> {
        self.parent_id@
    }

    pub closed spec fn current_page(&self) -> u8 {
        self.page
    }

    /// A bar for `parent_id`, on `start_page` or on page 0.
    pub fn new(parent_id: String, start_page: Option<u8>) -> (res: Self)
        ensures
            res.parent() == parent_id@,
            res.current_page() == match start_page {
                Some(p) => p,
                None => 0,
            },
    {
        NavBar {
            parent_id: parent_id,
            page: match start_page {
                Some(p) => p,
                None => 0,
            },
        }
    }

    pub fn reset_page(&mut self)
        ensures
            final(self).current_page() == 0,
            final(self).parent() == old(self).parent(),
    {
        self.page = 0;
    }

    pub fn set_page(&mut self, page: u8)
        ensures
            final(self).current_page() == page,
            final(self).parent() == old(self).parent(),
    {
        self.page = page;
    }

    pub fn get_page(&self) -> (res: u8)
        ensures
            res == self.current_page(),
    {
        self.page
    }

    /// Goes back one page (there is none before page 0).
    pub fn prev_page(&mut self) -> (res: u8)
        requires
            old(self).current_page() > 0,
        ensures
            res == page_after_prev(old(self).current_page()),
            final(self).current_page() == res,
            final(self).parent() == old(self).parent(),
    {
        self.page = self.page - 1;
        self.page
    }

    /// Goes forward one page (there is none after page 255).
    pub fn next_page(&mut self) -> (res: u8)
        requires
            old(self).current_page() < 255,
        ensures
            res == page_after_next(old(self).current_page()),
            final(self).current_page() == res,
            final(self).parent() == old(self).parent(),
    {
        self.page = self.page + 1;
        self.page
    }
}

impl CustomComponent for NavBar {
    open spec fn spec_id(&self) -> Seq<char> {
        navbar_id(self.parent(), self.current_page())
    }

    fn id(&self) -> (res: String) {
        let mut s = self.parent_id.clone();
        s.append(":nav:");
        let digits = u64_to_decimal(self.page as u64);
        s.append(digits.as_str());
        s
    }

    fn build(&self) -> (res: Component)
        ensures
            is_navbar_row(res, self.spec_id()),
    {
        let mut components: Vec<Component> = Vec::new();
        components.push(self.button("back", Some("Back".to_owned()), None, ButtonStyle::Secondary, None, false, None));
        components.push(self.button("cancel", Some("Cancel".to_owned()), None, ButtonStyle::Danger, None, false, None));
        components.push(self.button("next", Some("Next".to_owned()), None, ButtonStyle::Primary, None, false, None));
        self.action_row(components)
    }
}

/// Going forward one page and back again returns to the page before.
pub proof fn lemma_next_then_prev(page: u8)
    requires
        page < 255,
    ensures
        page_after_next(page) > 0,
        page_after_prev(page_after_next(page)) == page,
{
}

/// Going back one page and forward again returns to the page before.
pub proof fn lemma_prev_then_next(page: u8)
    requires
        page > 0,
    ensures
        page_after_prev(page) < 255,
        page_after_next(page_after_prev(page)) == page,
{
}

} // verus!
