//! The setup page of the `hello` command: a message with a page number and a
//! navigation bar that moves between pages.

use vstd::prelude::*;
use vstd::string::*;

use crate::components::navbar::{NavBar, is_navbar_row, navbar_id};
use crate::discord::component::{Component, CustomComponent, child_custom_id};
use crate::discord::response::{
    InteractionResponse, InteractionResponseData, InteractionResponseType, ResponseBuilder, empty_data,
};
use crate::error::Error;
use crate::text::{
    decimal, lemma_decimal_digits, lemma_parse_decimal, lemma_split_on_joined, lemma_split_on_plain,
    lemma_split_once_joined, parse_unsigned, parse_unsigned_radix, split_char, split_on, split_once_on, u64_to_decimal,
};

verus! {

/// What a component target of the page asks for.
pub enum HelloTarget {
    /// `nav:<page>:next`.
    Next(u8),
    /// `nav:<page>:back`.
    Back(u8),
    /// `nav:<page>:next` or `nav:<page>:back` where `<page>` is no `u8`.
    BadPage,
    /// Anything else.
    Other,
}

/// Reads a target of the page: `nav`, a page number and a direction, split by `:`.
pub open spec fn parse_hello_target(target: Seq<char>) -> HelloTarget {
    let parts = split_on(target, ':');
    if parts.len() == 3 && parts[0] == "nav"@ && (parts[2] == "next"@ || parts[2] == "back"@) {
        match parse_unsigned(parts[1], 10, 255) {
            Some(p) => if parts[2] == "next"@ { HelloTarget::Next(p as u8) } else { HelloTarget::Back(p as u8) },
            None => HelloTarget::BadPage,
        }
    } else {
        HelloTarget::Other
    }
}

/// Whether `r` is the page message of the `hello` page on `page`, of kind `kind`.
pub open spec fn is_page_response(r: InteractionResponse, kind: InteractionResponseType, page: u8) -> bool {
    &&& r.kind == kind
    &&& r.data matches Some(d)
    &&& d.content matches Some(c) && c@ == "Pagina numero: "@ + decimal(page as nat)
    &&& d.components matches Some(v) && v@.len() == 1 && is_navbar_row(v@[0], navbar_id("hello"@, page))
    &&& d == (InteractionResponseData { content: d.content, components: d.components, ..empty_data() })
}

/// Whether `r` is the plain acknowledgement `Interaction received!`.
pub open spec fn is_ack_response(r: InteractionResponse) -> bool {
    &&& r.kind == InteractionResponseType::ChannelMessageWithSource
    &&& r.data matches Some(d)
    &&& d.content matches Some(c) && c@ == "Interaction received!"@
    &&& d == (InteractionResponseData { content: d.content, ..empty_data() })
}

/// The setup page of the `hello` command.
pub struct HelloSetupPage {}

impl HelloSetupPage {
    pub fn new() -> (res: Self) {
        HelloSetupPage {}
    }

    /// The page's id.
    pub fn id(&self) -> (res: String)
        ensures
            res@ == "hello"@,
    {
        "hello".to_owned()
    }

    /// Answers the page: without a target, page 0; for `nav:<page>:next` or
    /// `nav:<page>:back`, the message updated to the next or the previous
    /// page; for any other target, a plain acknowledgement.
    pub fn handle(&self, target: Option<String>) -> (res: Result<InteractionResponse, Error>)
        requires
            target matches Some(t) ==> match parse_hello_target(t@) {
                HelloTarget::Next(p) => p < 255,
                HelloTarget::Back(p) => p > 0,
                _ => true,
            },
        ensures
            match target {
                None => res matches Ok(r) && is_page_response(r, InteractionResponseType::ChannelMessageWithSource, 0),
                Some(t) => match parse_hello_target(t@) {
                    HelloTarget::Next(p) => res matches Ok(r)
                        && is_page_response(r, InteractionResponseType::UpdateMessage, (p + 1) as u8),
                    HelloTarget::Back(p) => res matches Ok(r)
                        && is_page_response(r, InteractionResponseType::UpdateMessage, (p - 1) as u8),
                    HelloTarget::BadPage => res matches Err(Error::InteractionFailed(_)),
                    HelloTarget::Other => res matches Ok(r) && is_ack_response(r),
                },
            },
    {
        let mut navbar = NavBar::new(self.id(), None);
        let target = match target {
            None => {
                let component = navbar.build();
                let content = page_content(0);
                let mut components: Vec<Component> = Vec::new();
                components.push(component);
                return Ok(ResponseBuilder::new(InteractionResponseType::ChannelMessageWithSource)
                    .content(content)
                    .components(components)
                    .build());
            },
            Some(t) => t,
        };
        let parts = split_char(target.as_str(), ':');
        proof {
            reveal_strlit("next");
            reveal_strlit("back");
        }
        if parts.len() == 3 && parts[0] == "nav".to_owned()
            && (parts[2] == "next".to_owned() || parts[2] == "back".to_owned()) {
            let page = match parse_unsigned_radix(parts[1].as_str(), 10, 255) {
                Some(p) => p as u8,
                None => return Err(Error::InteractionFailed("Invalid page number".to_owned())),
            };
            navbar.set_page(page);
            let new_page = if parts[2] == "next".to_owned() {
                navbar.next_page()
            } else {
                navbar.prev_page()
            };
            let component = navbar.build();
            let mut components: Vec<Component> = Vec::new();
            components.push(component);
            return Ok(ResponseBuilder::new(InteractionResponseType::UpdateMessage)
                .components(components)
                .content(page_content(new_page))
                .build());
        }
        Ok(ResponseBuilder::new(InteractionResponseType::ChannelMessageWithSource)
            .content("Interaction received!".to_owned())
            .build())
    }
}

/// `Pagina numero: <page>`.
fn page_content(page: u8) -> (res: String)
    ensures
        res@ == "Pagina numero: "@ + decimal(page as nat),
{
    let mut s = "Pagina numero: ".to_owned();
    let digits = u64_to_decimal(page as u64);
    s.append(digits.as_str());
    s
}

/// The target that a navigation button of the hello page on `page` sends:
/// `nav:<page>:<direction>`.
pub open spec fn nav_target(page: u8, direction: Seq<char>) -> Seq<char> {
    "nav:"@ + decimal(page as nat) + ":"@ + direction
}

proof fn lemma_nav_button(page: u8, direction: Seq<char>)
    requires
        direction == "next"@ || direction == "back"@,
    ensures
        split_once_on(child_custom_id(navbar_id("hello"@, page), direction), ':')
            == Some(("hello"@, nav_target(page, direction))),
        split_on(nav_target(page, direction), ':') == seq!["nav"@, decimal(page as nat), direction],
{
    reveal_strlit("hello");
    reveal_strlit(":nav:");
    reveal_strlit(":");
    reveal_strlit("nav:");
    reveal_strlit("nav");
    reveal_strlit("next");
    reveal_strlit("back");
    let d = decimal(page as nat);
    lemma_decimal_digits(page as nat);
    assert forall|j: int| 0 <= j < d.len() implies d[j] != ':' by {
        assert('0' <= d[j] <= '9');
    }
    let rest = nav_target(page, direction);
    assert(child_custom_id(navbar_id("hello"@, page), direction) =~= "hello"@ + seq![':'] + rest);
    lemma_split_once_joined("hello"@, ':', rest);
    assert(rest =~= "nav"@ + seq![':'] + (d + seq![':'] + direction));
    lemma_split_on_joined("nav"@, ':', d + seq![':'] + direction);
    lemma_split_on_joined(d, ':', direction);
    lemma_split_on_plain(direction, ':');
    assert(seq!["nav"@] + (seq![d] + seq![direction]) =~= seq!["nav"@, d, direction]);
}

/// The navigation buttons of the hello page lead where they say: the button
/// `next` (or `back`) of the bar on `page` reaches the hello page with a
/// target that it reads as a move forward (or back) from `page`.
pub proof fn lemma_nav_buttons_round_trip(page: u8)
    ensures
        split_once_on(child_custom_id(navbar_id("hello"@, page), "next"@), ':')
            == Some(("hello"@, nav_target(page, "next"@))),
        parse_hello_target(nav_target(page, "next"@)) == HelloTarget::Next(page),
        split_once_on(child_custom_id(navbar_id("hello"@, page), "back"@), ':')
            == Some(("hello"@, nav_target(page, "back"@))),
        parse_hello_target(nav_target(page, "back"@)) == HelloTarget::Back(page),
{
    reveal_strlit("nav");
    reveal_strlit("next");
    reveal_strlit("back");
    lemma_nav_button(page, "next"@);
    lemma_nav_button(page, "back"@);
    lemma_parse_decimal(page as nat, 255);
    assert("next"@[0] != "back"@[0]);
}

} // verus!
