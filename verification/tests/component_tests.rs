use ggsbot::components::navbar::NavBar;
use ggsbot::discord::component::{ButtonStyle, Component, CustomComponent, SelectMenuType, join_custom_id};
use ggsbot::discord::interaction::route_component;
use ggsbot::discord::response::InteractionResponseType;
use ggsbot::error::Error;
use ggsbot::pages::hello::HelloSetupPage;

fn button_parts(c: &Component) -> (String, String, ButtonStyle) {
    match c {
        Component::Button(b) => (
            b.custom_id.clone().unwrap(),
            b.label.clone().unwrap(),
            b.style,
        ),
        _ => panic!("not a button"),
    }
}

#[test]
fn navbar_pages() {
    let mut bar = NavBar::new("hello".to_string(), None);
    assert_eq!(bar.get_page(), 0);
    assert_eq!(bar.next_page(), 1);
    assert_eq!(bar.next_page(), 2);
    assert_eq!(bar.prev_page(), 1);
    bar.set_page(200);
    assert_eq!(bar.get_page(), 200);
    bar.reset_page();
    assert_eq!(bar.get_page(), 0);
    let bar = NavBar::new("hello".to_string(), Some(9));
    assert_eq!(bar.get_page(), 9);
}

#[test]
fn next_then_prev_returns_to_the_page() {
    for start in [0u8, 1, 100, 254] {
        let mut bar = NavBar::new("p".to_string(), Some(start));
        bar.next_page();
        assert_eq!(bar.prev_page(), start);
    }
    for start in [1u8, 100, 255] {
        let mut bar = NavBar::new("p".to_string(), Some(start));
        bar.prev_page();
        assert_eq!(bar.next_page(), start);
    }
}

#[test]
fn navbar_builds_three_buttons_under_its_id() {
    let bar = NavBar::new("hello".to_string(), Some(3));
    assert_eq!(bar.id(), "hello:nav:3");
    match bar.build() {
        Component::ActionRow(row) => {
            assert_eq!(row.len(), 3);
            assert_eq!(button_parts(&row[0]), ("hello:nav:3:back".to_string(), "Back".to_string(), ButtonStyle::Secondary));
            assert_eq!(button_parts(&row[1]), ("hello:nav:3:cancel".to_string(), "Cancel".to_string(), ButtonStyle::Danger));
            assert_eq!(button_parts(&row[2]), ("hello:nav:3:next".to_string(), "Next".to_string(), ButtonStyle::Primary));
        },
        _ => panic!("not a row"),
    }
}

#[test]
fn select_menu_ids_are_children_of_the_component() {
    let bar = NavBar::new("hello".to_string(), None);
    match bar.select_menu("pick", SelectMenuType::Channel, false, None, None, None, Some(1), Some(1), None, None) {
        Component::SelectMenu(m) => {
            assert_eq!(m.custom_id, "hello:nav:0:pick");
            assert_eq!(m.kind, SelectMenuType::Channel);
            assert_eq!(m.max_values, Some(1));
        },
        _ => panic!("not a select menu"),
    }
}

#[test]
fn child_ids_route_back_to_their_component() {
    let handlers = vec!["ext".to_string(), "hello".to_string()];
    let id = join_custom_id("hello".to_string(), "nav:0:next");
    assert_eq!(id, "hello:nav:0:next");
    let routed = route_component(&handlers, &id);
    assert!(matches!(routed, Ok((1, t)) if t == "nav:0:next"));
    let missing = route_component(&handlers, "nasa:x");
    assert!(matches!(missing, Err(Error::Generic(m)) if m == "Impossibile trovare il componente richiesto"));
    let no_colon = route_component(&handlers, "hello");
    assert!(matches!(no_colon, Err(Error::Generic(_))));
}

fn page_of(target: Option<&str>) -> (InteractionResponseType, String, String) {
    let page = HelloSetupPage::new();
    let r = page.handle(target.map(|t| t.to_string())).ok().unwrap();
    let data = r.data.unwrap();
    let content = data.content.unwrap();
    let next_id = match &data.components.unwrap()[0] {
        Component::ActionRow(row) => button_parts(&row[2]).0,
        _ => panic!("not a row"),
    };
    (r.kind, content, next_id)
}

#[test]
fn hello_page_starts_on_page_zero() {
    assert_eq!(page_of(None), (
        InteractionResponseType::ChannelMessageWithSource,
        "Pagina numero: 0".to_string(),
        "hello:nav:0:next".to_string(),
    ));
}

#[test]
fn hello_page_moves_between_pages() {
    assert_eq!(page_of(Some("nav:0:next")), (
        InteractionResponseType::UpdateMessage,
        "Pagina numero: 1".to_string(),
        "hello:nav:1:next".to_string(),
    ));
    assert_eq!(page_of(Some("nav:5:back")), (
        InteractionResponseType::UpdateMessage,
        "Pagina numero: 4".to_string(),
        "hello:nav:4:next".to_string(),
    ));
}

#[test]
fn hello_page_acknowledges_other_targets() {
    let page = HelloSetupPage::new();
    assert_eq!(page.id(), "hello");
    let r = page.handle(Some("nav:0:cancel".to_string())).ok().unwrap();
    assert_eq!(r.kind, InteractionResponseType::ChannelMessageWithSource);
    assert_eq!(r.data.unwrap().content.unwrap(), "Interaction received!");
}

#[test]
fn hello_page_refuses_a_bad_page_number() {
    let page = HelloSetupPage::new();
    let r = page.handle(Some("nav:x:next".to_string()));
    assert!(matches!(r, Err(Error::InteractionFailed(_))));
    let r = page.handle(Some("nav:256:back".to_string()));
    assert!(matches!(r, Err(Error::InteractionFailed(_))));
}

#[test]
fn pressing_next_then_back_returns_to_the_page() {
    let handlers = vec!["hello".to_string()];
    let bar = NavBar::new("hello".to_string(), Some(4));
    let next_id = match bar.build() {
        Component::ActionRow(row) => button_parts(&row[2]).0,
        _ => panic!("not a row"),
    };
    let (_, target) = route_component(&handlers, &next_id).ok().unwrap();
    assert_eq!(target, "nav:4:next");
    let page = HelloSetupPage::new();
    let r = page.handle(Some(target)).ok().unwrap();
    let data = r.data.unwrap();
    assert_eq!(data.content.unwrap(), "Pagina numero: 5");
    let back_id = match &data.components.unwrap()[0] {
        Component::ActionRow(row) => button_parts(&row[0]).0,
        _ => panic!("not a row"),
    };
    let (_, target) = route_component(&handlers, &back_id).ok().unwrap();
    assert_eq!(target, "nav:5:back");
    let r = page.handle(Some(target)).ok().unwrap();
    assert_eq!(r.data.unwrap().content.unwrap(), "Pagina numero: 4");
}
