use encrypt_canvas::codec::encrypt;
use encrypt_canvas::fragment::{decrypt_info, FontStyle, Position, RenderString};
use encrypt_canvas::page::{CanvasAttributes, Caption, Node, Page, RenderError};
use encrypt_canvas::viewer::{resolve, FreePlan, ResolutionUnavailable, User, DEFAULT_VIP_LEVEL};
use encrypt_canvas::{encrypt_canvas, Params};

fn fragment(text: &str, x: f64, y: f64, size: f64) -> RenderString {
    RenderString {
        cipher: encrypt(&String::from(text)),
        position: Position { x: x.to_bits(), y: y.to_bits() },
        font_style: FontStyle { size: size.to_bits() },
    }
}

fn hello_world(token: &str) -> Params {
    Params {
        render_info: vec![fragment("hello", 10.0, 20.0, 14.0), fragment("world", 10.0, 50.0, 14.0)],
        user_token: String::from(token),
    }
}

fn assert_fragment(f: &RenderString, text: &str, x: f64, y: f64, size: f64) {
    assert_eq!(f.cipher, text);
    assert_eq!(f64::from_bits(f.position.x), x);
    assert_eq!(f64::from_bits(f.position.y), y);
    assert_eq!(f64::from_bits(f.font_style.size), size);
}

fn assert_hello_world(texts: &Vec<RenderString>) {
    assert_eq!(texts.len(), 2);
    assert_fragment(&texts[0], "hello", 10.0, 20.0, 14.0);
    assert_fragment(&texts[1], "world", 10.0, 50.0, 14.0);
}

fn assert_baseline(nodes: &Vec<Node>) {
    assert!(matches!(nodes[0], Node::Caption(Caption::Canvas)));
    match &nodes[1] {
        Node::Canvas { id, width, height, texts } => {
            assert_eq!(id, "encrypt-canvas");
            assert_eq!((*width, *height), (100, 100));
            assert_hello_world(texts);
        }
        other => panic!("expected a canvas, found {:?}", other),
    }
    assert!(matches!(nodes[2], Node::Caption(Caption::Image)));
    match &nodes[3] {
        Node::Image { source, width, height } => {
            assert_eq!(source, "encrypt-canvas");
            assert_eq!((*width, *height), (100, 100));
        }
        other => panic!("expected an image, found {:?}", other),
    }
}

#[test]
fn tier_zero_gets_only_the_canvas_and_its_image() {
    let attrs = CanvasAttributes::standard();
    let page = encrypt_canvas(hello_world("t1"), &attrs, Ok(0)).unwrap();
    let nodes = page.nodes();
    assert_eq!(nodes.len(), 4);
    assert_baseline(nodes);
    assert!(!nodes.iter().any(|n| matches!(n, Node::Overlay { .. })));
}

#[test]
fn tier_three_also_gets_the_copyable_overlay() {
    let attrs = CanvasAttributes::standard();
    let page = encrypt_canvas(hello_world("t1"), &attrs, Ok(3)).unwrap();
    let nodes = page.nodes();
    assert_eq!(nodes.len(), 6);
    assert_baseline(nodes);
    assert!(matches!(nodes[4], Node::Caption(Caption::Overlay)));
    match &nodes[5] {
        Node::Overlay { width, height, items } => {
            assert_eq!((*width, *height), (100, 100));
            assert_hello_world(items);
        }
        other => panic!("expected an overlay, found {:?}", other),
    }
}

#[test]
fn failed_resolution_stays_at_baseline() {
    let attrs = CanvasAttributes::standard();
    let page = encrypt_canvas(hello_world("t1"), &attrs, Err(ResolutionUnavailable)).unwrap();
    assert_eq!(page.nodes().len(), 4);
    assert_baseline(page.nodes());
}

#[test]
fn stand_in_lookup_grants_the_default_tier() {
    assert_eq!(resolve(&String::from("t1")), Ok(3));
    assert_eq!(DEFAULT_VIP_LEVEL, 3);
    let attrs = CanvasAttributes::standard();
    let page = encrypt_canvas(hello_world("t1"), &attrs, resolve(&String::from("t1"))).unwrap();
    assert_eq!(page.nodes().len(), 6);
}

#[test]
fn empty_request_still_renders_the_surfaces() {
    let attrs = CanvasAttributes::standard();
    let params = Params { render_info: Vec::new(), user_token: String::new() };
    let page = encrypt_canvas(params, &attrs, Ok(1)).unwrap();
    let nodes = page.nodes();
    assert_eq!(nodes.len(), 6);
    match &nodes[5] {
        Node::Overlay { items, .. } => assert!(items.is_empty()),
        other => panic!("expected an overlay, found {:?}", other),
    }
}

#[test]
fn derived_image_without_canvas_is_missing_surface() {
    let attrs = CanvasAttributes::standard();
    let user = User::<FreePlan>::new(String::from("t1"), 0, hello_world("t1").render_info);
    let mut page = Page::new();
    assert_eq!(user.render_as_img(&mut page, &attrs), Err(RenderError::MissingSurface));
    assert!(page.nodes().is_empty());
}

#[test]
fn derived_image_needs_the_surface_with_its_identifier() {
    let other = CanvasAttributes { id: String::from("other"), width: 100, height: 100 };
    let attrs = CanvasAttributes::standard();
    let user = User::<FreePlan>::new(String::from("t1"), 0, hello_world("t1").render_info);
    let mut page = Page::new();
    user.render_as_canvas(&mut page, &other);
    assert!(page.contains_surface(&String::from("other")));
    assert!(!page.contains_surface(&attrs.id));
    assert_eq!(user.render_as_img(&mut page, &attrs), Err(RenderError::MissingSurface));
    assert_eq!(page.nodes().len(), 2);
    assert_eq!(user.render_as_img(&mut page, &other), Ok(()));
    assert_eq!(page.nodes().len(), 4);
}

#[test]
fn promote_at_tier_zero_hands_the_viewer_back() {
    let user = User::<FreePlan>::new(String::from("t1"), 0, Vec::new());
    match user.promote() {
        Ok(_) => panic!("a tier 0 viewer was promoted"),
        Err(back) => assert_eq!(back.get_vip_level(), 0),
    }
}

#[test]
fn promote_keeps_the_tier() {
    let mut user = User::<FreePlan>::new(String::from("t1"), 0, Vec::new());
    user.fetch_vip_level(Ok(3));
    assert_eq!(user.get_vip_level(), 3);
    let vip = user.promote().ok().unwrap();
    assert_eq!(vip.get_vip_level(), 3);
}

#[test]
fn failed_lookup_resets_the_tier() {
    let mut user = User::<FreePlan>::new(String::from("t1"), 5, Vec::new());
    user.fetch_vip_level(Err(ResolutionUnavailable));
    assert_eq!(user.get_vip_level(), 0);
    user.set_vip_level(2);
    assert_eq!(user.get_vip_level(), 2);
}

#[test]
fn decrypt_pass_runs_once() {
    let mut info = hello_world("t1").render_info;
    decrypt_info(&mut info);
    assert_hello_world(&info);
    decrypt_info(&mut info);
    assert_eq!(info[0].cipher, encrypt(&String::from("hello")));
    assert_ne!(info[0].cipher, "hello");
}

#[test]
fn standard_surface_attributes() {
    let attrs = CanvasAttributes::standard();
    assert_eq!(attrs.id, "encrypt-canvas");
    assert_eq!(attrs.width, 100);
    assert_eq!(attrs.height, 100);
}
