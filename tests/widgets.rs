use embedded_graphics::prelude::Size as EgSize;
use embedded_graphics::primitives::Rectangle as EgRect;
use embedded_layout::layout::linear::LinearLayout;
use embedded_layout::prelude::horizontal;
use embedded_layout::view_group::Views;
use embedded_graphics::mono_font::ascii::FONT_6X10;
use embedded_graphics::mono_font::MonoTextStyle;
use embedded_graphics::pixelcolor::{Bgr565, RgbColor};
use embedded_graphics::prelude::{Dimensions, Point as EgPoint};
use embedded_graphics::text::Text;
use tft_ui::color::LogicalColor;
use tft_ui::geometry::{Point, Rectangle, Size};
use tft_ui::layout::center_on;
use tft_ui::screen::{Command, TFT};
use tft_ui::style::{palette, Style};
use tft_ui::widget::{styled_container, StyledRect};

fn rect(x: i32, y: i32, w: u32, h: u32) -> Rectangle {
    Rectangle { top_left: Point { x, y }, size: Size { width: w, height: h } }
}

#[test]
fn palettes_are_fixed_and_distinct() {
    for style in [Style::Header, Style::Regular] {
        let p = palette(style);
        assert_eq!(p, palette(style));
        assert_ne!(p.fill, p.outline);
        assert_ne!(p.fill, p.foreground);
        assert_ne!(p.outline, p.foreground);
    }
    assert_ne!(palette(Style::Header), palette(Style::Regular));
}

#[test]
fn header_and_regular_fills_differ() {
    assert_ne!(palette(Style::Header).fill, palette(Style::Regular).fill);
    let a = styled_container(Point { x: 4, y: 4 }, Size { width: 50, height: 20 }, Style::Header);
    let b = styled_container(Point { x: 4, y: 4 }, Size { width: 50, height: 20 }, Style::Regular);
    assert_eq!(a.area, b.area);
    assert_ne!(palette(a.style).fill, palette(b.style).fill);
}

#[test]
fn regular_palette_values() {
    let p = palette(Style::Regular);
    assert_eq!(p.fill, LogicalColor::dark_slate_gray());
    assert_eq!(p.outline, LogicalColor::red_color());
    assert_eq!(p.foreground, LogicalColor::white());
}

#[test]
fn container_has_one_pixel_outline() {
    let c = styled_container(Point { x: -3, y: 7 }, Size { width: 10, height: 11 }, Style::Header);
    assert_eq!(c, StyledRect { area: rect(-3, 7, 10, 11), style: Style::Header, stroke_width: 1 });
}

#[test]
fn contained_text_grows_the_text_box_by_the_margin() {
    let b = TFT::contained_text("OK", 16);
    assert_eq!(b.label.text, "OK");
    assert_eq!(b.label.position, Point { x: 8, y: 8 });
    assert_eq!(b.label_box, rect(8, 1, 12, 10));
    assert_eq!(b.background.area, rect(0, -7, 28, 26));
    assert_eq!(b.background.style, Style::Regular);
    assert_eq!(b.background.stroke_width, 1);
    assert_eq!(b.label.color, LogicalColor::white());
}

#[test]
fn text_box_matches_the_font() {
    for (s, m) in [("Controller initialized!", 16u32), ("a", 0), ("two\nlines", 7), ("", 4)] {
        let b = TFT::contained_text(s, m);
        let style = MonoTextStyle::new(&FONT_6X10, Bgr565::WHITE);
        let at = EgPoint::new((m / 2) as i32, (m / 2) as i32);
        let eg = Text::new(s, at, style).bounding_box();
        assert_eq!(b.label_box.size, Size { width: eg.size.width, height: eg.size.height });
        assert_eq!(b.background.area.size.width, eg.size.width + m);
        assert_eq!(b.background.area.size.height, eg.size.height + m);
        assert_eq!(b.label.position, Point { x: (m / 2) as i32, y: (m / 2) as i32 });
    }
}

#[test]
fn background_holds_the_text_box_with_even_margins() {
    for (s, m) in [("OK", 16u32), ("OK", 0), ("x", 5), ("two\nlines", 9), ("", 4)] {
        let b = TFT::contained_text(s, m);
        let (t, g) = (b.label_box, b.background.area);
        let left = t.top_left.x - g.top_left.x;
        let top = t.top_left.y - g.top_left.y;
        let right = (g.top_left.x + g.size.width as i32) - (t.top_left.x + t.size.width as i32);
        let bottom = (g.top_left.y + g.size.height as i32) - (t.top_left.y + t.size.height as i32);
        assert_eq!((left, top), ((m / 2) as i32, (m / 2) as i32));
        assert_eq!((right, bottom), ((m - m / 2) as i32, (m - m / 2) as i32));
    }
}

#[test]
fn odd_margin_rounds_down() {
    let b = TFT::contained_text("hi", 7);
    assert_eq!(b.label.position, Point { x: 3, y: 3 });
    assert_eq!(b.label_box.top_left, Point { x: 3, y: -4 });
    assert_eq!(b.background.area.top_left, Point { x: 0, y: -7 });
    assert_eq!(b.background.area.size, Size { width: 19, height: 17 });
}

#[test]
fn block_bounds_cover_text_and_background() {
    let b = TFT::contained_text("OK", 16);
    assert_eq!(b.bounds(), Some(rect(0, -7, 28, 26)));
    let small = TFT::contained_text("OK", 0);
    assert_eq!(small.bounds(), Some(rect(0, -7, 12, 10)));
}

#[test]
fn centered_ok_block_on_240_by_320() {
    let area = rect(0, 0, 240, 320);
    let placed = center_on(TFT::contained_text("OK", 16), area).unwrap();
    let bounds = placed.bounds().unwrap();
    assert_eq!(bounds, rect(106, 147, 28, 26));
    let cx2 = 2 * bounds.top_left.x + bounds.size.width as i32;
    let cy2 = 2 * bounds.top_left.y + bounds.size.height as i32;
    assert!((cx2 - 240).abs() <= 2);
    assert!((cy2 - 320).abs() <= 2);
    assert_eq!(placed.label.position, Point { x: 114, y: 162 });
}

#[test]
fn moving_past_i32_is_refused() {
    let b = TFT::contained_text("OK", 16);
    assert!(b.moved_by(i32::MAX, 0).is_none());
    let b = TFT::contained_text("OK", 16);
    let m = b.moved_by(-5, 2).unwrap();
    assert_eq!(m.background.area, rect(-5, -5, 28, 26));
    assert_eq!(m.label_box, rect(3, 3, 12, 10));
}

#[test]
fn alert_clears_then_shows_centered_block() {
    let mut screen = TFT::new();
    assert!(screen.fullscreen_alert(rect(0, 0, 320, 240), "Controller initialized!", true));
    let commands = screen.take();
    assert_eq!(commands.len(), 2);
    assert!(matches!(commands[0], Command::Clear(c) if c == LogicalColor::black()));
    match &commands[1] {
        Command::Block(b) => {
            assert_eq!(b.label.text, "Controller initialized!");
            let bounds = b.bounds().unwrap();
            assert_eq!(bounds.top_left.x + (bounds.size.width as i32 - 1) / 2, 159);
            assert_eq!(bounds.top_left.y + (bounds.size.height as i32 - 1) / 2, 119);
        }
        other => panic!("unexpected command {:?}", other),
    }
    assert!(screen.take().is_empty());
}

#[test]
fn alert_without_clear_records_only_the_block() {
    let mut screen = TFT::new();
    assert!(screen.fullscreen_alert(rect(0, 0, 240, 320), "x", false));
    let commands = screen.take();
    assert_eq!(commands.len(), 1);
    assert!(matches!(commands[0], Command::Block(_)));
}

#[test]
fn alert_that_cannot_be_placed_records_only_the_clear() {
    let mut screen = TFT::new();
    assert!(!screen.fullscreen_alert(rect(i32::MAX, 0, u32::MAX, 10), "x", true));
    let commands = screen.take();
    assert_eq!(commands.len(), 1);
    assert!(matches!(commands[0], Command::Clear(_)));
}

#[test]
fn screen_records_commands_in_order() {
    let mut screen = TFT::new();
    screen.clear_root();
    screen.part_clear(5, 6, 7, 8);
    screen.println("hello", 160, 20);
    let commands = screen.take();
    assert_eq!(commands.len(), 3);
    assert!(matches!(commands[0], Command::Clear(c) if c == LogicalColor::black()));
    match &commands[1] {
        Command::Fill(a, c) => {
            assert_eq!(*a, rect(5, 6, 7, 8));
            assert_eq!(*c, LogicalColor::black());
        }
        other => panic!("unexpected command {:?}", other),
    }
    match &commands[2] {
        Command::Text(t) => {
            assert_eq!(t.text, "hello");
            assert_eq!(t.position, Point { x: 160, y: 20 });
            assert_eq!(t.color, LogicalColor::white());
            assert!(t.centered);
        }
        other => panic!("unexpected command {:?}", other),
    }
}

#[test]
fn vertical_chain_stacks_blocks_centered() {
    let blocks = vec![TFT::contained_text("OK", 16), TFT::contained_text("Hello", 4)];
    let out = tft_ui::layout::arrange_vertical(blocks).unwrap();
    assert_eq!(out.len(), 2);
    assert_eq!(out[0].bounds(), Some(rect(3, 0, 28, 26)));
    assert_eq!(out[1].bounds(), Some(rect(0, 26, 34, 14)));
    assert_eq!(out[0].label.text, "OK");
    assert_eq!(out[1].label.text, "Hello");
    assert_eq!(out[0].label.position, Point { x: 11, y: 15 });
}

#[test]
fn vertical_chain_matches_the_layout_library() {
    let texts = [("a", 2u32), ("a longer line", 6), ("mid", 11)];
    let blocks: Vec<_> = texts.iter().map(|(s, m)| TFT::contained_text(s, *m)).collect();
    let mut eg: Vec<EgRect> = blocks
        .iter()
        .map(|b| {
            let r = b.bounds().unwrap();
            EgRect::new(EgPoint::new(r.top_left.x, r.top_left.y), EgSize::new(r.size.width, r.size.height))
        })
        .collect();
    let _ = LinearLayout::vertical(Views::new(&mut eg)).with_alignment(horizontal::Center).arrange();
    let out = tft_ui::layout::arrange_vertical(blocks).unwrap();
    for (b, e) in out.iter().zip(eg.iter()) {
        assert_eq!(b.bounds(), Some(rect(e.top_left.x, e.top_left.y, e.size.width, e.size.height)));
    }
}

#[test]
fn empty_chain_is_refused() {
    assert!(tft_ui::layout::arrange_vertical(Vec::new()).is_none());
}
