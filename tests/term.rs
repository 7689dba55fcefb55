use logrs::{Border, Colour, Printer};

#[test]
fn colour_codes() {
    assert_eq!(Colour::Red.as_str(), "\x1B[31m");
    assert_eq!(Colour::Off.as_str(), "\x1B[39m");
    assert_eq!(Colour::Grey.as_bg_str(), "\x1B[100m");
    assert_eq!(Colour::Off.as_bg_str(), "\x1B[49m");
}

#[test]
fn painting_wraps_text() {
    assert_eq!(Colour::Green.paint("go"), "\x1B[32mgo\x1B[39m");
    assert_eq!(Colour::paint_with(Colour::Blue, "b"), "\x1B[34mb\x1B[39m");
    assert_eq!(Colour::Cyan.paint_bg("c"), "\x1B[46mc\x1B[49m");
    assert_eq!(Colour::paint_bg_with(Colour::White, ""), "\x1B[47m\x1B[49m");
}

#[test]
fn custom_colours() {
    let c = Colour::custom(1, 22, 255);
    assert_eq!(c.paint("x"), "\x1B[38;2;1;22;255mx\x1B[39m");
    assert_eq!(c.paint_bg("x"), "\x1B[48;2;1;22;255mx\x1B[49m");
    let z = Colour::custom(0, 100, 4096);
    assert_eq!(z.paint(""), "\x1B[38;2;0;100;4096m\x1B[39m");
}

#[test]
fn attribute_wrappers() {
    assert_eq!(logrs::term::bold(String::from("b").as_str()), "\x1B[1mb\x1B[22m");
    assert_eq!(logrs::term::underline("u"), "\x1B[4mu\x1B[24m");
    assert_eq!(logrs::term::overline("o"), "\x1B[53mo\x1B[55m");
    assert_eq!(logrs::term::frame("f"), "\x1B[51mf\x1B[54m");
    assert_eq!(logrs::term::encircled("e"), "\x1B[52me\x1B[54m");
}

#[test]
fn printer_applies_attributes_in_order() {
    assert_eq!(Printer::new().format("plain"), "plain");
    let p = Printer::new()
        .set_bold()
        .set_underline()
        .set_colour(Colour::Red)
        .set_bg_colour(Colour::Black)
        .set_overline()
        .set_framed();
    assert_eq!(
        p.format("t"),
        "\x1B[51m\x1B[53m\x1B[4m\x1B[1m\x1B[40m\x1B[31mt\x1B[39m\x1B[49m\x1B[22m\x1B[24m\x1B[55m\x1B[54m"
    );
    let e = Printer::new().set_framed().set_encircled();
    assert_eq!(e.format("o"), "\x1B[52mo\x1B[54m");
}

#[test]
fn hash_border_components() {
    let (top, prefix, suffix, bottom) = Border::Hash.generate_border_components(3);
    assert_eq!(top, "#######\n");
    assert_eq!(prefix, "# ");
    assert_eq!(suffix, " #\n");
    assert_eq!(bottom, "#######");
}

#[test]
fn line_border_components() {
    let (top, prefix, suffix, bottom) = Border::Line.generate_border_components(1);
    assert_eq!(top, "\u{250C}\u{2500}\u{2500}\u{2500}\u{2510}\n");
    assert_eq!(prefix, "\u{2502} ");
    assert_eq!(suffix, " \u{2502}\n");
    assert_eq!(bottom, "\u{2514}\u{2500}\u{2500}\u{2500}\u{2518}");
    let (top, _, _, bottom) = Border::DoubleLine.generate_border_components(0);
    assert_eq!(top, "\u{2554}\u{2550}\u{2550}\u{2557}\n");
    assert_eq!(bottom, "\u{255A}\u{2550}\u{2550}\u{255D}");
}

#[test]
fn no_border_is_empty() {
    let (top, prefix, suffix, bottom) = Border::Off.generate_border_components(10);
    assert!(top.is_empty() && prefix.is_empty() && suffix.is_empty() && bottom.is_empty());
}
