//! Pallets, the color-choice factory and the pallet wiring tables.

use wipe::color::{Color, ColorEnum, SimpleColorSamplerFactory};
use wipe::pallet::{choose_pallet, create_pallet, pallet_colors, Pallet, PalletEnum, PalletKind};
use wipe::UNIT;

#[test]
fn color_factory_create() {
    let factory = SimpleColorSamplerFactory::new();

    factory.create(ColorEnum::Red);
    factory.create(ColorEnum::Green);
    factory.create(ColorEnum::Blue);
    factory.create(ColorEnum::LightRed);
    factory.create(ColorEnum::LightGreen);
    factory.create(ColorEnum::LightBlue);
    factory.create(ColorEnum::White);
    factory.create(ColorEnum::Rainbow);
}

#[test]
fn color_factory_choose_from_all() {
    let factory = SimpleColorSamplerFactory::new();

    assert!(matches!(
        factory.pick(Vec::new(), 7),
        ColorEnum::Rainbow
    ));
}

#[test]
fn color_factory_choose_from_options() {
    let factory = SimpleColorSamplerFactory::new();
    let options = vec![ColorEnum::Blue];

    assert!(matches!(factory.pick(options, 4), ColorEnum::Blue));
}

#[test]
fn enum_copy() {
    let color = ColorEnum::Green;
    let copy = color;

    assert!(matches!(copy, ColorEnum::Green))
}

#[test]
fn enum_clone() {
    let color = ColorEnum::Green;
    let copy = color.clone();

    assert!(matches!(copy, ColorEnum::Green))
}

#[test]
fn pallet_sample() {
    let pallet = Pallet::new(vec![Color::Red, Color::Yellow, Color::Green]);

    assert_eq!(Color::Red, pallet.sample(UNIT / 10));
    assert_eq!(Color::Yellow, pallet.sample(4 * UNIT / 10));
    assert_eq!(Color::Green, pallet.sample(7 * UNIT / 10));
    assert_eq!(Color::Red, pallet.sample(-UNIT / 10));
}

#[test]
fn choose_pallet_from_all() {
    assert!(matches!(
        choose_pallet(Vec::new(), 7),
        PalletEnum::Rainbow
    ));
    assert!(matches!(choose_pallet(Vec::new(), 8), PalletEnum::Red));
}

#[test]
fn choose_pallet_from_options() {
    let options = vec![PalletEnum::Blue, PalletEnum::White];

    assert!(matches!(choose_pallet(options, 3), PalletEnum::White));
}

#[test]
fn create_pallet_all_defined() {
    for pallet in [
        PalletEnum::Red,
        PalletEnum::RedLight,
        PalletEnum::Green,
        PalletEnum::GreenLight,
        PalletEnum::Blue,
        PalletEnum::BlueLight,
        PalletEnum::White,
        PalletEnum::Rainbow,
    ] {
        create_pallet(pallet).sample(UNIT / 2);
    }
}

#[test]
fn args_pallet_all_defined() {
    for kind in [
        PalletKind::Red,
        PalletKind::Yellow,
        PalletKind::Green,
        PalletKind::Blue,
        PalletKind::Magenta,
        PalletKind::Cyan,
        PalletKind::Rainbow,
        PalletKind::DarkRed,
        PalletKind::DarkYellow,
        PalletKind::DarkGreen,
        PalletKind::DarkBlue,
        PalletKind::DarkMagenta,
        PalletKind::DarkCyan,
        PalletKind::DarkRainbow,
        PalletKind::RedYellow,
        PalletKind::YellowGreen,
        PalletKind::GreenBlue,
        PalletKind::BlueCyan,
        PalletKind::CyanMagenta,
        PalletKind::MagentaRed,
        PalletKind::Gray,
    ] {
        assert!(pallet_colors(kind).len() > 0);
    }
}

#[test]
fn pallet_colors_exact() {
    assert_eq!(
        vec![Color::DarkRed, Color::Red, Color::White],
        pallet_colors(PalletKind::Red)
    );
    assert_eq!(
        vec![Color::Black, Color::DarkGrey, Color::Grey, Color::White],
        pallet_colors(PalletKind::Gray)
    );
}
