//! The clamping glyph converter, the cyclic color converter, the level
//! converter, and the converter pair.

use wipe::color::Color;
use wipe::convert::{
    CharConverterImpl, CharSample, ColorConverterImpl, ConverterImpl, Level, LevelConverterImpl,
};
use wipe::UNIT;

#[test]
fn char_convert_clear() {
    let converter = CharConverterImpl::new("abc".to_string());

    assert_eq!(CharSample::Clear, converter.convert(-UNIT / 10));
}

#[test]
fn char_convert_draw() {
    let converter = CharConverterImpl::new("xyz".to_string());

    assert_eq!(CharSample::Draw('x'), converter.convert(0));
    assert_eq!(CharSample::Draw('y'), converter.convert(UNIT / 2));
    assert_eq!(CharSample::Draw('z'), converter.convert(9 * UNIT / 10));
}

#[test]
fn char_convert_keep() {
    let converter = CharConverterImpl::new("123".to_string());

    assert_eq!(CharSample::Keep, converter.convert(UNIT));
    assert_eq!(CharSample::Keep, converter.convert(UNIT + UNIT / 2));
}

#[test]
fn char_convert_glyph_ramp() {
    // Four glyphs split the unit range into quarters; exactly one is
    // cleared below zero and kept at one.
    let converter = CharConverterImpl::new(".:+#".to_string());

    assert_eq!(CharSample::Clear, converter.convert(-UNIT / 10));
    assert_eq!(CharSample::Draw('.'), converter.convert(0));
    assert_eq!(CharSample::Draw('#'), converter.convert(9 * UNIT / 10));
    assert_eq!(CharSample::Keep, converter.convert(UNIT));
}

#[test]
fn color_convert_negative_index() {
    let converter = ColorConverterImpl::new(vec![Color::Red, Color::Green, Color::Blue]);

    assert_eq!(Color::Blue, converter.convert(-UNIT / 5));
}

#[test]
fn color_convert_index_zero() {
    let converter = ColorConverterImpl::new(vec![Color::Red, Color::Green, Color::Blue]);

    assert_eq!(Color::Red, converter.convert(0));
}

#[test]
fn color_convert() {
    let converter = ColorConverterImpl::new(vec![Color::Red, Color::Green, Color::Blue]);

    assert_eq!(Color::Green, converter.convert(UNIT / 2));
}

#[test]
fn color_convert_index_one() {
    let converter = ColorConverterImpl::new(vec![Color::Red, Color::Green, Color::Blue]);

    assert_eq!(Color::Red, converter.convert(UNIT));
}

#[test]
fn color_convert_index_above_one() {
    let converter = ColorConverterImpl::new(vec![Color::Red, Color::Green, Color::Blue]);

    assert_eq!(Color::Green, converter.convert(UNIT + UNIT / 2));
}

#[test]
fn level_convert_keep() {
    let converter = LevelConverterImpl::default();

    assert_eq!(Level::Keep, converter.convert(-UNIT / 10));
}

#[test]
fn level_convert_draw() {
    let converter = LevelConverterImpl::default();

    assert_eq!(Level::Draw(0), converter.convert(0));
    assert_eq!(Level::Draw(UNIT / 2), converter.convert(UNIT / 2));
    assert_eq!(Level::Draw(9 * UNIT / 10), converter.convert(9 * UNIT / 10));
}

#[test]
fn level_convert_clear() {
    let converter = LevelConverterImpl::default();

    assert_eq!(Level::Clear, converter.convert(UNIT));
    assert_eq!(Level::Clear, converter.convert(UNIT + UNIT / 2));
}

#[test]
fn mod_char() {
    let char = CharConverterImpl::new("M".to_string());
    let color = ColorConverterImpl::new(vec![Color::Yellow]);

    let converter = ConverterImpl::new(char, color);

    assert_eq!(CharSample::Draw('M'), converter.char(0));
}

#[test]
fn mod_color() {
    let char = CharConverterImpl::new("M".to_string());
    let color = ColorConverterImpl::new(vec![Color::Yellow]);

    let converter = ConverterImpl::new(char, color);

    assert_eq!(Color::Yellow, converter.color(0));
}
