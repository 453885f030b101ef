//! The brightness samplers and the cyclic converters.

use wipe::char::SimpleCharSampler;
use wipe::color::{Color, SimpleColorSampler};
use wipe::sampler::{CharConverterImpl, Level, LevelConverterImpl};
use wipe::UNIT;

#[test]
fn char_sample() {
    let sampler = SimpleCharSampler::new("abc".to_string());

    assert_eq!('a', sampler.sample(UNIT / 10));
    assert_eq!('b', sampler.sample(4 * UNIT / 10));
    assert_eq!('c', sampler.sample(7 * UNIT / 10));
}

#[test]
fn color_sample() {
    let sampler = SimpleColorSampler::new(vec![Color::Red, Color::Yellow, Color::Green]);

    assert_eq!(Color::Red, sampler.sample(UNIT / 10));
    assert_eq!(Color::Yellow, sampler.sample(4 * UNIT / 10));
    assert_eq!(Color::Green, sampler.sample(7 * UNIT / 10));
}

#[test]
fn char_convert_negative_index() {
    let converter = CharConverterImpl::new("abc".to_string());

    assert_eq!('c', converter.convert(-UNIT / 5));
}

#[test]
fn char_convert_index_zero() {
    let converter = CharConverterImpl::new("abc".to_string());

    assert_eq!('a', converter.convert(0));
}

#[test]
fn char_convert() {
    let converter = CharConverterImpl::new("abc".to_string());

    assert_eq!('b', converter.convert(UNIT / 2));
}

#[test]
fn char_convert_index_one() {
    let converter = CharConverterImpl::new("abc".to_string());

    assert_eq!('a', converter.convert(UNIT));
}

#[test]
fn char_convert_index_above_one() {
    let converter = CharConverterImpl::new("abc".to_string());

    assert_eq!('b', converter.convert(UNIT + UNIT / 2));
}

#[test]
fn sampler_level_convert_keep() {
    let converter = LevelConverterImpl;

    assert_eq!(Level::Keep, converter.convert(-UNIT / 10));
}

#[test]
fn sampler_level_convert_draw() {
    let converter = LevelConverterImpl;

    assert_eq!(Level::Draw(0), converter.convert(0));
    assert_eq!(Level::Draw(UNIT / 2), converter.convert(UNIT / 2));
    assert_eq!(Level::Draw(9 * UNIT / 10), converter.convert(9 * UNIT / 10));
}

#[test]
fn sampler_level_convert_clear() {
    let converter = LevelConverterImpl;

    assert_eq!(Level::Clear, converter.convert(UNIT));
    assert_eq!(Level::Clear, converter.convert(UNIT + UNIT / 2));
}
