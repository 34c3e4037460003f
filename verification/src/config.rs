//! The options that every drawing starts from.
use crate::ast::Config;
use crate::dict::Dict;
use crate::structs::Real;
use crate::utils::{ConfigValue, Setting};
use vstd::prelude::*;

verus! {

/// What the options of a configuration say, by name.
pub open spec fn settings(config: Map<Seq<char>, ConfigValue>) -> Map<Seq<char>, Setting> {
    config.map_values(|v: ConfigValue| v@)
}

/// The number 10.
pub open spec fn ten() -> Real {
    Real { bits: 0x4024_0000_0000_0000 }
}

/// The number 1.5.
pub open spec fn one_and_a_half() -> Real {
    Real { bits: 0x3FF8_0000_0000_0000 }
}

/// The number 2.5.
pub open spec fn two_and_a_half() -> Real {
    Real { bits: 0x4004_0000_0000_0000 }
}

/// The number 0.
pub open spec fn zero() -> Real {
    Real { bits: 0 }
}

/// The number 15.
pub open spec fn fifteen() -> Real {
    Real { bits: 0x402E_0000_0000_0000 }
}

/// The number 20.
pub open spec fn twenty() -> Real {
    Real { bits: 0x4034_0000_0000_0000 }
}

/// The number 5.
pub open spec fn five() -> Real {
    Real { bits: 0x4014_0000_0000_0000 }
}

/// The number 0.5.
pub open spec fn half() -> Real {
    Real { bits: 0x3FE0_0000_0000_0000 }
}

/// The default options: a drawing of 10 by 10, black lines of width 1.5
/// without fill, black dots of size 2.5, labels of size 15 in a serif font at
/// distance 10, angle marks of size 20, decorations of size 5, everything
/// placed half way along its object.
pub open spec fn default_settings() -> Map<Seq<char>, Setting> {
    Map::<Seq<char>, Setting>::empty().insert("width"@, Setting::Number(ten())).insert(
        "height"@,
        Setting::Number(ten()),
    ).insert("color"@, Setting::Text("#000000"@)).insert("fill"@, Setting::Text("none"@)).insert(
        "linewidth"@,
        Setting::Number(one_and_a_half()),
    ).insert("dotsize"@, Setting::Number(two_and_a_half())).insert(
        "dotstroke"@,
        Setting::Text("#000000"@),
    ).insert("dotfill"@, Setting::Text("#000000"@)).insert(
        "dotwidth"@,
        Setting::Number(zero()),
    ).insert("labelsize"@, Setting::Number(fifteen())).insert(
        "dist"@,
        Setting::Number(ten()),
    ).insert("angle"@, Setting::Number(zero())).insert(
        "anglesize"@,
        Setting::Number(twenty()),
    ).insert("anglecolor"@, Setting::Text("#000000"@)).insert(
        "anglewidth"@,
        Setting::Number(one_and_a_half()),
    ).insert("decorsize"@, Setting::Number(five())).insert(
        "decorwidth"@,
        Setting::Number(one_and_a_half()),
    ).insert("decorcolor"@, Setting::Text("#000000"@)).insert(
        "decorfill"@,
        Setting::Text("none"@),
    ).insert("loc"@, Setting::Number(half())).insert("font"@, Setting::Text("serif"@))
}

/// Binds `key` to `value`.
pub fn put(config: &mut Config, key: &str, value: ConfigValue)
    ensures
        final(config)@ == old(config)@.insert(key@, value),
        settings(final(config)@) == settings(old(config)@).insert(key@, value@),
{
    config.insert(String::from_str(key), value);
    assert(settings(config@) =~= settings(old(config)@).insert(key@, value@));
}

fn number(config: &mut Config, key: &str, bits: u64)
    ensures
        settings(final(config)@) == settings(old(config)@).insert(
            key@,
            Setting::Number(Real { bits }),
        ),
{
    put(config, key, ConfigValue::Number(Real { bits }));
}

fn string(config: &mut Config, key: &str, value: &str)
    ensures
        settings(final(config)@) == settings(old(config)@).insert(key@, Setting::Text(value@)),
{
    put(config, key, ConfigValue::from_str(value));
}

/// The default options.
pub fn default_config() -> (r: Config)
    ensures
        settings(r@) == default_settings(),
{
    let mut c: Config = Dict::new();
    assert(settings(c@) =~= Map::<Seq<char>, Setting>::empty());
    number(&mut c, "width", 0x4024_0000_0000_0000);
    number(&mut c, "height", 0x4024_0000_0000_0000);
    string(&mut c, "color", "#000000");
    string(&mut c, "fill", "none");
    number(&mut c, "linewidth", 0x3FF8_0000_0000_0000);
    number(&mut c, "dotsize", 0x4004_0000_0000_0000);
    string(&mut c, "dotstroke", "#000000");
    string(&mut c, "dotfill", "#000000");
    number(&mut c, "dotwidth", 0);
    number(&mut c, "labelsize", 0x402E_0000_0000_0000);
    number(&mut c, "dist", 0x4024_0000_0000_0000);
    number(&mut c, "angle", 0);
    number(&mut c, "anglesize", 0x4034_0000_0000_0000);
    string(&mut c, "anglecolor", "#000000");
    number(&mut c, "anglewidth", 0x3FF8_0000_0000_0000);
    number(&mut c, "decorsize", 0x4014_0000_0000_0000);
    number(&mut c, "decorwidth", 0x3FF8_0000_0000_0000);
    string(&mut c, "decorcolor", "#000000");
    string(&mut c, "decorfill", "none");
    number(&mut c, "loc", 0x3FE0_0000_0000_0000);
    string(&mut c, "font", "serif");
    c
}

} // verus!
