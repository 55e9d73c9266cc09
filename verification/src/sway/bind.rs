//! Key binding arguments: the binding flags, and key or key-code
//! combinations joined with `+`.
use crate::sway::options::Arg;
use crate::text::{dec_str, join_with, join_strings, u8_text};
use vstd::prelude::*;

verus! {

/// Flags of key binding commands, each rendered as a long option.
#[derive(Debug, Clone, PartialEq, Eq)]
pub enum Bind {
    WholeWindow,
    Border,
    ExcludeTitlebar,
    Release,
    Locked,
    ToCode,
    InputDevice(String),
    NoWarn,
    NoRepeat,
    Inhibited,
}

impl Arg for Bind {
    open spec fn text_v(&self) -> Seq<char> {
        match self {
            Bind::WholeWindow => "--whole-window"@,
            Bind::Border => "--border"@,
            Bind::ExcludeTitlebar => "--exclude-titlebar"@,
            Bind::Release => "--release"@,
            Bind::Locked => "--locked"@,
            Bind::ToCode => "--to-code"@,
            Bind::InputDevice(d) => "--input-device="@ + d@,
            Bind::NoWarn => "--no-warn"@,
            Bind::NoRepeat => "--no-repeat"@,
            Bind::Inhibited => "--inhibited"@,
        }
    }

    fn arg_text(&self) -> (r: String) {
        match self {
            Bind::WholeWindow => String::from_str("--whole-window"),
            Bind::Border => String::from_str("--border"),
            Bind::ExcludeTitlebar => String::from_str("--exclude-titlebar"),
            Bind::Release => String::from_str("--release"),
            Bind::Locked => String::from_str("--locked"),
            Bind::ToCode => String::from_str("--to-code"),
            Bind::InputDevice(d) => {
                let mut acc = String::from_str("--input-device=");
                acc.append(d.as_str());
                acc
            },
            Bind::NoWarn => String::from_str("--no-warn"),
            Bind::NoRepeat => String::from_str("--no-repeat"),
            Bind::Inhibited => String::from_str("--inhibited"),
        }
    }
}

/// A key combination, rendered joined with `+`.
#[derive(Debug, Clone, PartialEq, Eq)]
pub struct BindKeys(pub Vec<String>);

impl BindKeys {
    /// An empty combination.
    pub fn new() -> (r: Self)
        ensures
            r.0.deep_view() == Seq::<Seq<char>>::empty(),
    {
        let r = BindKeys(Vec::new());
        proof {
            assert(r.0.deep_view() =~= Seq::<Seq<char>>::empty());
        }
        r
    }

    /// The given keys as a combination.
    pub fn from(vec: Vec<String>) -> (r: Self)
        ensures
            r.0.deep_view() == vec.deep_view(),
    {
        BindKeys(vec)
    }

    /// Renders the keys joined with `+`.
    pub fn to_string(&self) -> (r: String)
        ensures
            r@ == join_with(self.0.deep_view(), "+"@),
    {
        join_strings(&self.0, "+")
    }
}

impl Default for BindKeys {
    /// An empty combination.
    fn default() -> (r: Self)
        ensures
            r.0.deep_view() == Seq::<Seq<char>>::empty(),
    {
        BindKeys::new()
    }
}

/// A key-code combination, the codes rendered in decimal joined with `+`.
#[derive(Debug, Clone, PartialEq, Eq)]
pub struct BindCodes(pub Vec<u8>);

impl BindCodes {
    /// An empty combination.
    pub fn new() -> (r: Self)
        ensures
            r.0@ == Seq::<u8>::empty(),
    {
        let r = BindCodes(Vec::new());
        proof {
            assert(r.0@ =~= Seq::<u8>::empty());
        }
        r
    }

    /// The given codes as a combination.
    pub fn from(vec: Vec<u8>) -> (r: Self)
        ensures
            r.0@ == vec@,
    {
        BindCodes(vec)
    }

    /// Renders the codes in decimal, joined with `+`.
    pub fn to_string(&self) -> (r: String)
        ensures
            r@ == join_with(self.0@.map_values(|n: u8| dec_str(n as int)), "+"@),
    {
        let mut texts: Vec<String> = Vec::new();
        let mut i: usize = 0;
        proof {
            assert(texts.deep_view() =~= self.0@.take(0).map_values(|n: u8| dec_str(n as int)));
        }
        while i < self.0.len()
            invariant
                0 <= i <= self.0.len(),
                texts.deep_view() == self.0@.take(i as int).map_values(
                    |n: u8| dec_str(n as int),
                ),
            decreases self.0.len() - i,
        {
            let ghost old_dv = texts.deep_view();
            let t = u8_text(self.0[i]);
            texts.push(t);
            proof {
                assert(texts.deep_view() =~= old_dv.push(dec_str(self.0@[i as int] as int)));
                assert(texts.deep_view() =~= self.0@.take(i + 1).map_values(
                    |n: u8| dec_str(n as int),
                ));
            }
            i = i + 1;
        }
        proof {
            assert(self.0@.take(self.0.len() as int) =~= self.0@);
        }
        join_strings(&texts, "+")
    }
}

impl Default for BindCodes {
    /// An empty combination.
    fn default() -> (r: Self)
        ensures
            r.0@ == Seq::<u8>::empty(),
    {
        BindCodes::new()
    }
}

} // verus!
