use vstd::prelude::*;

verus! {

/// The reverb an audio trigger asks for with its music.
#[allow(non_camel_case_types)]
#[derive(Clone, Copy, Debug, PartialEq, Eq, Structural)]
pub enum AudioEffectType {
    NoEffect,
    SMALL,
    MEDUIM,
    LARGE,
}

} // verus!
