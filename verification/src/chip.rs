use vstd::prelude::*;

verus! {

/// The icons drawn on chips, one per picture in the chip icon texture.
#[derive(Clone, Copy, Debug, PartialEq, Eq, Structural)]
pub enum ChipIcon {
    Add,
    Add2bit1,
    Add2bit2,
    And,
    Blank,
    Break,
    Clock,
    Cmp,
    Cmpeq1,
    Cmpeq2,
    Comment,
    Const,
    Delay,
    Demux,
    Discard,
    Eq,
    Filter,
    Halve,
    Inc,
    Join,
    Latest,
    Mul,
    Mul4bit1,
    Mul4bit2,
    Mux,
    Not,
    Or,
    Pack1,
    Pack2,
    Random,
    Sample,
    Sub,
    Unpack1,
    Unpack2,
    Xor,
}

/// Whether an icon is always drawn upright, whatever the orientation of
/// its chip: those whose picture would read wrong when turned or mirrored.
pub open spec fn chip_icon_is_fixed_spec(icon: ChipIcon) -> bool {
    icon == ChipIcon::Halve || icon == ChipIcon::Random || icon == ChipIcon::Sub
}

pub fn chip_icon_is_fixed(icon: ChipIcon) -> (b: bool)
    ensures
        b == chip_icon_is_fixed_spec(icon),
{
    match icon {
        ChipIcon::Halve | ChipIcon::Random | ChipIcon::Sub => true,
        _ => false,
    }
}

} // verus!
