//! Surface format selection: prefer the first gamma-corrected format that
//! the platform reports, else the first reported format.

use vstd::prelude::*;

verus! {

#[verifier::external_type_specification]
#[verifier::external_body]
pub struct ExTextureFormat(wgpu::TextureFormat);

#[verifier::external_type_specification]
#[verifier::external_body]
pub struct ExPresentMode(wgpu::PresentMode);

#[verifier::external_type_specification]
#[verifier::external_body]
pub struct ExCompositeAlphaMode(wgpu::CompositeAlphaMode);

/// Whether `format` is a gamma-corrected (sRGB) colour format, as
/// `wgpu::TextureFormat::is_srgb` reports it.
pub uninterp spec fn is_gamma_corrected(format: wgpu::TextureFormat) -> bool;

/// Calls `wgpu::TextureFormat::is_srgb`. Trusted: the answer depends on the
/// format alone, so it is the named property of that format.
#[verifier::external_body]
fn format_is_srgb(format: &wgpu::TextureFormat) -> (srgb: bool)
    ensures
        srgb == is_gamma_corrected(*format),
{
    format.is_srgb()
}

/// One flag per format, in list order: whether that format is gamma-corrected.
pub open spec fn gamma_flags(formats: Seq<wgpu::TextureFormat>) -> Seq<bool> {
    Seq::new(formats.len(), |i: int| is_gamma_corrected(formats[i]))
}

/// `index` is the preferred position in `flags`: the first position whose
/// flag is set, or position 0 where no flag is set.
pub open spec fn is_preferred(flags: Seq<bool>, index: int) -> bool {
    &&& 0 <= index < flags.len()
    &&& forall|j: int| 0 <= j < index ==> !flags[j]
    &&& (flags[index] || (index == 0 && forall|j: int| 0 <= j < flags.len() ==> !flags[j]))
}

/// The preferred position in a non-empty `flags`.
pub open spec fn preferred(flags: Seq<bool>) -> int {
    choose|index: int| is_preferred(flags, index)
}

/// A list of flags has at most one preferred position, so the choice is
/// determined by the list alone.
pub proof fn lemma_preferred_unique(flags: Seq<bool>, a: int, b: int)
    requires
        is_preferred(flags, a),
        is_preferred(flags, b),
    ensures
        a == b,
{
    if a < b {
        assert(!flags[a]);
    } else if b < a {
        assert(!flags[b]);
    }
}

/// Where some flag is set, the preferred position is that of the first set
/// flag, whatever its position; where none is set, it is position 0.
pub proof fn lemma_preferred_is_first_set(flags: Seq<bool>)
    requires
        flags.len() > 0,
    ensures
        is_preferred(flags, preferred(flags)),
        forall|i: int|
            0 <= i < flags.len() && flags[i] && (forall|j: int| 0 <= j < i ==> !flags[j])
                ==> preferred(flags) == i,
        (forall|j: int| 0 <= j < flags.len() ==> !flags[j]) ==> preferred(flags) == 0,
{
    let witness = first_set_or_zero(flags, 0);
    assert(is_preferred(flags, witness));
    assert forall|i: int|
        0 <= i < flags.len() && flags[i] && (forall|j: int| 0 <= j < i ==> !flags[j])
        implies preferred(flags) == i by {
        lemma_preferred_unique(flags, preferred(flags), i);
    }
    if forall|j: int| 0 <= j < flags.len() ==> !flags[j] {
        lemma_preferred_unique(flags, preferred(flags), 0);
    }
}

/// Format selection goes by list order alone: where some format is
/// gamma-corrected, the first such format is chosen, whatever its position;
/// where none is, the first format of the list is chosen.
pub proof fn lemma_selection_prefers_gamma(formats: Seq<wgpu::TextureFormat>)
    requires
        formats.len() > 0,
    ensures
        forall|i: int|
            0 <= i < formats.len() && is_gamma_corrected(formats[i]) && (forall|j: int|
                0 <= j < i ==> !is_gamma_corrected(formats[j]))
                ==> formats[preferred(gamma_flags(formats))] == formats[i],
        (forall|j: int| 0 <= j < formats.len() ==> !is_gamma_corrected(formats[j]))
            ==> formats[preferred(gamma_flags(formats))] == formats[0],
{
    let flags = gamma_flags(formats);
    lemma_preferred_is_first_set(flags);
    assert forall|i: int|
        0 <= i < formats.len() && is_gamma_corrected(formats[i]) && (forall|j: int|
            0 <= j < i ==> !is_gamma_corrected(formats[j]))
        implies formats[preferred(flags)] == formats[i] by {
        assert(flags[i]);
        assert forall|j: int| 0 <= j < i implies !flags[j] by {
            assert(!is_gamma_corrected(formats[j]));
        }
    }
    if forall|j: int| 0 <= j < formats.len() ==> !is_gamma_corrected(formats[j]) {
        assert forall|j: int| 0 <= j < flags.len() implies !flags[j] by {
            assert(!is_gamma_corrected(formats[j]));
        }
    }
}

/// Finds a preferred position by scanning from `from`, given that no flag
/// before `from` is set.
proof fn first_set_or_zero(flags: Seq<bool>, from: int) -> (index: int)
    requires
        flags.len() > 0,
        0 <= from <= flags.len(),
        forall|j: int| 0 <= j < from ==> !flags[j],
    ensures
        is_preferred(flags, index),
    decreases flags.len() - from,
{
    if from == flags.len() {
        0
    } else if flags[from] {
        from
    } else {
        first_set_or_zero(flags, from + 1)
    }
}

/// The position to take from a non-empty list of flags: that of the first
/// set flag, or 0 where none is set.
pub fn preferred_index(flags: &Vec<bool>) -> (index: usize)
    requires
        flags@.len() > 0,
    ensures
        is_preferred(flags@, index as int),
        index as int == preferred(flags@),
{
    let mut i: usize = 0;
    while i < flags.len()
        invariant
            i <= flags@.len(),
            forall|j: int| 0 <= j < i ==> !flags@[j],
        decreases flags@.len() - i,
    {
        if flags[i] {
            proof {
                lemma_preferred_is_first_set(flags@);
            }
            return i;
        }
        i += 1;
    }
    proof {
        lemma_preferred_is_first_set(flags@);
    }
    0
}

/// Picks the surface format from the non-empty list that the platform
/// reports: the first gamma-corrected one, else the first of the list.
pub fn select_format(formats: &Vec<wgpu::TextureFormat>) -> (chosen: wgpu::TextureFormat)
    requires
        formats@.len() > 0,
    ensures
        chosen == formats@[preferred(gamma_flags(formats@))],
        is_preferred(gamma_flags(formats@), preferred(gamma_flags(formats@))),
{
    let mut flags: Vec<bool> = Vec::new();
    let mut i: usize = 0;
    while i < formats.len()
        invariant
            i <= formats@.len(),
            flags@.len() == i,
            forall|j: int| 0 <= j < i ==> flags@[j] == is_gamma_corrected(formats@[j]),
        decreases formats@.len() - i,
    {
        flags.push(format_is_srgb(&formats[i]));
        i += 1;
    }
    assert(flags@ =~= gamma_flags(formats@));
    let index = preferred_index(&flags);
    formats[index]
}

} // verus!
