use vstd::prelude::*;

use crate::types::EnergyMode;

verus! {

/// What `str::to_lowercase` makes of a text.
pub uninterp spec fn lower_of(s: Seq<char>) -> Seq<char>;

/// Relies on `str::to_lowercase`: the result depends on the characters alone, and an
/// empty text stays empty.
#[verifier::external_body]
pub(crate) fn lowercase(s: &str) -> (r: String)
    ensures
        r@ == lower_of(s@),
        s@.len() == 0 ==> r@.len() == 0,
{
    s.to_lowercase()
}

/// The energy mode that a lower-cased power-mode label names, if any.
pub open spec fn energy_mode_of(lowered: Seq<char>) -> Option<EnergyMode> {
    if lowered == "hashrate"@ {
        Some(EnergyMode::Power)
    } else if lowered == "lowerpower"@ {
        Some(EnergyMode::Economize)
    } else if lowered == "ballance"@ {
        Some(EnergyMode::Balance)
    } else {
        None
    }
}

/// Energy modes named by a list of power-mode labels, compared without case; unknown
/// labels are left out.
pub open spec fn energy_modes_of(labels: Seq<Seq<char>>) -> Seq<EnergyMode>
    decreases labels.len(),
{
    if labels.len() == 0 {
        Seq::empty()
    } else {
        let rest = energy_modes_of(labels.drop_last());
        match energy_mode_of(lower_of(labels.last())) {
            Some(m) => rest.push(m),
            None => rest,
        }
    }
}

/// The energy mode that an already lower-cased label names.
pub fn energy_mode_from_lowered(lowered: &String) -> (r: Option<EnergyMode>)
    ensures
        r == energy_mode_of(lowered@),
{
    if *lowered == String::from_str("hashrate") {
        Some(EnergyMode::Power)
    } else if *lowered == String::from_str("lowerpower") {
        Some(EnergyMode::Economize)
    } else if *lowered == String::from_str("ballance") {
        Some(EnergyMode::Balance)
    } else {
        None
    }
}

/// The energy modes that a device advertises, from its power-mode labels in any case;
/// unknown labels are skipped.
pub fn get_energy_modes(power_modes: Vec<String>) -> (r: Vec<EnergyMode>)
    ensures
        r@ == energy_modes_of(power_modes@.map_values(|s: String| s@)),
{
    let mut out: Vec<EnergyMode> = Vec::new();
    let mut i: usize = 0;
    while i < power_modes.len()
        invariant
            i <= power_modes@.len(),
            out@ == energy_modes_of(power_modes@.subrange(0, i as int).map_values(|s: String| s@)),
        decreases power_modes@.len() - i,
    {
        let ghost prefix = power_modes@.subrange(0, i as int).map_values(|s: String| s@);
        let ghost next = power_modes@.subrange(0, i as int + 1).map_values(|s: String| s@);
        assert(next.drop_last() =~= prefix);
        assert(next.last() == power_modes@[i as int]@);
        let lowered = lowercase(power_modes[i].as_str());
        match energy_mode_from_lowered(&lowered) {
            Some(m) => {
                out.push(m);
            },
            None => {},
        }
        i = i + 1;
    }
    assert(power_modes@.subrange(0, power_modes@.len() as int) =~= power_modes@);
    out
}

} // verus!
