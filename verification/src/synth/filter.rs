use vstd::prelude::*;

verus! {

/// Responses of the state-variable filter.
#[derive(Debug, Clone, Copy, PartialEq, Eq, Structural)]
pub enum FilterMode {
    LowPass,
    BandPass,
    HighPass,
}

impl FilterMode {
    /// The filter response's name as the user sees it.
    pub open spec fn spec_name(self) -> Seq<char> {
        match self {
            FilterMode::LowPass => "Low-pass"@,
            FilterMode::BandPass => "Band-pass"@,
            FilterMode::HighPass => "High-pass"@,
        }
    }
}

} // verus!
