use vstd::prelude::*;

verus! {

/// Why a coefficient derivation was refused.
#[derive(Clone, Copy, Debug, PartialEq, Eq, Structural)]
pub enum FilterError {
    /// The cutoff frequency lies above half the sample rate.
    FrequencyOverNyquist,
    /// The cutoff frequency is negative.
    FrequencyNegative,
    /// The quality factor is negative.
    QualityNegative,
    /// The filter type is valid but has no derivation yet.
    UnimplementedFilterType,
}

/// The responses a filter can be set to.
#[derive(Clone, Copy, Debug, PartialEq, Eq, Structural)]
pub enum FilterType {
    Lowpass,
    Highpass,
    Bandpass,
    Notch,
    Peak,
    Allpass,
    Bell,
    Lowshelf,
    Highshelf,
}

impl Default for FilterType {
    fn default() -> (r: FilterType)
        ensures
            r == FilterType::Lowpass,
    {
        FilterType::Lowpass
    }
}

/// Mixing weights of the three taps of the shared state-variable core:
/// the input, the band-pass tap and the low-pass tap. The output of one
/// step is `m0 * input + m1 * band + m2 * low`.
#[derive(Clone, Copy, Debug, PartialEq, Eq, Structural)]
pub struct Mix {
    pub m0: i8,
    pub m1: i8,
    pub m2: i8,
}

/// How the parameters stand against the limits a derivation enforces,
/// measured on the real values by the caller.
#[derive(Clone, Copy, Debug, PartialEq, Eq, Structural)]
pub struct ParamChecks {
    /// The frequency is above half the sample rate.
    pub over_nyquist: bool,
    /// The frequency carries a negative sign.
    pub frequency_negative: bool,
    /// The quality factor carries a negative sign.
    pub quality_negative: bool,
}

impl ParamChecks {
    /// No limit is broken.
    pub open spec fn valid(self) -> bool {
        !self.over_nyquist && !self.frequency_negative && !self.quality_negative
    }
}

/// The low-pass tap alone.
pub open spec fn lowpass_mix() -> Mix {
    Mix { m0: 0, m1: 0, m2: 1 }
}

/// The outcome of a derivation: the limits are checked first, in the order
/// Nyquist, frequency sign, quality sign; then the type decides the mix.
pub open spec fn derivation(filter_type: FilterType, checks: ParamChecks) -> Result<Mix, FilterError> {
    if checks.over_nyquist {
        Err(FilterError::FrequencyOverNyquist)
    } else if checks.frequency_negative {
        Err(FilterError::FrequencyNegative)
    } else if checks.quality_negative {
        Err(FilterError::QualityNegative)
    } else if filter_type == FilterType::Lowpass {
        Ok(lowpass_mix())
    } else {
        Err(FilterError::UnimplementedFilterType)
    }
}

/// Decides whether coefficients can be derived for `filter_type` under the
/// measured `checks`, and which taps the derived filter mixes.
pub fn plan_derivation(filter_type: FilterType, checks: ParamChecks) -> (r: Result<Mix, FilterError>)
    ensures
        r == derivation(filter_type, checks),
        checks.over_nyquist ==> r == Err::<Mix, FilterError>(FilterError::FrequencyOverNyquist),
        !checks.over_nyquist && checks.frequency_negative ==> r == Err::<Mix, FilterError>(
            FilterError::FrequencyNegative,
        ),
        !checks.over_nyquist && !checks.frequency_negative && checks.quality_negative ==> r
            == Err::<Mix, FilterError>(FilterError::QualityNegative),
        checks.valid() ==> (r is Ok <==> filter_type == FilterType::Lowpass),
{
    if checks.over_nyquist {
        return Err(FilterError::FrequencyOverNyquist);
    }
    if checks.frequency_negative {
        return Err(FilterError::FrequencyNegative);
    }
    if checks.quality_negative {
        return Err(FilterError::QualityNegative);
    }
    match filter_type {
        FilterType::Lowpass => Ok(Mix { m0: 0, m1: 0, m2: 1 }),
        _ => Err(FilterError::UnimplementedFilterType),
    }
}

/// Parameters within every limit always give a low-pass derivation, and it
/// selects the low-pass tap.
pub proof fn lemma_lowpass_valid_succeeds(checks: ParamChecks)
    requires
        checks.valid(),
    ensures
        derivation(FilterType::Lowpass, checks) == Ok::<Mix, FilterError>(lowpass_mix()),
{
}

/// A broken limit is reported whatever the filter type, and every type but
/// the low-pass one is refused even on valid parameters.
pub proof fn lemma_failures(filter_type: FilterType, checks: ParamChecks)
    ensures
        !checks.valid() ==> derivation(filter_type, checks) is Err,
        !checks.valid() ==> derivation(filter_type, checks) == derivation(FilterType::Lowpass, checks),
        checks.valid() && filter_type != FilterType::Lowpass ==> derivation(filter_type, checks)
            == Err::<Mix, FilterError>(FilterError::UnimplementedFilterType),
{
}

} // verus!
