//! The latency histogram: an `hdrhistogram::Histogram` of `u64` counts, and
//! what is taken on trust about it.
//!
//! The histogram keeps counts of value levels, not the values themselves.
//! Its contents are modelled as the multiset of the values recorded into
//! it; what its statistics return is named as a function of those values
//! and of the bounds the histogram was created with.

use vstd::prelude::*;
use vstd::multiset::Multiset;
use hdrhistogram::CreationError;
use hdrhistogram::Histogram;
use hdrhistogram::RecordError;

verus! {

/// Why a histogram could not be created.
#[verifier::external_type_specification]
#[verifier::external_body]
pub struct ExCreationError(CreationError);

/// Why a value could not be recorded.
#[verifier::external_type_specification]
#[verifier::external_body]
pub struct ExRecordError(RecordError);

/// A histogram of `u64` values with `u64` counts that never resizes.
#[verifier::external_body]
pub struct LatencyHistogram {
    inner: Histogram<u64>,
}

/// The values that have been recorded into the histogram.
pub uninterp spec fn recorded(h: LatencyHistogram) -> Multiset<u64>;

/// The lowest value the histogram was created to tell from zero.
pub uninterp spec fn lowest_discernible(h: LatencyHistogram) -> u64;

/// The highest value the histogram was created to track.
pub uninterp spec fn highest_trackable(h: LatencyHistogram) -> u64;

/// The number of significant decimal digits the histogram was created to
/// keep.
pub uninterp spec fn significant_digits(h: LatencyHistogram) -> u8;

/// The lowest recorded value level (`Histogram::min`) of a histogram with
/// these bounds and these recorded values.
pub uninterp spec fn min_level(values: Multiset<u64>, low: u64, high: u64, sigfig: u8) -> u64;

/// The highest recorded value level (`Histogram::max`) of a histogram with
/// these bounds and these recorded values.
pub uninterp spec fn max_level(values: Multiset<u64>, low: u64, high: u64, sigfig: u8) -> u64;

/// The mean of the recorded value levels (`Histogram::mean`), cut to a
/// whole number.
pub uninterp spec fn mean_level(values: Multiset<u64>, low: u64, high: u64, sigfig: u8) -> u64;

/// The value level at a percentile (`Histogram::value_at_percentile`) of a
/// histogram with these bounds and these recorded values.
pub uninterp spec fn level_at_percentile(
    values: Multiset<u64>,
    low: u64,
    high: u64,
    sigfig: u8,
    percent: u8,
) -> u64;

impl LatencyHistogram {
    /// `Histogram::new_with_bounds`: an empty histogram with the given
    /// bounds and precision. With a lowest discernible value of 1, a highest
    /// trackable value of at least 2 and at most 5 significant digits none
    /// of its validity checks fails.
    #[verifier::external_body]
    pub(crate) fn new_with_bounds(low: u64, high: u64, sigfig: u8) -> (r: Result<
        LatencyHistogram,
        CreationError,
    >)
        ensures
            low == 1 && high >= 2 && sigfig <= 5 ==> r is Ok,
            r matches Ok(h) ==> {
                &&& recorded(h) == Multiset::<u64>::empty()
                &&& lowest_discernible(h) == low
                &&& highest_trackable(h) == high
                &&& significant_digits(h) == sigfig
            },
    {
        Histogram::<u64>::new_with_bounds(low, high, sigfig).map(|inner| LatencyHistogram { inner })
    }

    /// `Histogram::high`: the highest trackable value.
    #[verifier::external_body]
    pub(crate) fn high(&self) -> (r: u64)
        ensures
            r == highest_trackable(*self),
    {
        self.inner.high()
    }

    /// `Histogram::record`: counts one more occurrence of `value`. A value
    /// up to the highest trackable one is always recorded; a value that is
    /// refused leaves the histogram as it was. The bounds never change.
    #[verifier::external_body]
    pub(crate) fn record(&mut self, value: u64) -> (r: Result<(), RecordError>)
        ensures
            value <= highest_trackable(*old(self)) ==> r is Ok,
            r is Ok ==> recorded(*final(self)) == recorded(*old(self)).insert(value),
            r is Err ==> recorded(*final(self)) == recorded(*old(self)),
            lowest_discernible(*final(self)) == lowest_discernible(*old(self)),
            highest_trackable(*final(self)) == highest_trackable(*old(self)),
            significant_digits(*final(self)) == significant_digits(*old(self)),
    {
        self.inner.record(value)
    }

    /// `Histogram::min`: the lowest recorded value level. It is the lowest
    /// value that counts as equal to the lowest recorded one, so no
    /// recorded value lies below it; it is 0 if nothing was recorded.
    #[verifier::external_body]
    pub(crate) fn min(&self) -> (r: u64)
        ensures
            r == min_level(
                recorded(*self),
                lowest_discernible(*self),
                highest_trackable(*self),
                significant_digits(*self),
            ),
            forall|value: u64| #[trigger] recorded(*self).contains(value) ==> r <= value,
            recorded(*self).len() == 0 ==> r == 0,
    {
        self.inner.min()
    }

    /// `Histogram::max`: the highest recorded value level. It is the
    /// highest value that counts as equal to the highest recorded one, so
    /// no recorded value lies above it; it is 0 if nothing was recorded.
    #[verifier::external_body]
    pub(crate) fn max(&self) -> (r: u64)
        ensures
            r == max_level(
                recorded(*self),
                lowest_discernible(*self),
                highest_trackable(*self),
                significant_digits(*self),
            ),
            forall|value: u64| #[trigger] recorded(*self).contains(value) ==> value <= r,
            recorded(*self).len() == 0 ==> r == 0,
    {
        self.inner.max()
    }

    /// `Histogram::mean`, cut to a whole number: the mean of the recorded
    /// value levels, 0 if nothing was recorded.
    #[verifier::external_body]
    pub(crate) fn mean(&self) -> (r: u64)
        ensures
            r == mean_level(
                recorded(*self),
                lowest_discernible(*self),
                highest_trackable(*self),
                significant_digits(*self),
            ),
            recorded(*self).len() == 0 ==> r == 0,
    {
        self.inner.mean() as u64
    }

    /// `Histogram::value_at_percentile` of a histogram whose lowest
    /// discernible value is 1: the level of the first counted value at
    /// which the running count reaches the percentile's share of all
    /// counts. In such a histogram that level is one of a recorded value,
    /// so it lies between the lowest and the highest recorded level, and a
    /// higher percentile never gives a lower level. (With a lowest
    /// discernible value of 2 or more a recorded 0 has a level above 0
    /// that the highest recorded level does not follow, so nothing is
    /// claimed of such a histogram.) In an empty histogram every level is
    /// 0. The percentile is a whole number from 0 on; it is handed over
    /// with the same value, and one above 100 counts as 100.
    #[verifier::external_body]
    pub(crate) fn value_at_percentile(&self, percent: u8) -> (r: u64)
        requires
            lowest_discernible(*self) == 1,
            recorded(*self).len() <= u64::MAX,
        ensures
            r == level_at_percentile(
                recorded(*self),
                lowest_discernible(*self),
                highest_trackable(*self),
                significant_digits(*self),
                percent,
            ),
            min_level(
                recorded(*self),
                lowest_discernible(*self),
                highest_trackable(*self),
                significant_digits(*self),
            ) <= r <= max_level(
                recorded(*self),
                lowest_discernible(*self),
                highest_trackable(*self),
                significant_digits(*self),
            ),
            forall|lower: u8|
                lower <= percent ==> #[trigger] level_at_percentile(
                    recorded(*self),
                    lowest_discernible(*self),
                    highest_trackable(*self),
                    significant_digits(*self),
                    lower,
                ) <= r,
    {
        self.inner.value_at_percentile(percent.into())
    }
}

} // verus!
