//! Archived items of the collection, as plain values.
//!
//! The backing store hands over each item's raw fields: an identifier,
//! a comma-separated list of attachment file names, the two text bodies
//! and the original publish instant as a unix timestamp.  Turning those
//! raw fields into a well-formed item — splitting the name list and
//! decomposing the timestamp — happens here; reading the row itself is
//! the caller's concern.

use vstd::prelude::*;
use crate::dates::{
    civil_of, reproject, spec_reproject, timestamp_of_unix, DateError, Timestamp,
    MAX_UNIX_TIMESTAMP, MIN_UNIX_TIMESTAMP,
};
use crate::text::{spec_join_commas, split_file_names};

verus! {

/// Default number of years one era shifts an item's publish instant.
pub const DEFAULT_YEARS_PER_ERA: usize = 3;

/// One archived item of the collection.
pub struct CollectionTweet {
    pub id: u64,
    /// Names of the attached media files, in attachment order.
    pub file_names: Vec<String>,
    pub text: String,
    pub translated_text: String,
    /// The original publish instant.
    pub date: Timestamp,
}

impl CollectionTweet {
    /// Well-formedness: the original publish instant is a valid civil
    /// date.
    pub open spec fn wf(self) -> bool {
        self.date.wf()
    }
}

/// Builds an archived item from the raw stored fields.  The file-name
/// list is split on commas; the stored unix timestamp is decomposed into
/// its civil UTC form.  Fails exactly when the timestamp falls outside
/// the representable span of years, which signals a corrupt stored date.
pub fn tweet_from_fields(
    id: u64,
    file_names: &str,
    text: String,
    translated_text: String,
    date_unix: i64,
) -> (r: Result<CollectionTweet, DateError>)
    ensures
        r matches Ok(t) ==> {
            &&& t.id == id
            &&& spec_join_commas(t.file_names@.map_values(|p: String| p@)) == file_names@
            &&& forall|k: int|
                0 <= k < t.file_names@.len() ==> !(#[trigger] t.file_names@[k]@).contains(',')
            &&& t.text@ == text@
            &&& t.translated_text@ == translated_text@
            &&& t.wf()
            &&& (
            t.date.year as int,
            t.date.month as int,
            t.date.day as int,
            t.date.hour as int,
            t.date.minute as int,
            t.date.second as int,
            ) == civil_of(date_unix as int)
        },
        r is Err <==> !(MIN_UNIX_TIMESTAMP <= date_unix <= MAX_UNIX_TIMESTAMP),
        r matches Err(e) ==> e == DateError::UnrepresentableInstant,
{
    match timestamp_of_unix(date_unix) {
        Some(date) => Ok(
            CollectionTweet {
                id,
                file_names: split_file_names(file_names),
                text,
                translated_text,
                date,
            },
        ),
        None => Err(DateError::UnrepresentableInstant),
    }
}

/// The target publish instant for an archived item in the given era:
/// its original instant re-projected `era * years_per_era` years forward,
/// with the leap-day substitution of [`reproject`].
pub fn get_new_date_for_tweet(tweet: &CollectionTweet, era: usize, years_per_era: usize) -> (r:
    Result<Timestamp, DateError>)
    requires
        tweet.wf(),
    ensures
        r == spec_reproject(tweet.date, era as nat, years_per_era as nat),
        r matches Ok(t) ==> t.wf(),
{
    reproject(&tweet.date, era, years_per_era)
}

} // verus!
