//! Channel counts: what the stream records report, and the downmix decision.

use vstd::prelude::*;

use crate::errors::RunError;

verus! {

/// What one stream record reports for its channel-count field.
#[derive(Clone, Copy, Debug, PartialEq, Eq, Structural)]
pub enum ChannelField {
    /// The record carries no channel-count field (not an audio stream).
    Missing,
    /// The record carries a channel-count field that is not an integer.
    Invalid,
    /// The record reports this many channels.
    Count(i64),
}

/// The channel counts reported by a sequence of stream records, in stream
/// order; records without a count contribute nothing.
pub open spec fn counts_of(fields: Seq<ChannelField>) -> Seq<i64>
    decreases fields.len(),
{
    if fields.len() == 0 {
        Seq::empty()
    } else {
        let rest = counts_of(fields.drop_last());
        match fields.last() {
            ChannelField::Count(n) => rest.push(n),
            _ => rest,
        }
    }
}

/// Whether some record carries a non-integer channel-count field.
pub open spec fn has_invalid(fields: Seq<ChannelField>) -> bool {
    exists|i: int| 0 <= i < fields.len() && fields[i] is Invalid
}

/// Whether some stream reports more than two channels: the downmix rule.
pub open spec fn any_over_two(counts: Seq<i64>) -> bool {
    exists|i: int| 0 <= i < counts.len() && counts[i] > 2
}

/// Extract the channel counts out of the stream records, in stream order.
/// Fails exactly when some record carries a non-integer channel-count field.
pub fn collect_counts(fields: &Vec<ChannelField>) -> (r: Result<Vec<i64>, RunError>)
    ensures
        r is Ok <==> !has_invalid(fields@),
        r matches Ok(counts) ==> counts@ == counts_of(fields@),
        r matches Err(e) ==> e is InvalidChannelValue,
{
    let mut counts: Vec<i64> = Vec::new();
    let mut i: usize = 0;
    while i < fields.len()
        invariant
            i <= fields@.len(),
            counts@ == counts_of(fields@.take(i as int)),
            !has_invalid(fields@.take(i as int)),
        decreases fields@.len() - i,
    {
        proof {
            assert(fields@.take(i + 1).drop_last() =~= fields@.take(i as int));
            assert(fields@.take(i + 1).last() == fields@[i as int]);
        }
        match fields[i] {
            ChannelField::Missing => {},
            ChannelField::Invalid => {
                assert(has_invalid(fields@)) by {
                    assert(fields@[i as int] is Invalid);
                };
                return Err(RunError::InvalidChannelValue);
            },
            ChannelField::Count(n) => {
                counts.push(n);
            },
        }
        i = i + 1;
    }
    proof {
        assert(fields@.take(fields@.len() as int) =~= fields@);
    }
    Ok(counts)
}

/// Whether any of the given counts exceeds two: the decision that picks
/// between transcoding and reporting that nothing needs to be done.
pub fn needs_downmix(counts: &Vec<i64>) -> (r: bool)
    ensures
        r == any_over_two(counts@),
{
    let mut i: usize = 0;
    let mut found = false;
    while i < counts.len()
        invariant
            i <= counts@.len(),
            found == any_over_two(counts@.take(i as int)),
        decreases counts@.len() - i,
    {
        proof {
            assert(counts@.take(i + 1).drop_last() =~= counts@.take(i as int));
        }
        if counts[i] > 2 {
            assert(any_over_two(counts@.take(i + 1))) by {
                assert(counts@.take(i + 1)[i as int] > 2);
            };
            found = true;
        } else {
            proof {
                if any_over_two(counts@.take(i + 1)) {
                    let j = choose|j: int|
                        0 <= j < counts@.take(i + 1).len() && #[trigger] counts@.take(i + 1)[j]
                            > 2;
                    assert(counts@.take(i as int)[j] > 2 || j == i);
                }
            }
        }
        i = i + 1;
    }
    proof {
        assert(counts@.take(counts@.len() as int) =~= counts@);
    }
    found
}

/// A file none of whose streams reports more than two channels never needs a
/// downmix, whatever the counts are otherwise.
pub proof fn lemma_all_small_no_downmix(counts: Seq<i64>)
    requires
        forall|i: int| 0 <= i < counts.len() ==> counts[i] <= 2,
    ensures
        !any_over_two(counts),
{
}

/// One stream over two channels is enough: the downmix is required however
/// the other streams look.
pub proof fn lemma_one_over_two_downmix(counts: Seq<i64>, i: int)
    requires
        0 <= i < counts.len(),
        counts[i] > 2,
    ensures
        any_over_two(counts),
{
}

/// Whether some record reports an integer channel count above two.
pub open spec fn any_record_over_two(fields: Seq<ChannelField>) -> bool {
    exists|i: int|
        0 <= i < fields.len() && (#[trigger] fields[i] matches ChannelField::Count(n) && n > 2)
}

/// The downmix decision looks through the extraction: over the extracted
/// counts it holds exactly when some record itself reports an integer
/// channel count above two.
pub proof fn lemma_decision_over_records(fields: Seq<ChannelField>)
    ensures
        any_over_two(counts_of(fields)) == any_record_over_two(fields),
    decreases fields.len(),
{
    if fields.len() == 0 {
    } else {
        let rest = fields.drop_last();
        lemma_decision_over_records(rest);
        let rest_counts = counts_of(rest);
        if any_over_two(rest_counts) {
            let j = choose|j: int| 0 <= j < rest_counts.len() && #[trigger] rest_counts[j] > 2;
            assert(counts_of(fields)[j] > 2);
        }
        if any_record_over_two(rest) {
            let j = choose|j: int|
                0 <= j < rest.len() && (#[trigger] rest[j] matches ChannelField::Count(n) && n
                    > 2);
            assert(fields[j] matches ChannelField::Count(n) && n > 2);
        }
        if any_over_two(counts_of(fields)) {
            let j = choose|j: int|
                0 <= j < counts_of(fields).len() && #[trigger] counts_of(fields)[j] > 2;
            if j < rest_counts.len() {
                assert(rest_counts[j] > 2);
            } else {
                assert(fields.last() matches ChannelField::Count(n) && n > 2);
                assert(fields[fields.len() - 1] matches ChannelField::Count(n) && n > 2);
            }
        }
        if any_record_over_two(fields) {
            let j = choose|j: int|
                0 <= j < fields.len() && (#[trigger] fields[j] matches ChannelField::Count(n)
                    && n > 2);
            if j < rest.len() {
                assert(rest[j] matches ChannelField::Count(n) && n > 2);
            } else {
                assert(fields.last() matches ChannelField::Count(n) && n > 2);
                assert(counts_of(fields).last() > 2);
            }
        }
    }
}

} // verus!
