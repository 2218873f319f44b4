//! Breaking the text of a report cell into lines: the text is cut into
//! extended grapheme clusters, and each line takes the clusters that fit.
use crate::text::{append_str, strings_view};
use unicode_segmentation::UnicodeSegmentation;
use vstd::prelude::*;

verus! {

/// The extended grapheme clusters of a text, in order, as
/// `unicode_segmentation` cuts it.
pub uninterp spec fn extended_graphemes(text: Seq<char>) -> Seq<Seq<char>>;

/// `UnicodeSegmentation::graphemes` with extended clusters: the clusters of
/// `text`, a function of `text` alone. The iterator cuts the text from one
/// boundary to the next, so the clusters are not empty and, joined in order,
/// give back the text; where the boundaries fall is not stated.
#[verifier::external_body]
fn graphemes_of_text(text: &str) -> (r: Vec<String>)
    ensures
        strings_view(r@) == extended_graphemes(text@),
        joined_clusters(strings_view(r@), r@.len() as nat) == text@,
        forall|i: int| 0 <= i < r@.len() ==> #[trigger] r@[i]@.len() > 0,
{
    text.graphemes(true).map(|g| g.to_string()).collect()
}

/// The extended grapheme clusters of `text`, in order: none is empty, and
/// joined they give back the text.
pub fn graphemes(text: &str) -> (r: Vec<String>)
    ensures
        strings_view(r@) == extended_graphemes(text@),
        joined_clusters(strings_view(r@), r@.len() as nat) == text@,
        forall|i: int| 0 <= i < r@.len() ==> #[trigger] r@[i]@.len() > 0,
{
    graphemes_of_text(text)
}

/// How many of the answers in `fits` are `true` before the first `false`.
pub open spec fn leading_fits(fits: Seq<bool>) -> nat
    decreases fits.len(),
{
    if fits.len() == 0 || !fits[0] {
        0
    } else {
        1 + leading_fits(fits.drop_first())
    }
}

/// The number of clusters a line takes: those that fit, one after the
/// other, and at least one when any is left, so that a narrow column still
/// makes progress.
pub open spec fn line_length(cluster_count: nat, fits: Seq<bool>) -> nat {
    if leading_fits(fits) > 0 {
        leading_fits(fits)
    } else if cluster_count > 0 {
        1
    } else {
        0
    }
}

/// The text of the first `n` clusters.
pub open spec fn joined_clusters(clusters: Seq<Seq<char>>, n: nat) -> Seq<char>
    decreases n,
{
    if n == 0 || n > clusters.len() {
        Seq::empty()
    } else {
        joined_clusters(clusters, (n - 1) as nat) + clusters[n - 1]
    }
}

proof fn lemma_leading_fits_bound(fits: Seq<bool>)
    ensures
        leading_fits(fits) <= fits.len(),
    decreases fits.len(),
{
    if fits.len() > 0 && fits[0] {
        lemma_leading_fits_bound(fits.drop_first());
    }
}

proof fn lemma_leading_fits_at(fits: Seq<bool>, k: nat)
    requires
        k <= fits.len(),
        forall|j: int| 0 <= j < k ==> #[trigger] fits[j],
        k == fits.len() || !fits[k as int],
    ensures
        leading_fits(fits) == k,
    decreases k,
{
    if k > 0 {
        let t = fits.drop_first();
        assert forall|j: int| 0 <= j < k - 1 implies #[trigger] t[j] by {
            assert(t[j] == fits[j + 1]);
        }
        if k < fits.len() {
            assert(t[k - 1] == fits[k as int]);
        }
        lemma_leading_fits_at(t, (k - 1) as nat);
        assert(fits[0]);
    }
}

/// One line of a cell: `fits[i]` tells whether the clusters up to and
/// including `clusters[i]` fit the column (answers may stop at the first one
/// that does not). Gives the line's text and how many clusters it takes.
pub fn fitting_line(clusters: &[String], fits: &[bool]) -> (r: (String, usize))
    requires
        fits@.len() <= clusters@.len(),
    ensures
        r.1 == line_length(clusters@.len(), fits@),
        r.1 <= clusters@.len(),
        clusters@.len() > 0 ==> r.1 >= 1,
        r.0@ == joined_clusters(strings_view(clusters@), r.1 as nat),
{
    let mut k: usize = 0;
    while k < fits.len() && fits[k]
        invariant
            0 <= k <= fits.len(),
            forall|j: int| 0 <= j < k ==> #[trigger] fits@[j],
        decreases fits.len() - k,
    {
        k += 1;
    }
    proof {
        lemma_leading_fits_at(fits@, k as nat);
    }
    let n: usize = if k > 0 {
        k
    } else if clusters.len() > 0 {
        1
    } else {
        0
    };
    let ghost cs = strings_view(clusters@);
    let mut line = String::new();
    let mut i: usize = 0;
    while i < n
        invariant
            0 <= i <= n,
            n <= clusters@.len(),
            cs == strings_view(clusters@),
            line@ == joined_clusters(cs, i as nat),
        decreases n - i,
    {
        line = append_str(line, clusters[i].as_str());
        i += 1;
    }
    (line, n)
}

/// The text of lines that take, in turn, `lengths[0]`, `lengths[1]`, ...
/// clusters of `clusters`.
pub open spec fn lines_text(clusters: Seq<Seq<char>>, lengths: Seq<nat>) -> Seq<char>
    decreases lengths.len(),
{
    if lengths.len() == 0 {
        Seq::empty()
    } else {
        joined_clusters(clusters, lengths[0]) + lines_text(clusters.skip(lengths[0] as int), lengths.drop_first())
    }
}

/// Line lengths that take every one of `count` clusters, each line taking
/// from what the lines before it left.
pub open spec fn takes_all(count: nat, lengths: Seq<nat>) -> bool
    decreases lengths.len(),
{
    if lengths.len() == 0 {
        count == 0
    } else {
        lengths[0] <= count && takes_all((count - lengths[0]) as nat, lengths.drop_first())
    }
}

proof fn lemma_joined_split(clusters: Seq<Seq<char>>, n: nat, m: nat)
    requires
        n + m <= clusters.len(),
    ensures
        joined_clusters(clusters, n) + joined_clusters(clusters.skip(n as int), m) == joined_clusters(clusters, n + m),
    decreases m,
{
    if m == 0 {
        assert(joined_clusters(clusters, n) + Seq::<char>::empty() =~= joined_clusters(clusters, n));
    } else {
        let m1 = (m - 1) as nat;
        lemma_joined_split(clusters, n, m1);
        assert(clusters.skip(n as int)[m1 as int] == clusters[(n + m1) as int]);
        assert((n + m1) as nat + 1 == n + m);
        assert(joined_clusters(clusters, n) + (joined_clusters(clusters.skip(n as int), m1) + clusters[(n + m1) as int])
            =~= (joined_clusters(clusters, n) + joined_clusters(clusters.skip(n as int), m1)) + clusters[(n + m1) as int]);
    }
}

/// A line followed by the clusters it left gives back all the clusters'
/// text.
pub proof fn line_and_rest_rejoin(clusters: Seq<Seq<char>>, n: nat)
    requires
        n <= clusters.len(),
    ensures
        joined_clusters(clusters, n) + joined_clusters(clusters.skip(n as int), (clusters.len() - n) as nat)
            == joined_clusters(clusters, clusters.len()),
{
    lemma_joined_split(clusters, n, (clusters.len() - n) as nat);
}

/// Lines that take, one after the other, all the clusters of a text give back
/// the text when put together.
pub proof fn wrapped_lines_rejoin(clusters: Seq<Seq<char>>, lengths: Seq<nat>)
    requires
        takes_all(clusters.len(), lengths),
    ensures
        lines_text(clusters, lengths) == joined_clusters(clusters, clusters.len()),
    decreases lengths.len(),
{
    if lengths.len() == 0 {
        assert(joined_clusters(clusters, 0) == Seq::<char>::empty());
    } else {
        let n = lengths[0];
        let rest = clusters.skip(n as int);
        assert(rest.len() == clusters.len() - n);
        wrapped_lines_rejoin(rest, lengths.drop_first());
        line_and_rest_rejoin(clusters, n);
    }
}

} // verus!
