//! Image view model and image statistics.

use vstd::prelude::*;
use vstd::string::StringExecFns;
use crate::clock::format_relative_long;
use crate::clock::now_timestamp;
use crate::clock::saturating_sub_i64;
use crate::clock::sat_sub_i64;
use crate::clock::spec_relative_long;

verus! {

/// Image view model for display, with its creation time as whole seconds
/// since the Unix epoch.
#[derive(Debug, Clone)]
pub struct ImageViewModel {
    pub id: String,
    pub repository: String,
    pub tag: String,
    pub size_bytes: u64,
    pub created_at_secs: i64,
    pub in_use: bool,
}

/// The full image name: repository and tag joined by `:`.
pub open spec fn spec_full_name(m: ImageViewModel) -> Seq<char> {
    m.repository@ + ":"@ + m.tag@
}

impl ImageViewModel {
    /// Full image name with tag; an untagged repository shows as
    /// `<none>`, which already is the stored repository text.
    pub fn full_name(&self) -> (r: String)
        ensures
            r@ == spec_full_name(*self),
    {
        let mut r = self.repository.clone();
        r.append(":");
        r.append(self.tag.as_str());
        r
    }

    /// The age of the image relative to `now_secs`.
    pub fn created_ago_at(&self, now_secs: i64) -> (r: String)
        ensures
            r@ == spec_relative_long(sat_sub_i64(now_secs as int, self.created_at_secs as int)),
    {
        format_relative_long(saturating_sub_i64(now_secs, self.created_at_secs))
    }

    /// The age of the image relative to the current wall clock.
    pub fn created_ago(&self) -> (r: String)
        ensures
            exists|now: int| r@ == spec_relative_long(sat_sub_i64(now, self.created_at_secs as int)),
    {
        let now = now_timestamp();
        let r = self.created_ago_at(now);
        proof {
            assert(r@ == spec_relative_long(sat_sub_i64(now as int, self.created_at_secs as int)));
        }
        r
    }
}

/// Total size of the images in `s`.
pub open spec fn spec_total_size(s: Seq<ImageViewModel>) -> int
    decreases s.len(),
{
    if s.len() == 0 {
        0
    } else {
        spec_total_size(s.drop_last()) + s.last().size_bytes
    }
}

/// Total size of the images in `s` that are not in use.
pub open spec fn spec_unused_size(s: Seq<ImageViewModel>) -> int
    decreases s.len(),
{
    if s.len() == 0 {
        0
    } else {
        spec_unused_size(s.drop_last()) + if s.last().in_use {
            0
        } else {
            s.last().size_bytes as int
        }
    }
}

/// Number of images in `s` that are not in use.
pub open spec fn spec_unused_count(s: Seq<ImageViewModel>) -> int
    decreases s.len(),
{
    if s.len() == 0 {
        0
    } else {
        spec_unused_count(s.drop_last()) + if s.last().in_use {
            0int
        } else {
            1int
        }
    }
}

/// Calculates total and unused image sizes and counts.
pub fn calculate_image_stats(images: &Vec<ImageViewModel>) -> (r: (u64, u64, usize, usize))
    requires
        spec_total_size(images@) <= u64::MAX,
    ensures
        r.0 == spec_total_size(images@),
        r.1 == spec_unused_size(images@),
        r.2 == images@.len(),
        r.3 == spec_unused_count(images@),
{
    let mut total_size: u64 = 0;
    let mut unused_size: u64 = 0;
    let mut unused_count: usize = 0;
    let mut i: usize = 0;
    proof {
        assert(images@.take(0int) =~= Seq::<ImageViewModel>::empty());
    }
    while i < images.len()
        invariant
            i <= images@.len(),
            spec_total_size(images@) <= u64::MAX,
            total_size == spec_total_size(images@.take(i as int)),
            unused_size == spec_unused_size(images@.take(i as int)),
            unused_count == spec_unused_count(images@.take(i as int)),
            unused_count <= i,
        decreases images@.len() - i,
    {
        proof {
            let t = images@.take(i + 1);
            assert(t.drop_last() =~= images@.take(i as int));
            assert(t.last() == images@[i as int]);
            lemma_total_size_prefix(images@, i + 1);
            lemma_sizes_bound(images@.take(i + 1));
        }
        total_size = total_size + images[i].size_bytes;
        if !images[i].in_use {
            unused_size = unused_size + images[i].size_bytes;
            unused_count = unused_count + 1;
        }
        i = i + 1;
    }
    proof {
        assert(images@.take(images@.len() as int) =~= images@);
    }
    (total_size, unused_size, images.len(), unused_count)
}

/// A prefix never sums to more than the whole sequence.
proof fn lemma_total_size_prefix(s: Seq<ImageViewModel>, n: int)
    requires
        0 <= n <= s.len(),
    ensures
        spec_total_size(s.take(n)) <= spec_total_size(s),
    decreases s.len() - n,
{
    if n < s.len() {
        lemma_total_size_prefix(s, n + 1);
        let t = s.take(n + 1);
        assert(t.drop_last() =~= s.take(n));
        assert(spec_total_size(s.take(n)) <= spec_total_size(s.take(n + 1)));
    } else {
        assert(s.take(n) =~= s);
    }
}

/// The unused total never exceeds the total.
proof fn lemma_sizes_bound(s: Seq<ImageViewModel>)
    ensures
        0 <= spec_unused_size(s) <= spec_total_size(s),
        0 <= spec_total_size(s),
    decreases s.len(),
{
    if s.len() > 0 {
        lemma_sizes_bound(s.drop_last());
    }
}

} // verus!
