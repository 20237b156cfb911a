//! Volume view model.

use vstd::prelude::*;
use vstd::string::StringExecFns;
use crate::clock::format_relative_long;
use crate::clock::now_timestamp;
use crate::clock::saturating_sub_i64;
use crate::clock::sat_sub_i64;
use crate::clock::spec_relative_long;
use crate::text::dec_chars;
use crate::text::u64_to_string;

verus! {

/// Volume view model for display, with its creation time as whole
/// seconds since the Unix epoch.
#[derive(Debug, Clone)]
pub struct VolumeViewModel {
    pub name: String,
    pub driver: String,
    pub mount_point: String,
    pub size_bytes: Option<u64>,
    pub created_at_secs: i64,
    pub in_use: bool,
    pub container_names: Vec<String>,
}

/// The usage column: the single user's name, a user count, or `Unused`.
pub open spec fn spec_volume_usage_display(m: VolumeViewModel) -> Seq<char> {
    if m.in_use {
        if m.container_names@.len() == 1 {
            "Used by "@ + m.container_names@[0]@
        } else {
            "Used by "@ + dec_chars(m.container_names@.len() as nat) + " containers"@
        }
    } else {
        "Unused"@
    }
}

impl VolumeViewModel {
    /// The age of the volume relative to `now_secs`.
    pub fn created_ago_at(&self, now_secs: i64) -> (r: String)
        ensures
            r@ == spec_relative_long(sat_sub_i64(now_secs as int, self.created_at_secs as int)),
    {
        format_relative_long(saturating_sub_i64(now_secs, self.created_at_secs))
    }

    /// The age of the volume relative to the current wall clock.
    pub fn created_ago(&self) -> (r: String)
        ensures
            exists|now: int| r@ == spec_relative_long(sat_sub_i64(now, self.created_at_secs as int)),
    {
        let now = now_timestamp();
        let r = self.created_ago_at(now);
        proof {
            assert(r@ == spec_relative_long(sat_sub_i64(now as int, self.created_at_secs as int)));
        }
        r
    }

    /// Displays which containers use the volume.
    pub fn usage_display(&self) -> (r: String)
        ensures
            r@ == spec_volume_usage_display(*self),
    {
        if self.in_use {
            if self.container_names.len() == 1 {
                "Used by ".to_owned().concat(self.container_names[0].as_str())
            } else {
                let mut r = "Used by ".to_owned();
                let n = u64_to_string(self.container_names.len() as u64);
                r.append(n.as_str());
                r.append(" containers");
                r
            }
        } else {
            "Unused".to_owned()
        }
    }
}

} // verus!
