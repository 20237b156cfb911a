//! Network view model.

use vstd::prelude::*;
use vstd::string::StrSliceExecFns;
use vstd::string::StringExecFns;
use crate::clock::format_relative_long;
use crate::clock::now_timestamp;
use crate::clock::saturating_sub_i64;
use crate::clock::sat_sub_i64;
use crate::clock::spec_relative_long;
use crate::text::dec_chars;
use crate::text::u64_to_string;

verus! {

/// Network view model for display, with its creation time as whole
/// seconds since the Unix epoch.
#[derive(Debug, Clone)]
pub struct NetworkViewModel {
    pub id: String,
    pub name: String,
    pub driver: String,
    pub scope: String,
    pub created_at_secs: i64,
    pub internal: bool,
    pub attachable: bool,
    pub container_count: usize,
}

/// The first twelve characters of the id (all of it when shorter).
pub open spec fn spec_short_id(m: NetworkViewModel) -> Seq<char> {
    if m.id@.len() <= 12 {
        m.id@
    } else {
        m.id@.subrange(0, 12)
    }
}

/// The driver column: driver and scope, e.g. `bridge (local)`.
pub open spec fn spec_driver_display(m: NetworkViewModel) -> Seq<char> {
    m.driver@ + " ("@ + m.scope@ + ")"@
}

/// The usage column: `No containers`, `1 container`, or a count.
pub open spec fn spec_network_usage_display(m: NetworkViewModel) -> Seq<char> {
    if m.container_count == 0 {
        "No containers"@
    } else if m.container_count == 1 {
        "1 container"@
    } else {
        dec_chars(m.container_count as nat) + " containers"@
    }
}

impl NetworkViewModel {
    /// Displays the short id (first 12 characters).
    pub fn short_id(&self) -> (r: String)
        ensures
            r@ == spec_short_id(*self),
    {
        let len = self.id.as_str().unicode_len();
        if len <= 12 {
            self.id.clone()
        } else {
            self.id.as_str().substring_char(0, 12).to_owned()
        }
    }

    /// The age of the network relative to `now_secs`.
    pub fn created_ago_at(&self, now_secs: i64) -> (r: String)
        ensures
            r@ == spec_relative_long(sat_sub_i64(now_secs as int, self.created_at_secs as int)),
    {
        format_relative_long(saturating_sub_i64(now_secs, self.created_at_secs))
    }

    /// The age of the network relative to the current wall clock.
    pub fn created_ago(&self) -> (r: String)
        ensures
            exists|now: int| r@ == spec_relative_long(sat_sub_i64(now, self.created_at_secs as int)),
    {
        let now = now_timestamp();
        let r = self.created_ago_at(now);
        proof {
            assert(r@ == spec_relative_long(sat_sub_i64(now as int, self.created_at_secs as int)));
        }
        r
    }

    /// Displays driver info with scope.
    pub fn driver_display(&self) -> (r: String)
        ensures
            r@ == spec_driver_display(*self),
    {
        let mut r = self.driver.clone();
        r.append(" (");
        r.append(self.scope.as_str());
        r.append(")");
        r
    }

    /// Displays how many containers use the network.
    pub fn usage_display(&self) -> (r: String)
        ensures
            r@ == spec_network_usage_display(*self),
    {
        if self.container_count == 0 {
            "No containers".to_owned()
        } else if self.container_count == 1 {
            "1 container".to_owned()
        } else {
            u64_to_string(self.container_count as u64).concat(" containers")
        }
    }

    /// Whether this is a default system network.
    pub fn is_system(&self) -> (r: bool)
        ensures
            r == (self.name@ == "bridge"@ || self.name@ == "host"@ || self.name@ == "none"@),
    {
        self.name == "bridge".to_owned() || self.name == "host".to_owned() || self.name
            == "none".to_owned()
    }
}

} // verus!
