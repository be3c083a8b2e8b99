//! The versions of other sites, by the older name of their record.

use crate::db_version::{is_new_to, SiteMap};
use vstd::prelude::*;

verus! {

/// What to do about the version that a change brings from another site: whether it has
/// to be stored.
pub fn insert_site_version(last: &SiteMap, insert_site_id: &[u8], insert_site_vrsn: i64) -> (r: bool)
    requires
        last.wf(),
    ensures
        r == is_new_to(last@, insert_site_id@, insert_site_vrsn),
{
    last.is_news(insert_site_id, insert_site_vrsn)
}

} // verus!
