//! The version of the database, which goes up by one with every transaction, and the
//! versions that other sites are known to have reached.

use crate::consts::MIN_POSSIBLE_DB_VERSION;
use crate::ext_data::ExtData;
use crate::pack_columns::{ColumnValue, Val};
use crate::result_code::Stepped;
use crate::statement::{blob, bound, one, two, Statement};
use crate::steps::statement;
use vstd::prelude::*;
use vstd::string::*;

verus! {

/// The version of the transaction under way: one more than that of the database, or
/// the version that the transaction has already.
pub open spec fn next_version(ext: ExtData) -> int {
    if ext.db_version + 1 < ext.pending_db_version {
        ext.pending_db_version as int
    } else {
        ext.db_version + 1
    }
}

/// The version that the next write of the transaction will have.
pub fn peek_next_db_version(ext_data: &ExtData) -> (r: i64)
    requires
        ext_data.db_version < i64::MAX,
    ensures
        r == next_version(*ext_data),
{
    let ret: i64 = ext_data.db_version + 1;
    if ret < ext_data.pending_db_version {
        ext_data.pending_db_version
    } else {
        ret
    }
}

/// The version of a write, and whether it is new to the transaction, so that it has to
/// be stored before the write.
pub fn next_db_version(ext_data: &ExtData) -> (r: (i64, bool))
    requires
        ext_data.db_version < i64::MAX,
    ensures
        r.0 == next_version(*ext_data),
        r.1 == (r.0 != ext_data.pending_db_version),
{
    let ret: i64 = peek_next_db_version(ext_data);
    (ret, ret != ext_data.pending_db_version)
}

/// Takes a version for the transaction, once it is stored.
pub fn set_pending_db_version(ext_data: &mut ExtData, version: i64)
    ensures
        *final(ext_data) == (ExtData { pending_db_version: version, ..*old(ext_data) }),
{
    ext_data.pending_db_version = version;
}

/// All writes of a transaction have one version, which is above that of the database,
/// and which the database has once the transaction is committed; it is stored once.
pub proof fn versions_go_up(ext: ExtData)
    requires
        -1 <= ext.db_version < i64::MAX,
    ensures
        ({
            let v = next_version(ext);
            let during = ExtData { pending_db_version: v as i64, ..ext };
            &&& v > ext.db_version
            &&& v >= ext.pending_db_version
            &&& next_version(during) == v
            &&& crate::commit::committed(during).db_version == v
            &&& crate::commit::after_tx(during).db_version == ext.db_version
            &&& crate::commit::after_tx(during).pending_db_version == -1
        }),
{
}

/// The version of a transaction is the one right above that of the database, unless the transaction
/// has a higher one already; so that of the transactions of one connection, each has the next one.
pub proof fn versions_go_up_by_one(ext: ExtData)
    requires
        -1 <= ext.db_version < i64::MAX - 1,
    ensures
        ext.pending_db_version <= ext.db_version + 1 ==> next_version(ext) == ext.db_version + 1,
        ext.pending_db_version > ext.db_version + 1 ==> next_version(ext) == ext.pending_db_version,
        ext.pending_db_version == -1 ==> ({
            let v = next_version(ext);
            let over = crate::commit::committed(ExtData { pending_db_version: v as i64, ..ext });
            next_version(over) == v + 1
        }),
{
}

/// Stores the version that a site has reached, where it is above the one that is stored.
pub const SET_DB_VERSION_SQL: &'static str = "INSERT INTO crsql_db_versions (site_id, db_version) VALUES (?, ?) ON CONFLICT DO UPDATE SET db_version = excluded.db_version WHERE excluded.db_version > db_version RETURNING db_version";

/// Finds the number of a site.
pub const SITE_ORDINAL_SQL: &'static str = "SELECT ordinal FROM crsql_site_id WHERE site_id = ?";

/// Gives a number to a site.
pub const NEW_SITE_ORDINAL_SQL: &'static str = "INSERT INTO crsql_site_id (site_id) VALUES (?) RETURNING ordinal";

/// The statement that stores the version that a site has reached.
pub fn store_version(site_id: &[u8], version: i64) -> (r: Statement)
    ensures
        r@ == bound(SET_DB_VERSION_SQL@, seq![Val::Blob(site_id@), Val::Integer(version)]),
{
    statement(SET_DB_VERSION_SQL.to_owned(), two(blob(site_id), ColumnValue::Integer(version)))
}

/// The statement that finds the number of a site.
pub fn find_ordinal(site_id: &[u8]) -> (r: Statement)
    ensures
        r@ == bound(SITE_ORDINAL_SQL@, seq![Val::Blob(site_id@)]),
{
    statement(SITE_ORDINAL_SQL.to_owned(), one(blob(site_id)))
}

/// The statement that gives a number to a site.
pub fn create_ordinal(site_id: &[u8]) -> (r: Statement)
    ensures
        r@ == bound(NEW_SITE_ORDINAL_SQL@, seq![Val::Blob(site_id@)]),
{
    statement(NEW_SITE_ORDINAL_SQL.to_owned(), one(blob(site_id)))
}

/// What to do about the version of the database.
#[derive(Clone, Copy, PartialEq, Eq, Structural, Debug)]
pub enum FillStep {
    /// It could not be seen whether another connection has committed.
    Fail,
    /// The version is known.
    Keep,
    /// Read the version.
    Fetch,
}

/// The error where it could not be seen whether another connection has committed.
pub const DATA_VERSION_ERROR: &'static str = "failed to fetch PRAGMA data_version";

/// What to do about the version of the database.
pub open spec fn fill_step(ext: ExtData, changed: int) -> FillStep {
    if changed == -1 {
        FillStep::Fail
    } else if ext.db_version != -1 && changed == 0 {
        FillStep::Keep
    } else {
        FillStep::Fetch
    }
}

/// The version of the database is kept exactly where it is known and no other connection has
/// committed; after a commit of this connection, which knows its version, that of the transaction
/// is kept.
pub proof fn versions_are_read_when_needed(ext: ExtData, changed: int)
    ensures
        fill_step(ext, changed) == FillStep::Keep <==> changed == 0 && ext.db_version != -1,
        fill_step(ext, changed) == FillStep::Fail <==> changed == -1,
        fill_step(ext, changed) == FillStep::Fetch <==> changed != -1 && (changed != 0 || ext.db_version == -1),
        ext.pending_db_version >= 0 ==> fill_step(crate::commit::committed(ext), 0) == FillStep::Keep,
{
}

/// What to do about the version of the database: read it where it is not known, or
/// where another connection may have changed it. `changed` is 0 where none has
/// committed, and -1 where that could not be seen.
pub fn fill_db_version_if_needed(ext_data: &ExtData, changed: i32) -> (r: FillStep)
    ensures
        r == fill_step(*ext_data, changed as int),
{
    if changed == -1 {
        FillStep::Fail
    } else if ext_data.db_version != -1 && changed == 0 {
        FillStep::Keep
    } else {
        FillStep::Fetch
    }
}

/// Takes over the version of the database that was read: the least one where nothing
/// is stored. An error leaves it as it was; `rc` names the error.
pub fn fetch_db_version_from_storage(ext_data: &mut ExtData, stepped: Stepped, rc: &str) -> (r: Result<
    (),
    String,
>)
    ensures
        match stepped {
            Stepped::Done => r is Ok && *final(ext_data) == (ExtData {
                db_version: MIN_POSSIBLE_DB_VERSION,
                ..*old(ext_data)
            }),
            Stepped::Row(v) => r is Ok && *final(ext_data) == (ExtData { db_version: v, ..*old(ext_data) }),
            Stepped::Other(_) => {
                &&& r matches Err(msg)
                &&& msg@ == "failed to step db version stmt: "@ + rc@
                &&& *final(ext_data) == *old(ext_data)
            },
        },
{
    match stepped {
        Stepped::Done => {
            ext_data.db_version = MIN_POSSIBLE_DB_VERSION;
            Ok(())
        },
        Stepped::Row(v) => {
            ext_data.db_version = v;
            Ok(())
        },
        Stepped::Other(_) => Err("failed to step db version stmt: ".to_owned().concat(rc)),
    }
}

// ---------------------------------------------------------------------------
// The versions of other sites
// ---------------------------------------------------------------------------
/// Whether a version of a site is above what is stored of it.
pub open spec fn is_new_to(sites: Map<Seq<u8>, i64>, site: Seq<u8>, version: i64) -> bool {
    !(sites.contains_key(site) && sites[site] >= version)
}

/// Once a version of a site was taken over, that one and all below it are known, and those above it
/// are not; nothing else is known of other sites.
pub proof fn taken_versions_are_known(sites: Map<Seq<u8>, i64>, site: Seq<u8>, version: i64, other: Seq<u8>, v: i64)
    ensures
        is_new_to(sites.insert(site, version), site, v) <==> v > version,
        other != site ==> is_new_to(sites.insert(site, version), other, v) == is_new_to(sites, other, v),
        is_new_to(Map::empty(), site, v),
{
}

/// A number for each of some sites: the highest version that is stored of it, or its
/// ordinal.
pub struct SiteMap {
    sites: Vec<Vec<u8>>,
    versions: Vec<i64>,
}

fn same_bytes(a: &[u8], b: &[u8]) -> (r: bool)
    ensures
        r == (a@ == b@),
{
    if a.len() != b.len() {
        return false;
    }
    let mut i: usize = 0;
    while i < a.len()
        invariant
            i <= a@.len(),
            a@.len() == b@.len(),
            forall|j: int| 0 <= j < i ==> a@[j] == b@[j],
        decreases a@.len() - i,
    {
        if a[i] != b[i] {
            return false;
        }
        i = i + 1;
    }
    assert(a@ =~= b@);
    true
}

impl View for SiteMap {
    type V = Map<Seq<u8>, i64>;

    closed spec fn view(&self) -> Map<Seq<u8>, i64> {
        Map::new(
            |site: Seq<u8>| exists|i: int| self.at(i, site),
            |site: Seq<u8>| self.versions@[choose|i: int| self.at(i, site)],
        )
    }
}

impl SiteMap {
    spec fn at(&self, i: int, site: Seq<u8>) -> bool {
        0 <= i < self.sites@.len() && self.sites@[i]@ == site
    }

    /// Each site is listed once, with its number.
    pub closed spec fn wf(&self) -> bool {
        &&& self.sites@.len() == self.versions@.len()
        &&& forall|i: int, j: int|
            0 <= i < self.sites@.len() && 0 <= j < self.sites@.len() && self.sites@[i]@ == self.sites@[j]@ ==> i == j
    }

    /// No sites.
    pub fn new() -> (r: SiteMap)
        ensures
            r.wf(),
            r@ == Map::<Seq<u8>, i64>::empty(),
    {
        let r = SiteMap { sites: Vec::new(), versions: Vec::new() };
        assert(r@ =~= Map::<Seq<u8>, i64>::empty());
        r
    }

    /// Forgets all sites.
    pub fn clear(&mut self)
        ensures
            final(self).wf(),
            final(self)@ == Map::<Seq<u8>, i64>::empty(),
    {
        self.sites.clear();
        self.versions.clear();
        assert(self@ =~= Map::<Seq<u8>, i64>::empty());
    }

    fn find(&self, site_id: &[u8]) -> (r: Option<usize>)
        ensures
            r matches Some(i) ==> self.at(i as int, site_id@),
            r is None ==> forall|i: int| !self.at(i, site_id@),
    {
        let mut i: usize = 0;
        while i < self.sites.len()
            invariant
                i <= self.sites@.len(),
                forall|j: int| 0 <= j < i ==> !self.at(j, site_id@),
            decreases self.sites@.len() - i,
        {
            if same_bytes(self.sites[i].as_slice(), site_id) {
                return Some(i);
            }
            i = i + 1;
        }
        None
    }

    /// The number of a site.
    pub fn get(&self, site_id: &[u8]) -> (r: Option<i64>)
        requires
            self.wf(),
        ensures
            r == (if self@.contains_key(site_id@) {
                Some(self@[site_id@])
            } else {
                None
            }),
    {
        match self.find(site_id) {
            Some(i) => {
                assert(self.at(i as int, site_id@));
                Some(self.versions[i])
            },
            None => None,
        }
    }

    /// Whether a version of a site has to be stored: it is above what is stored.
    pub fn is_news(&self, site_id: &[u8], version: i64) -> (r: bool)
        requires
            self.wf(),
        ensures
            r == is_new_to(self@, site_id@, version),
    {
        match self.get(site_id) {
            Some(stored) => stored < version,
            None => true,
        }
    }

    /// Takes over the number of a site.
    pub fn record(&mut self, site_id: &[u8], version: i64)
        requires
            old(self).wf(),
        ensures
            final(self).wf(),
            final(self)@ == old(self)@.insert(site_id@, version),
    {
        match self.find(site_id) {
            Some(i) => {
                self.versions.set(i, version);
                proof {
                    assert(old(self).at(i as int, site_id@));
                    assert forall|s: Seq<u8>, k: int| self.at(k, s) == old(self).at(k, s) by {}
                    assert forall|s: Seq<u8>| self@.contains_key(s) implies #[trigger] self@[s] == old(
                        self,
                    )@.insert(site_id@, version)[s] by {
                        let k = choose|k: int| self.at(k, s);
                        assert(self.at(k, s));
                        let k0 = choose|k: int| old(self).at(k, s);
                        assert(old(self).at(k, s));
                        assert(k == k0);
                    }
                    assert(self@ =~= old(self)@.insert(site_id@, version));
                }
            },
            None => {
                let n: Ghost<int> = Ghost(self.sites@.len() as int);
                let copy = vstd::slice::slice_to_vec(site_id);
                self.sites.push(copy);
                self.versions.push(version);
                proof {
                    assert(self.at(n@, site_id@));
                    assert forall|s: Seq<u8>, k: int| self.at(k, s) == (old(self).at(k, s) || (k == n@ && s
                        == site_id@)) by {}
                    assert forall|i: int, j: int|
                        0 <= i < self.sites@.len() && 0 <= j < self.sites@.len() && self.sites@[i]@
                            == self.sites@[j]@ implies i == j by {
                        if i != j && (i == n@ || j == n@) {
                            let k = if i == n@ { j } else { i };
                            assert(old(self).at(k, site_id@));
                        }
                    }
                    assert forall|s: Seq<u8>| self@.contains_key(s) == old(self)@.insert(
                        site_id@,
                        version,
                    ).contains_key(s) by {
                        if old(self)@.contains_key(s) {
                            let k = choose|k: int| old(self).at(k, s);
                            assert(self.at(k, s));
                        }
                        if self@.contains_key(s) {
                            let k = choose|k: int| self.at(k, s);
                            assert(self.at(k, s));
                            if k != n@ {
                                assert(old(self).at(k, s));
                            }
                        }
                    }
                    assert forall|s: Seq<u8>| self@.contains_key(s) implies #[trigger] self@[s] == old(
                        self,
                    )@.insert(site_id@, version)[s] by {
                        let k = choose|k: int| self.at(k, s);
                        assert(self.at(k, s));
                        if k != n@ {
                            assert(old(self).at(k, s));
                            let k0 = choose|k: int| old(self).at(k, s);
                            assert(old(self).at(k0, s));
                            assert(k == k0);
                        }
                    }
                    assert(self@ =~= old(self)@.insert(site_id@, version));
                }
            },
        }
    }
}

/// What to do about the version that a change brings from another site.
pub fn insert_db_version(last: &SiteMap, insert_site_id: &[u8], insert_db_vrsn: i64) -> (r: bool)
    requires
        last.wf(),
    ensures
        r == is_new_to(last@, insert_site_id@, insert_db_vrsn),
{
    last.is_news(insert_site_id, insert_db_vrsn)
}

/// What is known of the versions of sites once one was stored: the version that is stored now,
/// where one is given back.
pub open spec fn known_after(known: Map<Seq<u8>, i64>, site: Seq<u8>, stepped: Stepped) -> Map<Seq<u8>, i64> {
    match stepped {
        Stepped::Row(v) => known.insert(site, v),
        _ => known,
    }
}

/// A version that was stored needs not be stored again, nor does any below it; one that could not
/// be stored still does.
pub proof fn stored_versions_are_stored_once(known: Map<Seq<u8>, i64>, site: Seq<u8>, v: i64, stepped: Stepped)
    ensures
        stepped == Stepped::Row(v) ==> !is_new_to(known_after(known, site, stepped), site, v),
        stepped == Stepped::Row(v) && v < i64::MAX ==> is_new_to(
            known_after(known, site, stepped),
            site,
            (v + 1) as i64,
        ),
        !(stepped is Row) ==> is_new_to(known_after(known, site, stepped), site, v) == is_new_to(known, site, v),
{
}

/// Takes over what storing the version of a site came to: the version that is stored
/// now, where one is given back. The result is the error, where there is one.
pub fn recorded_db_version(last: &mut SiteMap, insert_site_id: &[u8], stepped: Stepped) -> (r: Option<
    crate::result_code::ResultCode,
>)
    requires
        old(last).wf(),
    ensures
        final(last).wf(),
        final(last)@ == known_after(old(last)@, insert_site_id@, stepped),
        r == match stepped {
            Stepped::Other(rc) => Some(rc),
            _ => None,
        },
{
    match stepped {
        Stepped::Row(v) => {
            last.record(insert_site_id, v);
            None
        },
        Stepped::Done => None,
        Stepped::Other(rc) => Some(rc),
    }
}

} // verus!
