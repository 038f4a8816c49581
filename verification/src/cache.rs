//! The image cache: at most one image location per greeting category,
//! replaced wholesale on each successful refresh (last write wins).

use vstd::prelude::*;

verus! {

/// A greeting category: the closed set of keys under which images are
/// cached, and the parameter of a scrape request.
#[derive(Clone, Copy, Debug, PartialEq, Eq, Structural)]
pub enum Category {
    BuonGiorno,
    BuonPomeriggio,
    BuonaNotte,
    Compleanno,
}

/// An image location: an absolute URL to an image, kept as plain text.
/// It is opaque to the cache; validity is the scrape provider's concern.
#[derive(Clone, Debug)]
pub struct ImageLocation {
    pub url: String,
}

impl ImageLocation {
    pub fn new(url: String) -> (r: ImageLocation)
        ensures
            r.url == url,
    {
        ImageLocation { url }
    }

    /// An owned copy of this location, equal to the original.
    pub fn duplicate(&self) -> (r: ImageLocation)
        ensures
            r == *self,
    {
        ImageLocation { url: self.url.clone() }
    }
}

/// The cache itself: one optional location per category. Absence of an
/// entry means "not yet fetched", which readers treat as a normal state.
pub struct ImgDb {
    morning: Option<ImageLocation>,
    afternoon: Option<ImageLocation>,
    night: Option<ImageLocation>,
    birthday: Option<ImageLocation>,
}

impl ImgDb {
    /// The entry currently held for a category.
    pub closed spec fn spec_get(self, c: Category) -> Option<ImageLocation> {
        match c {
            Category::BuonGiorno => self.morning,
            Category::BuonPomeriggio => self.afternoon,
            Category::BuonaNotte => self.night,
            Category::Compleanno => self.birthday,
        }
    }

    /// A cache starts empty: no category has an entry.
    pub fn new() -> (db: ImgDb)
        ensures
            forall|c: Category| db.spec_get(c) is None,
    {
        ImgDb { morning: None, afternoon: None, night: None, birthday: None }
    }

    /// Read the entry for a category. Never fails; a missing entry is a
    /// normal result, not an error.
    pub fn get(&self, c: Category) -> (r: Option<&ImageLocation>)
        ensures
            match r {
                Some(l) => self.spec_get(c) == Some(*l),
                None => self.spec_get(c) is None,
            },
    {
        match c {
            Category::BuonGiorno => self.morning.as_ref(),
            Category::BuonPomeriggio => self.afternoon.as_ref(),
            Category::BuonaNotte => self.night.as_ref(),
            Category::Compleanno => self.birthday.as_ref(),
        }
    }

    /// Replace the entry for a category, leaving every other category
    /// untouched: entries are replaced, never merged.
    pub fn insert(&mut self, c: Category, l: ImageLocation)
        ensures
            final(self).spec_get(c) == Some(l),
            forall|c2: Category| c2 != c ==> final(self).spec_get(c2) == old(self).spec_get(c2),
    {
        match c {
            Category::BuonGiorno => self.morning = Some(l),
            Category::BuonPomeriggio => self.afternoon = Some(l),
            Category::BuonaNotte => self.night = Some(l),
            Category::Compleanno => self.birthday = Some(l),
        }
    }
}

/// Law: a read is idempotent. Two reads of the same category against the
/// same cache state return the identical value, because `get` is a function
/// of the cache state alone.
pub proof fn lemma_get_idempotent(
    db: ImgDb,
    c: Category,
    r1: Option<ImageLocation>,
    r2: Option<ImageLocation>,
)
    requires
        r1 == db.spec_get(c),
        r2 == db.spec_get(c),
    ensures
        r1 == r2,
{
}

/// Law: the last write wins. After writing `l1` and then `l2` for the same
/// category, the cache holds `l2`; until the second write it held `l1`; and
/// neither write disturbs any other category.
pub proof fn lemma_last_write_wins(
    db0: ImgDb,
    db1: ImgDb,
    db2: ImgDb,
    c: Category,
    l1: ImageLocation,
    l2: ImageLocation,
)
    requires
        db1.spec_get(c) == Some(l1),
        forall|c2: Category| c2 != c ==> db1.spec_get(c2) == db0.spec_get(c2),
        db2.spec_get(c) == Some(l2),
        forall|c2: Category| c2 != c ==> db2.spec_get(c2) == db1.spec_get(c2),
    ensures
        db1.spec_get(c) == Some(l1),
        db2.spec_get(c) == Some(l2),
        forall|c2: Category| c2 != c ==> db2.spec_get(c2) == db0.spec_get(c2),
{
}

} // verus!
