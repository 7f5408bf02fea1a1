use vstd::prelude::*;
use crate::db::{DbView, Device, Scan, ShortLink};
use crate::handlers::{after_device, after_scan, after_shorten};
use crate::ids::is_generated_id;
use crate::text::joined;

verus! {

/// What follows the last `/` of a path.
pub open spec fn trailing_segment(s: Seq<char>) -> Seq<char>
    decreases s.len(),
{
    if s.len() == 0 {
        s
    } else if s.last() == '/' {
        Seq::empty()
    } else {
        trailing_segment(s.drop_last()).push(s.last())
    }
}

proof fn lemma_trailing_after_slash(p: Seq<char>, id: Seq<char>)
    requires
        forall|i: int| 0 <= i < id.len() ==> #[trigger] id[i] != '/',
    ensures
        trailing_segment(joined(p, id)) == id,
    decreases id.len(),
{
    if id.len() == 0 {
        assert(joined(p, id).drop_last() =~= p);
        assert(id =~= Seq::<char>::empty());
    } else {
        let q = id.drop_last();
        assert forall|i: int| 0 <= i < q.len() implies #[trigger] q[i] != '/' by {
            assert(q[i] == id[i]);
        }
        lemma_trailing_after_slash(p, q);
        assert(joined(p, id).drop_last() =~= joined(p, q));
        assert(id[id.len() - 1] != '/');
        assert(q.push(id.last()) =~= id);
    }
}

/// A link just shortened is found again: the trailing segment of the short
/// URL handed out is its identifier, the link is stored under it, and the
/// stored URL is exactly the one given.
pub proof fn shortened_link_resolves(db: DbView, base_url: Seq<char>, link: ShortLink)
    requires
        is_generated_id(link.short_id@),
    ensures
        trailing_segment(joined(base_url, link.short_id@)) == link.short_id@,
        after_shorten(db, link).links.contains_key(trailing_segment(joined(base_url, link.short_id@))),
        after_shorten(db, link).links[link.short_id@].url == link.url,
{
    let id = link.short_id@;
    assert forall|i: int| 0 <= i < id.len() implies #[trigger] id[i] != '/' by {
        assert(crate::ids::is_url_safe(id[i]));
    }
    lemma_trailing_after_slash(base_url, id);
}

/// Registering a device that is not known yet adds exactly one record, under
/// its id; registering the same id again changes nothing.
pub proof fn device_registration_is_idempotent(db: DbView, first: Device, again: Device)
    requires
        db.devices.dom().finite(),
        !db.devices.contains_key(first.device_id@),
        again.device_id@ == first.device_id@,
    ensures
        after_device(db, first).devices.contains_key(first.device_id@),
        after_device(db, first).devices[first.device_id@] == first,
        after_device(db, first).devices.len() == db.devices.len() + 1,
        after_device(after_device(db, first), again).devices == after_device(db, first).devices,
{
}

/// The database after the given links are shortened, in order.
pub open spec fn after_shortens(db: DbView, links: Seq<ShortLink>) -> DbView
    decreases links.len(),
{
    if links.len() == 0 {
        db
    } else {
        after_shorten(after_shortens(db, links.drop_last()), links.last())
    }
}

/// The database after the given scans are recorded, in order.
pub open spec fn after_scans(db: DbView, scans: Seq<Scan>) -> DbView
    decreases scans.len(),
{
    if scans.len() == 0 {
        db
    } else {
        after_scan(after_scans(db, scans.drop_last()), scans.last())
    }
}

/// Ids of a sequence of links, none repeated and none already stored.
pub open spec fn fresh_links(db: DbView, links: Seq<ShortLink>) -> bool {
    &&& forall|i: int| 0 <= i < links.len() ==> !db.links.contains_key(#[trigger] links[i].short_id@)
    &&& forall|i: int, j: int|
        0 <= i < j < links.len() ==> #[trigger] links[i].short_id@ != #[trigger] links[j].short_id@
}

/// Ids of a sequence of scans, none repeated and none already stored.
pub open spec fn fresh_scans(db: DbView, scans: Seq<Scan>) -> bool {
    &&& forall|i: int| 0 <= i < scans.len() ==> !db.scans.contains_key(#[trigger] scans[i].scan_id@)
    &&& forall|i: int, j: int|
        0 <= i < j < scans.len() ==> #[trigger] scans[i].scan_id@ != #[trigger] scans[j].scan_id@
}

/// After N links with fresh ids are shortened, the link table holds N more
/// records, and the other tables are as they were.
pub proof fn shortens_add_one_link_each(db: DbView, links: Seq<ShortLink>)
    requires
        db.links.dom().finite(),
        fresh_links(db, links),
    ensures
        after_shortens(db, links).links.dom().finite(),
        after_shortens(db, links).links.len() == db.links.len() + links.len(),
        forall|i: int| 0 <= i < links.len() ==> after_shortens(db, links).links.contains_key(#[trigger] links[i].short_id@),
        after_shortens(db, links).users == db.users,
        after_shortens(db, links).devices == db.devices,
        after_shortens(db, links).scans == db.scans,
    decreases links.len(),
{
    if links.len() > 0 {
        let p = links.drop_last();
        assert(fresh_links(db, p)) by {
            assert forall|i: int| 0 <= i < p.len() implies !db.links.contains_key(#[trigger] p[i].short_id@) by {
                assert(p[i] == links[i]);
            }
            assert forall|i: int, j: int| 0 <= i < j < p.len() implies #[trigger] p[i].short_id@ != #[trigger] p[j].short_id@ by {
                assert(p[i] == links[i] && p[j] == links[j]);
            }
        }
        shortens_add_one_link_each(db, p);
        let last = links.last();
        assert(!after_shortens(db, p).links.contains_key(last.short_id@)) by {
            if after_shortens(db, p).links.contains_key(last.short_id@) {
                // Only keys already stored or added by `p` are present.
                lemma_shortens_keys(db, p, last.short_id@);
                let i = choose|i: int| 0 <= i < p.len() && p[i].short_id@ == last.short_id@;
                assert(links[i].short_id@ != links[links.len() - 1].short_id@);
            }
        }
        assert forall|i: int| 0 <= i < links.len() implies after_shortens(db, links).links.contains_key(#[trigger] links[i].short_id@) by {
            if i < p.len() {
                assert(p[i] == links[i]);
            }
        }
    }
}

proof fn lemma_shortens_keys(db: DbView, links: Seq<ShortLink>, k: Seq<char>)
    requires
        after_shortens(db, links).links.contains_key(k),
    ensures
        db.links.contains_key(k) || exists|i: int| 0 <= i < links.len() && links[i].short_id@ == k,
    decreases links.len(),
{
    if links.len() > 0 {
        let p = links.drop_last();
        if k != links.last().short_id@ {
            lemma_shortens_keys(db, p, k);
            if !db.links.contains_key(k) {
                let i = choose|i: int| 0 <= i < p.len() && p[i].short_id@ == k;
                assert(links[i] == p[i]);
            }
        } else {
            assert(links[links.len() - 1].short_id@ == k);
        }
    }
}

/// After M scans with fresh ids are recorded, the scan table holds M more
/// records, and the other tables are as they were.
pub proof fn scans_add_one_scan_each(db: DbView, scans: Seq<Scan>)
    requires
        db.scans.dom().finite(),
        fresh_scans(db, scans),
    ensures
        after_scans(db, scans).scans.dom().finite(),
        after_scans(db, scans).scans.len() == db.scans.len() + scans.len(),
        forall|i: int| 0 <= i < scans.len() ==> after_scans(db, scans).scans.contains_key(#[trigger] scans[i].scan_id@),
        after_scans(db, scans).links == db.links,
        after_scans(db, scans).users == db.users,
        after_scans(db, scans).devices == db.devices,
    decreases scans.len(),
{
    if scans.len() > 0 {
        let p = scans.drop_last();
        assert(fresh_scans(db, p)) by {
            assert forall|i: int| 0 <= i < p.len() implies !db.scans.contains_key(#[trigger] p[i].scan_id@) by {
                assert(p[i] == scans[i]);
            }
            assert forall|i: int, j: int| 0 <= i < j < p.len() implies #[trigger] p[i].scan_id@ != #[trigger] p[j].scan_id@ by {
                assert(p[i] == scans[i] && p[j] == scans[j]);
            }
        }
        scans_add_one_scan_each(db, p);
        let last = scans.last();
        assert(!after_scans(db, p).scans.contains_key(last.scan_id@)) by {
            if after_scans(db, p).scans.contains_key(last.scan_id@) {
                lemma_scans_keys(db, p, last.scan_id@);
                let i = choose|i: int| 0 <= i < p.len() && p[i].scan_id@ == last.scan_id@;
                assert(scans[i].scan_id@ != scans[scans.len() - 1].scan_id@);
            }
        }
        assert forall|i: int| 0 <= i < scans.len() implies after_scans(db, scans).scans.contains_key(#[trigger] scans[i].scan_id@) by {
            if i < p.len() {
                assert(p[i] == scans[i]);
            }
        }
    }
}

/// Starting from empty link and scan tables, N shortens and then M scans
/// with fresh ids leave N links and M scans.
pub proof fn counts_after_shortens_and_scans(db: DbView, links: Seq<ShortLink>, scans: Seq<Scan>)
    requires
        db.links == Map::<Seq<char>, ShortLink>::empty(),
        db.scans == Map::<Seq<char>, Scan>::empty(),
        fresh_links(db, links),
        fresh_scans(db, scans),
    ensures
        after_scans(after_shortens(db, links), scans).links.len() == links.len(),
        after_scans(after_shortens(db, links), scans).scans.len() == scans.len(),
{
    shortens_add_one_link_each(db, links);
    let mid = after_shortens(db, links);
    assert(fresh_scans(mid, scans));
    scans_add_one_scan_each(mid, scans);
}

proof fn lemma_scans_keys(db: DbView, scans: Seq<Scan>, k: Seq<char>)
    requires
        after_scans(db, scans).scans.contains_key(k),
    ensures
        db.scans.contains_key(k) || exists|i: int| 0 <= i < scans.len() && scans[i].scan_id@ == k,
    decreases scans.len(),
{
    if scans.len() > 0 {
        let p = scans.drop_last();
        if k != scans.last().scan_id@ {
            lemma_scans_keys(db, p, k);
            if !db.scans.contains_key(k) {
                let i = choose|i: int| 0 <= i < p.len() && p[i].scan_id@ == k;
                assert(scans[i] == p[i]);
            }
        } else {
            assert(scans[scans.len() - 1].scan_id@ == k);
        }
    }
}

} // verus!
