use crate::image::ImageView;
use crate::museum::MuseumView;
use vstd::prelude::*;

verus! {

/// The sum of `amounts`.
pub open spec fn total(amounts: Seq<u128>) -> int
    decreases amounts.len(),
{
    if amounts.len() == 0 {
        0
    } else {
        total(amounts.drop_last()) + amounts.last()
    }
}

/// A sum of unsigned amounts is never negative.
proof fn lemma_total_nonnegative(amounts: Seq<u128>)
    ensures
        total(amounts) >= 0,
    decreases amounts.len(),
{
    if amounts.len() > 0 {
        lemma_total_nonnegative(amounts.drop_last());
    }
}

/// The state after crediting each of `amounts` to record `id`, in order.
pub open spec fn credit_all(v: MuseumView, id: u64, amounts: Seq<u128>) -> MuseumView
    decreases amounts.len(),
{
    if amounts.len() == 0 {
        v
    } else {
        credit_all(v, id, amounts.drop_last()).credit(id, amounts.last())
    }
}

/// Every museum that the index lists has at least one record, and each
/// record listed for it belongs to that museum.
pub proof fn lemma_listed_museums_are_not_empty(v: MuseumView, museum: Seq<char>)
    requires
        v.wf(),
        v.museums.contains(museum),
    ensures
        v.images_of(museum).len() > 0,
        forall|i: int|
            0 <= i < v.images_of(museum).len() ==> #[trigger] v.images_of(museum)[i].museum
                == museum,
{
    let k = v.position(museum);
    assert(v.bucket(museum) == v.buckets[k]);
    assert forall|i: int| 0 <= i < v.images_of(museum).len() implies #[trigger] v.images_of(
        museum,
    )[i].museum == museum by {
        assert(v.images_of(museum)[i] == v.images[v.buckets[k][i] as int]);
    }
}

/// A record read back right after its creation holds exactly the submitted
/// fields and no donations, and the records created before it are untouched.
pub proof fn lemma_created_image_is_stored(
    v: MuseumView,
    created_by: Seq<char>,
    title: Seq<char>,
    museum: Seq<char>,
    url: Seq<char>,
)
    requires
        v.wf(),
    ensures
        ({
            let image = ImageView::fresh(v.next_id(), created_by, title, museum, url);
            &&& v.insert(image).lookup(v.next_id()) == Some(image)
            &&& forall|id: u64|
                id < v.next_id() ==> #[trigger] v.insert(image).lookup(id) == v.lookup(id)
        }),
{
}

/// Crediting a run of donations to one record raises its total by exactly
/// their sum and leaves its other fields, the payee among them, unchanged.
pub proof fn lemma_donations_add_up(v: MuseumView, id: u64, amounts: Seq<u128>)
    requires
        v.wf(),
        v.lookup(id) is Some,
        v.images[id as int].donations + total(amounts) <= u128::MAX,
    ensures
        credit_all(v, id, amounts).wf(),
        credit_all(v, id, amounts).lookup(id) == Some(
            ImageView {
                donations: (v.images[id as int].donations + total(amounts)) as u128,
                ..v.images[id as int]
            },
        ),
    decreases amounts.len(),
{
    if amounts.len() > 0 {
        let rest = amounts.drop_last();
        lemma_donations_add_up(v, id, rest);
        lemma_total_nonnegative(rest);
        let w = credit_all(v, id, rest);
        let u = w.credit(id, amounts.last());
        assert forall|k: int, j: int| 0 <= k < u.buckets.len() && 0 <= j < u.buckets[k].len() implies {
            &&& (u.buckets[k][j] as int) < u.images.len()
            &&& u.images[u.buckets[k][j] as int].museum == u.museums[k]
        } by {
            assert(w.images[w.buckets[k][j] as int].museum == w.museums[k]);
        }
    }
}

} // verus!
