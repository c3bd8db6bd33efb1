use crate::image::{Image, ImageView};
use vstd::prelude::*;

verus! {

/// The mathematical value of a [`SimpleImageMuseum`].
///
/// `images` is the record store: the record with id `i` stands at position
/// `i`. `museums` lists the index's keys in the order they were first used,
/// and `buckets[k]` holds the ids filed under `museums[k]`, oldest first.
pub struct MuseumView {
    pub images: Seq<ImageView>,
    pub museums: Seq<Seq<char>>,
    pub buckets: Seq<Seq<u64>>,
}

impl MuseumView {
    /// The state of a catalog that holds nothing.
    pub open spec fn empty() -> MuseumView {
        MuseumView { images: Seq::empty(), museums: Seq::empty(), buckets: Seq::empty() }
    }

    /// Record ids match positions, index keys are unique, every bucket is
    /// non-empty, and every filed id names a record of that museum.
    pub open spec fn wf(self) -> bool {
        &&& self.images.len() <= u64::MAX
        &&& forall|i: int| 0 <= i < self.images.len() ==> self.images[i].id == i
        &&& self.museums.len() == self.buckets.len()
        &&& forall|i: int, j: int|
            0 <= i < self.museums.len() && 0 <= j < self.museums.len() && i != j
                ==> self.museums[i] != self.museums[j]
        &&& forall|k: int| 0 <= k < self.buckets.len() ==> self.buckets[k].len() > 0
        &&& forall|k: int, j: int|
            0 <= k < self.buckets.len() && 0 <= j < self.buckets[k].len() ==> {
                &&& (self.buckets[k][j] as int) < self.images.len()
                &&& self.images[self.buckets[k][j] as int].museum == self.museums[k]
            }
    }

    /// The id that the next record receives.
    pub open spec fn next_id(self) -> u64 {
        self.images.len() as u64
    }

    /// The record stored under `id`, if any.
    pub open spec fn lookup(self, id: u64) -> Option<ImageView> {
        if (id as int) < self.images.len() {
            Some(self.images[id as int])
        } else {
            None
        }
    }

    /// The position of `museum` among the index's keys.
    pub open spec fn position(self, museum: Seq<char>) -> int {
        choose|k: int| 0 <= k < self.museums.len() && self.museums[k] == museum
    }

    /// The ids filed under `museum`; empty where the museum is unknown.
    pub open spec fn bucket(self, museum: Seq<char>) -> Seq<u64> {
        if self.museums.contains(museum) {
            self.buckets[self.position(museum)]
        } else {
            Seq::empty()
        }
    }

    /// The records filed under `museum`, in the order they were filed.
    pub open spec fn images_of(self, museum: Seq<char>) -> Seq<ImageView> {
        self.bucket(museum).map_values(|id: u64| self.images[id as int])
    }

    /// Every record paired with its id, in id order.
    pub open spec fn listing(self) -> Seq<(u64, ImageView)> {
        self.images.map_values(|v: ImageView| (v.id, v))
    }

    /// The state after storing `image` and filing its id under its museum.
    pub open spec fn insert(self, image: ImageView) -> MuseumView {
        if self.museums.contains(image.museum) {
            let k = self.position(image.museum);
            MuseumView {
                images: self.images.push(image),
                museums: self.museums,
                buckets: self.buckets.update(k, self.buckets[k].push(image.id)),
            }
        } else {
            MuseumView {
                images: self.images.push(image),
                museums: self.museums.push(image.museum),
                buckets: self.buckets.push(seq![image.id]),
            }
        }
    }

    /// The state after adding `amount` to the donations of record `id`.
    pub open spec fn credit(self, id: u64, amount: u128) -> MuseumView {
        let old_image = self.images[id as int];
        MuseumView {
            images: self.images.update(
                id as int,
                ImageView { donations: (old_image.donations + amount) as u128, ..old_image },
            ),
            museums: self.museums,
            buckets: self.buckets,
        }
    }
}

/// Filing a fresh record with the next free id keeps the catalog's invariant.
proof fn lemma_insert_keeps_wf(v: MuseumView, image: ImageView)
    requires
        v.wf(),
        v.images.len() < u64::MAX,
        image.id == v.images.len(),
    ensures
        v.insert(image).wf(),
{
    let w = v.insert(image);
    if v.museums.contains(image.museum) {
        let k = v.position(image.museum);
        assert forall|b: int, j: int| 0 <= b < w.buckets.len() && 0 <= j < w.buckets[b].len() implies {
            &&& (w.buckets[b][j] as int) < w.images.len()
            &&& w.images[w.buckets[b][j] as int].museum == w.museums[b]
        } by {
            if b == k && j == v.buckets[k].len() {
            } else {
                assert(w.buckets[b][j] == v.buckets[b][j]);
            }
        }
    } else {
        assert forall|b: int, j: int| 0 <= b < w.buckets.len() && 0 <= j < w.buckets[b].len() implies {
            &&& (w.buckets[b][j] as int) < w.images.len()
            &&& w.images[w.buckets[b][j] as int].museum == w.museums[b]
        } by {
            if b < v.buckets.len() {
                assert(w.buckets[b][j] == v.buckets[b][j]);
            }
        }
    }
}

/// A payment that the host must carry out: `amount` to `receiver`.
#[derive(Debug)]
pub struct Transfer {
    pub receiver: String,
    pub amount: u128,
}

impl View for Transfer {
    type V = (Seq<char>, u128);

    open spec fn view(&self) -> (Seq<char>, u128) {
        (self.receiver@, self.amount)
    }
}

/// What a donation that was not aborted leads to.
#[derive(Debug)]
pub enum DonationOutcome {
    /// The record was credited; the amount goes on to its submitter.
    Credited(Transfer),
    /// No such record; the amount goes back to the donor.
    Refunded(Transfer),
}

impl DonationOutcome {
    /// Whether the donation reached a record.
    pub fn credited(&self) -> (r: bool)
        ensures
            r == (self is Credited),
    {
        match self {
            DonationOutcome::Credited(_) => true,
            DonationOutcome::Refunded(_) => false,
        }
    }

    /// The payment that settles the escrowed amount.
    pub fn transfer(&self) -> (r: &Transfer)
        ensures
            r == (match self {
                DonationOutcome::Credited(t) => t,
                DonationOutcome::Refunded(t) => t,
            }),
    {
        match self {
            DonationOutcome::Credited(t) => t,
            DonationOutcome::Refunded(t) => t,
        }
    }
}

/// Why a donation was aborted; nothing was changed.
#[derive(Debug, PartialEq, Eq, Structural)]
pub enum DonationError {
    /// The attached amount is zero.
    InvalidAmount,
    /// The record's total would exceed `u128::MAX`.
    Overflow,
}

/// The catalog: a record store and a museum index kept in step.
pub struct SimpleImageMuseum {
    images: Vec<Image>,
    museums: Vec<String>,
    buckets: Vec<Vec<u64>>,
}

impl View for SimpleImageMuseum {
    type V = MuseumView;

    closed spec fn view(&self) -> MuseumView {
        MuseumView {
            images: self.images@.map_values(|i: Image| i@),
            museums: self.museums@.map_values(|s: String| s@),
            buckets: self.buckets@.map_values(|b: Vec<u64>| b@),
        }
    }
}

impl Default for SimpleImageMuseum {
    fn default() -> (r: SimpleImageMuseum)
        ensures
            r@ == MuseumView::empty(),
            r.wf(),
    {
        let r = SimpleImageMuseum { images: Vec::new(), museums: Vec::new(), buckets: Vec::new() };
        assert(r@.images =~= Seq::empty());
        assert(r@.museums =~= Seq::empty());
        assert(r@.buckets =~= Seq::empty());
        r
    }
}

impl SimpleImageMuseum {
    /// The catalog's invariant.
    pub open spec fn wf(&self) -> bool {
        self@.wf()
    }

    /// The value of a catalog made of these parts.
    pub open spec fn parts_view(images: Seq<Image>, museums: Seq<String>, buckets: Seq<Vec<u64>>)
        -> MuseumView {
        MuseumView {
            images: images.map_values(|i: Image| i@),
            museums: museums.map_values(|s: String| s@),
            buckets: buckets.map_values(|b: Vec<u64>| b@),
        }
    }

    /// Rebuilds a catalog from its record store, index keys and buckets, as
    /// [`SimpleImageMuseum::into_parts`] hands them out; `None` where the
    /// parts break the catalog's invariant.
    pub fn from_parts(images: Vec<Image>, museums: Vec<String>, buckets: Vec<Vec<u64>>) -> (r:
        Option<SimpleImageMuseum>)
        ensures
            r is Some <==> Self::parts_view(images@, museums@, buckets@).wf(),
            r is Some ==> r->Some_0@ == Self::parts_view(images@, museums@, buckets@),
    {
        let m = SimpleImageMuseum { images, museums, buckets };
        if m.check_wf() {
            Some(m)
        } else {
            None
        }
    }

    /// The record store, the index keys and the buckets.
    pub fn into_parts(self) -> (r: (Vec<Image>, Vec<String>, Vec<Vec<u64>>))
        ensures
            Self::parts_view(r.0@, r.1@, r.2@) == self@,
    {
        (self.images, self.museums, self.buckets)
    }

    /// Whether the catalog meets its invariant.
    fn check_wf(&self) -> (r: bool)
        ensures
            r == self@.wf(),
    {
        let ghost v = self@;
        let mut i: usize = 0;
        while i < self.images.len()
            invariant
                v == self@,
                i <= v.images.len(),
                forall|j: int| 0 <= j < i ==> v.images[j].id == j,
            decreases v.images.len() - i,
        {
            if self.images[i].id != i as u64 {
                assert(v.images[i as int].id != i);
                return false;
            }
            i = i + 1;
        }
        if self.museums.len() != self.buckets.len() {
            return false;
        }
        let mut a: usize = 0;
        while a < self.museums.len()
            invariant
                v == self@,
                a <= v.museums.len(),
                forall|x: int, y: int|
                    0 <= x < a && 0 <= y < v.museums.len() && x != y ==> v.museums[x]
                        != v.museums[y],
            decreases v.museums.len() - a,
        {
            let mut b: usize = 0;
            while b < self.museums.len()
                invariant
                    v == self@,
                    a < v.museums.len(),
                    b <= v.museums.len(),
                    forall|x: int, y: int|
                        0 <= x < a && 0 <= y < v.museums.len() && x != y ==> v.museums[x]
                            != v.museums[y],
                    forall|y: int| 0 <= y < b && y != a ==> v.museums[a as int] != v.museums[y],
                decreases v.museums.len() - b,
            {
                if b != a && self.museums[a] == self.museums[b] {
                    assert(v.museums[a as int] == v.museums[b as int]);
                    return false;
                }
                b = b + 1;
            }
            a = a + 1;
        }
        let mut k: usize = 0;
        while k < self.buckets.len()
            invariant
                v == self@,
                v.museums.len() == v.buckets.len(),
                k <= v.buckets.len(),
                forall|i: int| 0 <= i < v.images.len() ==> v.images[i].id == i,
                forall|x: int, y: int|
                    0 <= x < v.museums.len() && 0 <= y < v.museums.len() && x != y
                        ==> v.museums[x] != v.museums[y],
                forall|x: int| 0 <= x < k ==> v.buckets[x].len() > 0,
                forall|x: int, j: int|
                    0 <= x < k && 0 <= j < v.buckets[x].len() ==> {
                        &&& (v.buckets[x][j] as int) < v.images.len()
                        &&& v.images[v.buckets[x][j] as int].museum == v.museums[x]
                    },
            decreases v.buckets.len() - k,
        {
            let bucket = &self.buckets[k];
            if bucket.len() == 0 {
                assert(v.buckets[k as int].len() == 0);
                return false;
            }
            let mut j: usize = 0;
            while j < bucket.len()
                invariant
                    v == self@,
                    k < v.buckets.len(),
                    v.museums.len() == v.buckets.len(),
                    bucket@ == v.buckets[k as int],
                    j <= bucket@.len(),
                    forall|y: int|
                        0 <= y < j ==> {
                            &&& (v.buckets[k as int][y] as int) < v.images.len()
                            &&& v.images[v.buckets[k as int][y] as int].museum == v.museums[k as int]
                        },
                decreases bucket@.len() - j,
            {
                let id = bucket[j];
                if id >= self.images.len() as u64 {
                    assert(!((v.buckets[k as int][j as int] as int) < v.images.len()));
                    return false;
                }
                if !(self.images[id as usize].museum == self.museums[k]) {
                    assert(v.images[v.buckets[k as int][j as int] as int].museum != v.museums[k as int]);
                    return false;
                }
                j = j + 1;
            }
            k = k + 1;
        }
        true
    }

    /// The position of `museum` among the index's keys.
    fn find_museum(&self, museum: &String) -> (r: Option<usize>)
        ensures
            match r {
                Some(k) => k < self@.museums.len() && self@.museums[k as int] == museum@,
                None => !self@.museums.contains(museum@),
            },
    {
        let mut k: usize = 0;
        while k < self.museums.len()
            invariant
                k <= self.museums@.len(),
                forall|j: int| 0 <= j < k ==> self@.museums[j] != museum@,
            decreases self.museums@.len() - k,
        {
            if self.museums[k] == *museum {
                return Some(k);
            }
            k = k + 1;
        }
        None
    }

    /// Stores a new record with the next free id, submitted by `created_by`,
    /// and files it under its museum, opening a bucket for a new museum.
    pub fn create_image(&mut self, title: String, url: String, museum: String, created_by: String)
        -> (r: Image)
        requires
            old(self).wf(),
        ensures
            final(self).wf(),
            r@ == ImageView::fresh(old(self)@.next_id(), created_by@, title@, museum@, url@),
            final(self)@ == old(self)@.insert(r@),
    {
        let ghost pre = self@;
        let id = self.images.len() as u64;
        let image = Image::new(id, created_by, title, museum.clone(), url);
        let found = self.find_museum(&museum);
        self.images.push(image.clone());
        assert(self@.images =~= pre.images.push(image@));
        let count = self.images.len();
        assert(pre.images.len() < u64::MAX) by {
            assert(count as int == pre.images.len() + 1);
        }
        match found {
            Some(k) => {
                assert(pre.position(museum@) == k as int);
                let ghost old_bucket = self.buckets@[k as int]@;
                self.buckets[k].push(id);
                assert(self@.buckets =~= pre.buckets.update(k as int, old_bucket.push(id)));
                assert(self@.museums =~= pre.museums);
            },
            None => {
                self.museums.push(museum);
                let mut bucket: Vec<u64> = Vec::new();
                bucket.push(id);
                self.buckets.push(bucket);
                assert(self@.museums =~= pre.museums.push(image@.museum));
                assert(self@.buckets =~= pre.buckets.push(seq![id]));
            },
        }
        assert(self@ == pre.insert(image@));
        proof {
            lemma_insert_keeps_wf(pre, image@);
        }
        image
    }

    /// The record stored under `id`, if any.
    pub fn get_image(&self, id: u64) -> (r: Option<Image>)
        requires
            self.wf(),
        ensures
            match r {
                Some(image) => self@.lookup(id) == Some(image@),
                None => self@.lookup(id) is None,
            },
    {
        if id < self.images.len() as u64 {
            Some(self.images[id as usize].clone())
        } else {
            None
        }
    }

    /// Every record with its id, in id order.
    pub fn get_images_list(&self) -> (r: Vec<(u64, Image)>)
        requires
            self.wf(),
        ensures
            r@.map_values(|p: (u64, Image)| (p.0, p.1@)) == self@.listing(),
    {
        let mut out: Vec<(u64, Image)> = Vec::new();
        let mut i: usize = 0;
        while i < self.images.len()
            invariant
                self.wf(),
                i <= self.images@.len(),
                out@.map_values(|p: (u64, Image)| (p.0, p.1@)) =~= self@.listing().take(i as int),
            decreases self.images@.len() - i,
        {
            let image = self.images[i].clone();
            out.push((image.id, image));
            assert(self@.listing().take(i + 1) =~= self@.listing().take(i as int).push(
                self@.listing()[i as int],
            ));
            i = i + 1;
        }
        assert(self@.listing().take(i as int) =~= self@.listing());
        out
    }

    /// The names of all museums, in the order they were first used.
    pub fn get_museums_list(&self) -> (r: Vec<String>)
        requires
            self.wf(),
        ensures
            r@.map_values(|s: String| s@) == self@.museums,
    {
        let mut out: Vec<String> = Vec::new();
        let mut i: usize = 0;
        while i < self.museums.len()
            invariant
                i <= self.museums@.len(),
                out@.map_values(|s: String| s@) =~= self@.museums.take(i as int),
            decreases self.museums@.len() - i,
        {
            out.push(self.museums[i].clone());
            assert(self@.museums.take(i + 1) =~= self@.museums.take(i as int).push(
                self@.museums[i as int],
            ));
            i = i + 1;
        }
        assert(self@.museums.take(i as int) =~= self@.museums);
        out
    }

    /// The records filed under `museum`, in the order they were filed; empty
    /// for an unknown museum. An id that names no record is skipped.
    pub fn get_images_of_museum(&self, museum: String) -> (r: Vec<Image>)
        requires
            self.wf(),
        ensures
            r@.map_values(|i: Image| i@) == self@.images_of(museum@),
    {
        let mut out: Vec<Image> = Vec::new();
        match self.find_museum(&museum) {
            None => {
                assert(out@.map_values(|i: Image| i@) =~= self@.images_of(museum@));
                out
            },
            Some(k) => {
                let ghost all = self@;
                assert(all.position(museum@) == k as int);
                let bucket = &self.buckets[k];
                assert(bucket@ == all.bucket(museum@));
                let mut j: usize = 0;
                while j < bucket.len()
                    invariant
                        all == self@,
                        all.wf(),
                        k < all.buckets.len(),
                        bucket@ == all.buckets[k as int],
                        j <= bucket@.len(),
                        out@.map_values(|i: Image| i@) =~= bucket@.take(j as int).map_values(
                            |id: u64| all.images[id as int],
                        ),
                    decreases bucket@.len() - j,
                {
                    let id = bucket[j];
                    let ghost before = out@;
                    assert(bucket@.take(j + 1) =~= bucket@.take(j as int).push(id));
                    if id < self.images.len() as u64 {
                        out.push(self.images[id as usize].clone());
                        assert(out@.map_values(|i: Image| i@) =~= before.map_values(|i: Image| i@).push(
                            all.images[id as int],
                        ));
                    }
                    j = j + 1;
                }
                assert(bucket@.take(j as int) =~= bucket@);
                out
            },
        }
    }

    /// Credits `amount`, held in escrow for `donor`, to record `id`.
    ///
    /// A zero amount, or one that would take the record's total past
    /// `u128::MAX`, aborts the donation with nothing changed. For an unknown
    /// id the amount is refunded to the donor, with nothing changed.
    /// Otherwise the record's total grows by `amount`, and the same amount is
    /// to be paid on to the record's submitter.
    pub fn donate_an_image(&mut self, id: u64, amount: u128, donor: String) -> (r: Result<
        DonationOutcome,
        DonationError,
    >)
        requires
            old(self).wf(),
        ensures
            final(self).wf(),
            amount == 0 ==> r == Err::<DonationOutcome, DonationError>(
                DonationError::InvalidAmount,
            ) && final(self)@ == old(self)@,
            amount > 0 && old(self)@.lookup(id) is None ==> r is Ok && r->Ok_0 is Refunded
                && r->Ok_0->Refunded_0@ == (donor@, amount) && final(self)@ == old(self)@,
            amount > 0 && old(self)@.lookup(id) is Some && old(self)@.images[id as int].donations
                + amount > u128::MAX ==> r == Err::<DonationOutcome, DonationError>(
                DonationError::Overflow,
            ) && final(self)@ == old(self)@,
            amount > 0 && old(self)@.lookup(id) is Some && old(self)@.images[id as int].donations
                + amount <= u128::MAX ==> r is Ok && r->Ok_0 is Credited
                && r->Ok_0->Credited_0@ == (old(self)@.images[id as int].created_by, amount)
                && final(self)@ == old(self)@.credit(id, amount),
    {
        if amount == 0 {
            return Err(DonationError::InvalidAmount);
        }
        if id >= self.images.len() as u64 {
            return Ok(DonationOutcome::Refunded(Transfer { receiver: donor, amount }));
        }
        let i = id as usize;
        let before = self.images[i].donations;
        if before > u128::MAX - amount {
            return Err(DonationError::Overflow);
        }
        let ghost pre = self@;
        self.images[i].donations = before + amount;
        assert(self@.images =~= pre.credit(id, amount).images);
        let receiver = self.images[i].created_by.clone();
        Ok(DonationOutcome::Credited(Transfer { receiver, amount }))
    }
}

} // verus!
