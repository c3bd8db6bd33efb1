use vstd::prelude::*;

verus! {

/// One catalog entry: an artwork, the museum it belongs to, and the sum of
/// the donations made to it.
#[derive(Debug)]
pub struct Image {
    pub id: u64,
    pub created_by: String,
    pub title: String,
    pub museum: String,
    pub url: String,
    pub donations: u128,
}

/// The mathematical value of an [`Image`]: its text fields as sequences of
/// characters.
pub struct ImageView {
    pub id: u64,
    pub created_by: Seq<char>,
    pub title: Seq<char>,
    pub museum: Seq<char>,
    pub url: Seq<char>,
    pub donations: u128,
}

impl View for Image {
    type V = ImageView;

    open spec fn view(&self) -> ImageView {
        ImageView {
            id: self.id,
            created_by: self.created_by@,
            title: self.title@,
            museum: self.museum@,
            url: self.url@,
            donations: self.donations,
        }
    }
}

impl ImageView {
    /// A fresh record: the given fields and no donations yet.
    pub open spec fn fresh(
        id: u64,
        created_by: Seq<char>,
        title: Seq<char>,
        museum: Seq<char>,
        url: Seq<char>,
    ) -> ImageView {
        ImageView { id, created_by, title, museum, url, donations: 0 }
    }
}

impl Image {
    /// Builds a record for `id`, submitted by `created_by`, with no donations.
    pub fn new(id: u64, created_by: String, title: String, museum: String, url: String) -> (r:
        Image)
        ensures
            r@ == ImageView::fresh(id, created_by@, title@, museum@, url@),
    {
        Image { id, created_by, title, museum, url, donations: 0 }
    }
}

impl Default for Image {
    fn default() -> (r: Image)
        ensures
            r@ == ImageView::fresh(0, Seq::empty(), Seq::empty(), Seq::empty(), Seq::empty()),
    {
        Image {
            id: 0,
            created_by: String::new(),
            title: String::new(),
            museum: String::new(),
            url: String::new(),
            donations: 0,
        }
    }
}

impl Clone for Image {
    fn clone(&self) -> (r: Image)
        ensures
            r == *self,
    {
        Image {
            id: self.id,
            created_by: self.created_by.clone(),
            title: self.title.clone(),
            museum: self.museum.clone(),
            url: self.url.clone(),
            donations: self.donations,
        }
    }
}

} // verus!
