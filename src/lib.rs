//! A catalog of artworks grouped by museum, with a donation ledger.
//!
//! The record store and the museum index live in one value,
//! [`SimpleImageMuseum`], whose contracts are stated over [`MuseumView`].
//! Whatever the host provides (the caller's identity, the attached deposit,
//! moving funds) enters and leaves as plain values.

mod image;
mod laws;
mod museum;

pub use laws::{
    credit_all, lemma_created_image_is_stored, lemma_donations_add_up,
    lemma_listed_museums_are_not_empty, total,
};

pub use image::{Image, ImageView};
pub use museum::{DonationError, DonationOutcome, MuseumView, SimpleImageMuseum, Transfer};


