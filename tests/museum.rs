use image_museum::{DonationError, DonationOutcome, Image, SimpleImageMuseum};

fn s(text: &str) -> String {
    String::from(text)
}

fn two_museums() -> (SimpleImageMuseum, Image, Image) {
    let mut m = SimpleImageMuseum::default();
    let starry = m.create_image(s("Starry Night"), s("http://x/1"), s("MoMA"), s("alice.near"));
    let guernica =
        m.create_image(s("Guernica"), s("http://x/2"), s("Reina Sofia"), s("bob.near"));
    (m, starry, guernica)
}

#[test]
fn museums_list_after_two_creations() {
    let (m, _, _) = two_museums();
    let mut names = m.get_museums_list();
    names.sort();
    assert_eq!(names, vec![s("MoMA"), s("Reina Sofia")]);
}

#[test]
fn images_of_moma() {
    let (m, _, _) = two_museums();
    let images = m.get_images_of_museum(s("MoMA"));
    assert_eq!(images.len(), 1);
    assert_eq!(images[0].title, "Starry Night");
}

#[test]
fn donation_is_credited() {
    let (mut m, starry, _) = two_museums();
    let outcome = m.donate_an_image(starry.id, 500, s("carol.near")).unwrap();
    assert!(outcome.credited());
    assert_eq!(m.get_image(starry.id).unwrap().donations, 500);
    let t = outcome.transfer();
    assert_eq!(t.receiver, "alice.near");
    assert_eq!(t.amount, 500);
}

#[test]
fn created_image_reads_back() {
    let mut m = SimpleImageMuseum::default();
    let made = m.create_image(s("Water Lilies"), s("http://x/3"), s("Orsay"), s("dave.near"));
    let got = m.get_image(made.id).unwrap();
    assert_eq!(got.id, made.id);
    assert_eq!(got.title, "Water Lilies");
    assert_eq!(got.url, "http://x/3");
    assert_eq!(got.museum, "Orsay");
    assert_eq!(got.created_by, "dave.near");
    assert_eq!(got.donations, 0);
}

#[test]
fn empty_fields_are_accepted() {
    let mut m = SimpleImageMuseum::default();
    let made = m.create_image(s(""), s(""), s(""), s(""));
    assert_eq!(made.museum, "");
    assert_eq!(m.get_museums_list(), vec![s("")]);
    assert_eq!(m.get_images_of_museum(s("")).len(), 1);
}

#[test]
fn ids_are_distinct_and_listed_in_order() {
    let (m, starry, guernica) = two_museums();
    assert_ne!(starry.id, guernica.id);
    let list = m.get_images_list();
    assert_eq!(list.len(), 2);
    assert_eq!(list[0].0, starry.id);
    assert_eq!(list[0].1.title, "Starry Night");
    assert_eq!(list[1].0, guernica.id);
    assert_eq!(list[1].1.title, "Guernica");
}

#[test]
fn same_museum_shares_one_bucket() {
    let (mut m, _, _) = two_museums();
    m.create_image(s("The Dream"), s("http://x/4"), s("MoMA"), s("erin.near"));
    assert_eq!(m.get_museums_list().len(), 2);
    let images = m.get_images_of_museum(s("MoMA"));
    assert_eq!(images.len(), 2);
    assert_eq!(images[0].title, "Starry Night");
    assert_eq!(images[1].title, "The Dream");
}

#[test]
fn museum_names_are_case_sensitive() {
    let (m, _, _) = two_museums();
    assert!(m.get_images_of_museum(s("moma")).is_empty());
}

#[test]
fn every_listed_museum_has_images() {
    let (mut m, _, _) = two_museums();
    m.create_image(s("Sunflowers"), s("http://x/5"), s("National Gallery"), s("alice.near"));
    for name in m.get_museums_list() {
        assert!(!m.get_images_of_museum(name).is_empty());
    }
}

#[test]
fn unknown_museum_gives_nothing() {
    let (m, _, _) = two_museums();
    assert!(m.get_images_of_museum(s("Louvre")).is_empty());
}

#[test]
fn unknown_image_is_absent() {
    let (m, _, _) = two_museums();
    assert!(m.get_image(99).is_none());
}

#[test]
fn zero_donation_is_rejected() {
    let (mut m, starry, _) = two_museums();
    let r = m.donate_an_image(starry.id, 0, s("carol.near"));
    assert_eq!(r.unwrap_err(), DonationError::InvalidAmount);
    assert_eq!(m.get_image(starry.id).unwrap().donations, 0);
}

#[test]
fn donation_to_unknown_image_is_refunded() {
    let (mut m, _, _) = two_museums();
    let outcome = m.donate_an_image(42, 7, s("carol.near")).unwrap();
    assert!(!outcome.credited());
    match outcome {
        DonationOutcome::Refunded(t) => {
            assert_eq!(t.receiver, "carol.near");
            assert_eq!(t.amount, 7);
        }
        DonationOutcome::Credited(_) => panic!("an unknown image was credited"),
    }
    assert_eq!(m.get_images_list().len(), 2);
    assert_eq!(m.get_museums_list().len(), 2);
}

#[test]
fn donations_accumulate() {
    let (mut m, _, guernica) = two_museums();
    let mut paid: u128 = 0;
    for amount in [3u128, 40, 500] {
        let outcome = m.donate_an_image(guernica.id, amount, s("carol.near")).unwrap();
        let t = outcome.transfer();
        assert_eq!(t.receiver, "bob.near");
        paid += t.amount;
    }
    assert_eq!(paid, 543);
    assert_eq!(m.get_image(guernica.id).unwrap().donations, 543);
}

#[test]
fn donation_past_the_maximum_is_rejected() {
    let (mut m, starry, _) = two_museums();
    assert!(m.donate_an_image(starry.id, u128::MAX, s("carol.near")).unwrap().credited());
    let r = m.donate_an_image(starry.id, 1, s("carol.near"));
    assert_eq!(r.unwrap_err(), DonationError::Overflow);
    assert_eq!(m.get_image(starry.id).unwrap().donations, u128::MAX);
}

#[test]
fn default_image_is_blank() {
    let image = Image::default();
    assert_eq!(image.id, 0);
    assert_eq!(image.title, "");
    assert_eq!(image.created_by, "");
    assert_eq!(image.donations, 0);
}

#[test]
fn new_image_keeps_fields() {
    let image = Image::new(9, s("frank.near"), s("Nighthawks"), s("Art Institute"), s("http://x/6"));
    assert_eq!(image.id, 9);
    assert_eq!(image.created_by, "frank.near");
    assert_eq!(image.title, "Nighthawks");
    assert_eq!(image.museum, "Art Institute");
    assert_eq!(image.url, "http://x/6");
    assert_eq!(image.donations, 0);
}

#[test]
fn parts_round_trip() {
    let (mut m, starry, _) = two_museums();
    m.donate_an_image(starry.id, 12, s("carol.near")).unwrap();
    let (images, museums, buckets) = m.into_parts();
    assert_eq!(images.len(), 2);
    assert_eq!(museums, vec![s("MoMA"), s("Reina Sofia")]);
    assert_eq!(buckets, vec![vec![0u64], vec![1u64]]);
    let back = SimpleImageMuseum::from_parts(images, museums, buckets).unwrap();
    assert_eq!(back.get_image(starry.id).unwrap().donations, 12);
    assert_eq!(back.get_images_of_museum(s("Reina Sofia"))[0].title, "Guernica");
}

#[test]
fn inconsistent_parts_are_refused() {
    let image = |id: u64, museum: &str| Image::new(id, s("a"), s("t"), s(museum), s("u"));
    // an id filed under a museum names no record
    assert!(SimpleImageMuseum::from_parts(vec![image(0, "M")], vec![s("M")], vec![vec![0, 1]])
        .is_none());
    // a record filed under another museum than its own
    assert!(SimpleImageMuseum::from_parts(vec![image(0, "N")], vec![s("M")], vec![vec![0]])
        .is_none());
    // the same museum twice
    assert!(SimpleImageMuseum::from_parts(
        vec![image(0, "M"), image(1, "M")],
        vec![s("M"), s("M")],
        vec![vec![0], vec![1]]
    )
    .is_none());
    // an empty bucket
    assert!(SimpleImageMuseum::from_parts(vec![], vec![s("M")], vec![vec![]]).is_none());
    // a record out of its place
    assert!(SimpleImageMuseum::from_parts(vec![image(5, "M")], vec![s("M")], vec![vec![0]])
        .is_none());
    // keys and buckets of different lengths
    assert!(SimpleImageMuseum::from_parts(vec![], vec![s("M")], vec![]).is_none());
    assert!(SimpleImageMuseum::from_parts(vec![image(0, "M")], vec![s("M")], vec![vec![0]])
        .is_some());
}
