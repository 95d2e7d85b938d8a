use url_shortener::allocator::{
    allocate, candidate, generate, try_candidate, CANDIDATES, MAX_ATTEMPTS,
};
use url_shortener::clock::subsec_nanos_now;
use url_shortener::{Event, Projection, ShortLink, ShortenerError, Slug, Url};

fn slug(text: &str) -> Slug {
    Slug(text.to_string())
}

fn with_links(slugs: &[&str]) -> Projection {
    let mut projection = Projection::new();
    for text in slugs {
        let link = ShortLink { slug: slug(text), url: Url("https://example.com".to_string()) };
        projection.fold(&Event::LinkCreated(link)).unwrap();
    }
    projection
}

#[test]
fn candidate_is_the_decimal_form_of_the_sample() {
    assert_eq!(candidate(0), slug("0"));
    assert_eq!(candidate(7), slug("7"));
    assert_eq!(candidate(9), slug("9"));
    assert_eq!(candidate(10), slug("10"));
    assert_eq!(candidate(42), slug("42"));
    assert_eq!(candidate(100), slug("100"));
    assert_eq!(candidate(1_090), slug("1090"));
    assert_eq!(candidate(123_456_789), slug("123456789"));
    assert_eq!(candidate(999_999_999), slug("999999999"));
    assert_eq!(candidate(1_000_000_000), slug("1000000000"));
    assert_eq!(candidate(u32::MAX), slug("4294967295"));
}

#[test]
fn candidate_agrees_with_the_standard_rendering() {
    let mut sample: u32 = 0;
    while sample < 5_000 {
        assert_eq!(candidate(sample).0, sample.to_string());
        sample += 1;
    }
    let mut large: u32 = 1;
    while large < 400_000_000 {
        assert_eq!(candidate(large).0, large.to_string());
        assert_eq!(candidate(large - 1).0, (large - 1).to_string());
        large *= 7;
    }
}

#[test]
fn try_candidate_gives_the_slug_of_a_free_sample() {
    let taken = with_links(&["41", "43"]);
    assert_eq!(try_candidate(42, 0, &taken), Some(slug("42")));
    assert_eq!(try_candidate(0, 0, &Projection::new()), Some(slug("0")));
}

#[test]
fn try_candidate_refuses_a_taken_sample() {
    let taken = with_links(&["41", "42"]);
    assert_eq!(try_candidate(42, 0, &taken), None);
    assert_eq!(try_candidate(41, 0, &taken), None);
}

#[test]
fn try_candidate_moves_the_sample_on_by_the_attempt() {
    let taken = with_links(&["42", "43", "45"]);
    assert_eq!(try_candidate(42, 0, &taken), None);
    assert_eq!(try_candidate(42, 1, &taken), None);
    assert_eq!(try_candidate(42, 2, &taken), Some(slug("44")));
    assert_eq!(try_candidate(42, 3, &taken), None);
    assert_eq!(try_candidate(42, 31, &taken), Some(slug("73")));
}

#[test]
fn try_candidate_stays_below_one_billion() {
    let free = Projection::new();
    assert_eq!(try_candidate(999_999_999, 0, &free), Some(slug("999999999")));
    assert_eq!(try_candidate(999_999_999, 1, &free), Some(slug("0")));
    assert_eq!(try_candidate(999_999_990, 31, &free), Some(slug("21")));
    assert_eq!(try_candidate(1_000_000_000, 0, &free), Some(slug("0")));
    assert_eq!(try_candidate(u32::MAX, u32::MAX, &free), Some(slug("589934590")));
    assert_eq!(CANDIDATES, 1_000_000_000);
}

#[test]
fn allocate_grants_a_free_request() {
    let taken = with_links(&["abc"]);
    assert_eq!(allocate(Some(slug("abd")), &taken), Ok(slug("abd")));
    assert_eq!(allocate(Some(slug("")), &taken), Ok(slug("")));
    assert_eq!(allocate(Some(slug("abc")), &Projection::new()), Ok(slug("abc")));
}

#[test]
fn allocate_refuses_a_taken_request() {
    let taken = with_links(&["abc", "xyz"]);
    assert_eq!(allocate(Some(slug("abc")), &taken), Err(ShortenerError::SlugAlreadyInUse));
    assert_eq!(allocate(Some(slug("xyz")), &taken), Err(ShortenerError::SlugAlreadyInUse));
}

#[test]
fn allocate_without_a_request_generates_a_free_slug() {
    let taken = with_links(&["abc"]);
    let slug = allocate(None, &taken).unwrap();
    assert!(!taken.contains(&slug));
    assert!(slug.0.chars().all(|c| c.is_ascii_digit()));
    let value: u32 = slug.0.parse().unwrap();
    assert!(value < 1_000_000_000);
    assert_eq!(slug.0, value.to_string());
}

#[test]
fn generate_gives_a_free_decimal_slug() {
    let taken = Projection::new();
    let slug = generate(&taken).unwrap();
    assert!(!slug.0.is_empty() && slug.0.len() <= 9);
    assert!(slug.0.chars().all(|c| c.is_ascii_digit()));
}

#[test]
fn attempts_are_bounded() {
    assert_eq!(MAX_ATTEMPTS, 32);
}

#[test]
fn clock_samples_are_below_one_billion() {
    let mut taken: u32 = 0;
    while taken < 1_000 {
        assert!(subsec_nanos_now() < 1_000_000_000);
        taken += 1;
    }
}

#[test]
fn clock_samples_change() {
    let first: u32 = subsec_nanos_now();
    let mut changed = false;
    let mut tries: u32 = 0;
    while tries < 1_000_000 && !changed {
        changed = subsec_nanos_now() != first;
        tries += 1;
    }
    assert!(changed);
}
