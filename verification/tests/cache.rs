use fractal_renderer::cache::ResponseCache;
use fractal_renderer::fractal::SimplifiedFractals;
use fractal_renderer::request::{RequestBody, RequestIdentifier};

fn request(fractal: SimplifiedFractals, width: u32) -> RequestIdentifier {
    let mut body = RequestBody::empty();
    body.width = Some(width);
    RequestIdentifier::new(fractal, &body).unwrap()
}

#[test]
fn new_cache_finds_nothing() {
    let cache = ResponseCache::new();
    assert_eq!(cache.len(), 0);
    assert_eq!(cache.lookup(&request(SimplifiedFractals::Eye, 1)), None);
}

#[test]
fn stored_image_is_found_again() {
    let mut cache = ResponseCache::new();
    cache.store(request(SimplifiedFractals::Eye, 1), vec![1, 2, 3]);
    assert_eq!(cache.len(), 1);
    assert_eq!(cache.lookup(&request(SimplifiedFractals::Eye, 1)), Some(&vec![1, 2, 3]));
    assert_eq!(cache.lookup(&request(SimplifiedFractals::Eye, 2)), None);
    assert_eq!(cache.lookup(&request(SimplifiedFractals::Feather, 1)), None);
}

#[test]
fn store_appends_and_lookup_finds_the_first() {
    let mut cache = ResponseCache::new();
    cache.store(request(SimplifiedFractals::Eye, 1), vec![1]);
    cache.store(request(SimplifiedFractals::Eye, 2), vec![2]);
    cache.store(request(SimplifiedFractals::Eye, 1), vec![3]);
    cache.store(request(SimplifiedFractals::Tricorn, 1), vec![1]);
    assert_eq!(cache.len(), 4);
    assert_eq!(cache.lookup(&request(SimplifiedFractals::Eye, 1)), Some(&vec![1]));
    assert_eq!(cache.lookup(&request(SimplifiedFractals::Eye, 2)), Some(&vec![2]));
    assert_eq!(cache.lookup(&request(SimplifiedFractals::Tricorn, 1)), Some(&vec![1]));
}

#[test]
fn store_does_not_change_other_lookups() {
    let mut cache = ResponseCache::new();
    cache.store(request(SimplifiedFractals::Eye, 1), vec![1]);
    for width in 2..50 {
        cache.store(request(SimplifiedFractals::Eye, width), vec![width as u8]);
        assert_eq!(cache.lookup(&request(SimplifiedFractals::Eye, 1)), Some(&vec![1]));
        assert_eq!(cache.lookup(&request(SimplifiedFractals::Eye, width + 1)), None);
    }
    assert_eq!(cache.len(), 49);
}
