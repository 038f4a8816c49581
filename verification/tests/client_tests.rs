use buongiorno_bot::cache::Category;
use buongiorno_bot::cache::ImageLocation;
use buongiorno_bot::client::Action;
use buongiorno_bot::client::Client;
use buongiorno_bot::client::Resolution;
use buongiorno_bot::client::ScrapeOutcome;

fn loc(s: &str) -> ImageLocation {
    ImageLocation::new(s.to_string())
}

fn found(urls: &[&str]) -> ScrapeOutcome {
    ScrapeOutcome::Found(urls.iter().map(|u| loc(u)).collect())
}

/// Run one resolution to the end against fixed provider behaviour.
fn drive<F: Fn(usize, Category) -> ScrapeOutcome>(
    n_providers: usize,
    category: Category,
    answer: F,
) -> Option<ImageLocation> {
    let client = Client::new(n_providers);
    let (mut res, mut act) = client.resolve_image(category);
    loop {
        match act {
            Action::Scrape { provider, category } => {
                act = res.step(answer(provider, category));
            }
            Action::Finished { result } => return result,
        }
    }
}

#[test]
fn first_provider_is_in_range() {
    // With a single provider the random first pick can only be provider 0.
    let client = Client::new(1);
    let (_, act) = client.resolve_image(Category::BuonGiorno);
    match act {
        Action::Scrape { provider, category } => {
            assert_eq!(provider, 0);
            assert_eq!(category, Category::BuonGiorno);
        }
        _ => panic!("a fresh resolution must begin with a scrape"),
    }
}

#[test]
fn initial_success_picks_from_list() {
    let (mut res, _) = Resolution::start(2, Category::BuonaNotte, 0);
    let act = res.step(found(&["https://example.com/a.jpg", "https://example.com/b.jpg"]));
    match act {
        Action::Finished { result: Some(l) } => {
            assert!(
                l.url == "https://example.com/a.jpg".to_string()
                    || l.url == "https://example.com/b.jpg".to_string()
            );
        }
        _ => panic!("a non-empty success must finish the resolution"),
    }
}

#[test]
fn single_candidate_is_returned_exactly() {
    let (mut res, _) = Resolution::start(2, Category::BuonaNotte, 1);
    let act = res.step(found(&["https://example.com/only.jpg"]));
    match act {
        Action::Finished { result: Some(l) } => {
            assert_eq!(l.url, "https://example.com/only.jpg".to_string());
        }
        _ => panic!("a non-empty success must finish the resolution"),
    }
}

#[test]
fn initial_hard_failure_propagates() {
    let (mut res, _) = Resolution::start(2, Category::BuonaNotte, 0);
    let act = res.step(ScrapeOutcome::Failed);
    match act {
        Action::Finished { result } => assert!(result.is_none()),
        _ => panic!("a hard failure on the first try must not fall back"),
    }
}

#[test]
fn unsupported_sweeps_providers_in_order() {
    let (mut res, _) = Resolution::start(3, Category::BuonaNotte, 1);
    // Unsupported on the random first try: sweep from provider 0 upward.
    match res.step(ScrapeOutcome::Unsupported) {
        Action::Scrape { provider, category } => {
            assert_eq!(provider, 0);
            assert_eq!(category, Category::BuonaNotte);
        }
        _ => panic!("the sweep must start at provider 0"),
    }
    match res.step(ScrapeOutcome::Unsupported) {
        Action::Scrape { provider, category } => {
            assert_eq!(provider, 1);
            assert_eq!(category, Category::BuonaNotte);
        }
        _ => panic!("the sweep must continue with provider 1"),
    }
    match res.step(ScrapeOutcome::Unsupported) {
        Action::Scrape { provider, category } => {
            assert_eq!(provider, 2);
            assert_eq!(category, Category::BuonaNotte);
        }
        _ => panic!("the sweep must end with provider 2"),
    }
    // Requested category exhausted: the default category is swept next.
    match res.step(ScrapeOutcome::Unsupported) {
        Action::Scrape { provider, category } => {
            assert!(provider < 3);
            assert_eq!(category, Category::BuonGiorno);
        }
        _ => panic!("the default sweep must begin"),
    }
}

#[test]
fn empty_success_falls_back_like_unsupported() {
    let (mut res, _) = Resolution::start(2, Category::BuonaNotte, 1);
    match res.step(found(&[])) {
        Action::Scrape { provider, category } => {
            assert_eq!(provider, 0);
            assert_eq!(category, Category::BuonaNotte);
        }
        _ => panic!("an empty list is unusable and must trigger the sweep"),
    }
}

#[test]
fn fallback_reaches_supporting_provider() {
    // Provider 0 does not serve the category, provider 1 does: whichever is
    // tried first, the result comes from provider 1's list.
    for _ in 0..20 {
        let result = drive(2, Category::BuonaNotte, |provider, _| {
            if provider == 0 {
                ScrapeOutcome::Unsupported
            } else {
                found(&["https://example.com/b1.jpg", "https://example.com/b2.jpg"])
            }
        });
        let l = result.expect("the supporting provider must be found");
        assert!(
            l.url == "https://example.com/b1.jpg".to_string()
                || l.url == "https://example.com/b2.jpg".to_string()
        );
    }
}

#[test]
fn default_category_rescues_unsupported_category() {
    // Nobody serves the requested category, but provider 1 serves the
    // default one: the resolution ends on the default category's image.
    for _ in 0..20 {
        let result = drive(2, Category::BuonaNotte, |provider, category| {
            if category == Category::BuonGiorno && provider == 1 {
                found(&["https://example.com/default.jpg"])
            } else {
                ScrapeOutcome::Unsupported
            }
        });
        let l = result.expect("the default category must rescue the fetch");
        assert_eq!(l.url, "https://example.com/default.jpg".to_string());
    }
}

#[test]
fn exhaustion_reports_failure() {
    // No provider returns anything for any category: the resolution fails
    // and hands back no location at all.
    for _ in 0..10 {
        let result = drive(2, Category::BuonaNotte, |_, _| ScrapeOutcome::Unsupported);
        assert!(result.is_none());
    }
}

#[test]
fn resolution_terminates_within_rank() {
    // Two providers: one first try, a sweep of two, a default sweep of two.
    let client = Client::new(2);
    let (mut res, mut act) = client.resolve_image(Category::Compleanno);
    let mut steps: usize = 0;
    loop {
        match act {
            Action::Scrape { .. } => {
                steps += 1;
                assert!(steps <= 5, "the resolution must end within 2n + 1 scrapes");
                act = res.step(ScrapeOutcome::Failed);
            }
            Action::Finished { result } => {
                assert!(result.is_none());
                break;
            }
        }
    }
}
