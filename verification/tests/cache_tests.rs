use buongiorno_bot::cache::Category;
use buongiorno_bot::cache::ImageLocation;
use buongiorno_bot::cache::ImgDb;

fn loc(s: &str) -> ImageLocation {
    ImageLocation::new(s.to_string())
}

#[test]
fn new_cache_is_empty() {
    let db = ImgDb::new();
    assert!(db.get(Category::BuonGiorno).is_none());
    assert!(db.get(Category::BuonPomeriggio).is_none());
    assert!(db.get(Category::BuonaNotte).is_none());
    assert!(db.get(Category::Compleanno).is_none());
}

#[test]
fn insert_then_get_returns_entry() {
    let mut db = ImgDb::new();
    db.insert(Category::BuonGiorno, loc("https://example.com/a.jpg"));
    let got = db.get(Category::BuonGiorno).expect("entry must be present");
    assert_eq!(got.url, "https://example.com/a.jpg".to_string());
}

#[test]
fn get_is_idempotent() {
    let mut db = ImgDb::new();
    db.insert(Category::BuonaNotte, loc("https://example.com/n.jpg"));
    let first = db.get(Category::BuonaNotte).expect("present").url.clone();
    let second = db.get(Category::BuonaNotte).expect("present").url.clone();
    assert_eq!(first, second);
}

#[test]
fn last_write_wins() {
    let mut db = ImgDb::new();
    db.insert(Category::Compleanno, loc("https://example.com/1.jpg"));
    assert_eq!(
        db.get(Category::Compleanno).expect("present").url,
        "https://example.com/1.jpg".to_string()
    );
    db.insert(Category::Compleanno, loc("https://example.com/2.jpg"));
    assert_eq!(
        db.get(Category::Compleanno).expect("present").url,
        "https://example.com/2.jpg".to_string()
    );
}

#[test]
fn insert_leaves_other_categories_alone() {
    let mut db = ImgDb::new();
    db.insert(Category::BuonGiorno, loc("https://example.com/g.jpg"));
    db.insert(Category::BuonPomeriggio, loc("https://example.com/p.jpg"));
    assert_eq!(
        db.get(Category::BuonGiorno).expect("present").url,
        "https://example.com/g.jpg".to_string()
    );
    assert!(db.get(Category::BuonaNotte).is_none());
    assert!(db.get(Category::Compleanno).is_none());
}

#[test]
fn duplicate_is_equal() {
    let l = loc("https://example.com/x.jpg");
    let d = l.duplicate();
    assert_eq!(l.url, d.url);
}
