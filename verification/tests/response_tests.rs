use buongiorno_bot::cache::Category;
use buongiorno_bot::cache::ImageLocation;
use buongiorno_bot::cache::ImgDb;
use buongiorno_bot::response::command_category;
use buongiorno_bot::response::get_image;
use buongiorno_bot::response::happy_birthday;
use buongiorno_bot::response::retry_text;
use buongiorno_bot::response::Response;
use buongiorno_bot::response::ResponseTokens;

const RETRY: &str = "Riprova tra un attimo, che sto cercando ancora le miglior immagini";

#[test]
fn retry_text_is_the_fixed_message() {
    assert_eq!(retry_text(), RETRY.to_string());
}

#[test]
fn builders_append_in_order() {
    let r = Response::default()
        .file(ImageLocation::new("https://example.com/i.jpg".to_string()))
        .text("ciao".to_string());
    assert_eq!(r.tokens.len(), 2);
    match &r.tokens[0] {
        ResponseTokens::File(l) => assert_eq!(l.url, "https://example.com/i.jpg".to_string()),
        _ => panic!("the first token must be the file"),
    }
    match &r.tokens[1] {
        ResponseTokens::Text(t) => assert_eq!(t, "ciao"),
        _ => panic!("the second token must be the text"),
    }
}

#[test]
fn reply_with_cached_image() {
    let mut db = ImgDb::new();
    db.insert(
        Category::BuonPomeriggio,
        ImageLocation::new("https://example.com/p.jpg".to_string()),
    );
    let r = get_image(&db, Category::BuonPomeriggio);
    assert_eq!(r.tokens.len(), 1);
    match &r.tokens[0] {
        ResponseTokens::File(l) => assert_eq!(l.url, "https://example.com/p.jpg".to_string()),
        _ => panic!("a cached category must answer with its image"),
    }
}

#[test]
fn reply_without_entry_is_retry_text() {
    let db = ImgDb::new();
    let r = get_image(&db, Category::BuonGiorno);
    assert_eq!(r.tokens.len(), 1);
    match &r.tokens[0] {
        ResponseTokens::Text(t) => assert_eq!(t, RETRY),
        _ => panic!("a cold cache must answer with the retry text"),
    }
}

#[test]
fn happy_birthday_greets_the_named_user() {
    let mut db = ImgDb::new();
    db.insert(Category::Compleanno, ImageLocation::new("https://example.com/b.jpg".to_string()));
    let r = happy_birthday(&db, "<@42>".to_string());
    assert_eq!(r.tokens.len(), 2);
    match &r.tokens[0] {
        ResponseTokens::File(l) => assert_eq!(l.url, "https://example.com/b.jpg".to_string()),
        _ => panic!("the birthday image must come first"),
    }
    match &r.tokens[1] {
        ResponseTokens::Text(t) => assert_eq!(t, "Buon compleanno <@42>"),
        _ => panic!("the greeting text must follow the image"),
    }
}

#[test]
fn happy_birthday_without_image_still_greets() {
    let db = ImgDb::new();
    let r = happy_birthday(&db, "<@7>".to_string());
    assert_eq!(r.tokens.len(), 2);
    match &r.tokens[0] {
        ResponseTokens::Text(t) => assert_eq!(t, RETRY),
        _ => panic!("a cold cache must answer with the retry text"),
    }
    match &r.tokens[1] {
        ResponseTokens::Text(t) => assert_eq!(t, "Buon compleanno <@7>"),
        _ => panic!("the greeting text must follow"),
    }
}

#[test]
fn commands_map_to_their_categories() {
    assert_eq!(
        command_category(&"buongiornissimo".to_string()),
        Some(Category::BuonGiorno)
    );
    assert_eq!(command_category(&"auguri".to_string()), Some(Category::Compleanno));
    assert_eq!(command_category(&"buonanotte".to_string()), Some(Category::BuonaNotte));
    assert_eq!(
        command_category(&"buonpomeriggio".to_string()),
        Some(Category::BuonPomeriggio)
    );
    assert_eq!(command_category(&"sconosciuto".to_string()), None);
}
