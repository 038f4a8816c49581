//! Command replies: given a cache and a requested category, build the reply
//! the presentation layer renders — the cached image, or the fixed retry
//! text when nothing is cached yet.

use vstd::prelude::*;

use crate::cache::Category;
use crate::cache::ImageLocation;
use crate::cache::ImgDb;

verus! {

/// One piece of a reply: an image attachment or plain text.
#[derive(Debug)]
pub enum ResponseTokens {
    File(ImageLocation),
    Text(String),
}

/// A reply to a user command, assembled token by token.
#[derive(Debug)]
pub struct Response {
    pub tokens: Vec<ResponseTokens>,
}

impl Default for Response {
    /// An empty reply, to be filled by `file` and `text`.
    fn default() -> (r: Response)
        ensures
            r.tokens@ == Seq::<ResponseTokens>::empty(),
    {
        Response { tokens: Vec::new() }
    }
}

impl Response {
    /// Append an image token.
    pub fn file(self, url: ImageLocation) -> (r: Response)
        ensures
            r.tokens@ == self.tokens@.push(ResponseTokens::File(url)),
    {
        let mut this = self;
        this.tokens.push(ResponseTokens::File(url));
        this
    }

    /// Append a text token.
    pub fn text(self, text: String) -> (r: Response)
        ensures
            r.tokens@ == self.tokens@.push(ResponseTokens::Text(text)),
    {
        let mut this = self;
        this.tokens.push(ResponseTokens::Text(text));
        this
    }
}

/// The fixed text rendered when a requested category has no cached entry
/// yet: ask the user to retry shortly.
pub open spec fn spec_retry_text() -> Seq<char> {
    "Riprova tra un attimo, che sto cercando ancora le miglior immagini"@
}

/// The retry text as an owned string.
pub fn retry_text() -> (s: String)
    ensures
        s@ == spec_retry_text(),
{
    String::from_str("Riprova tra un attimo, che sto cercando ancora le miglior immagini")
}

/// The reply for one category: exactly one token — the cached image if one
/// is present, otherwise the fixed retry text. A missing entry is a normal
/// state, never an error.
pub fn get_image(db: &ImgDb, greeting: Category) -> (r: Response)
    ensures
        db.spec_get(greeting) matches Some(l) ==> r.tokens@ == seq![ResponseTokens::File(l)],
        db.spec_get(greeting) is None ==> r.tokens@.len() == 1 && (r.tokens@[0] matches
        ResponseTokens::Text(t)
            && t@ == spec_retry_text()),
{
    match db.get(greeting) {
        Some(url) => {
            let r = Response::default().file(url.duplicate());
            proof {
                assert(r.tokens@ =~= seq![
                    ResponseTokens::File(db.spec_get(greeting)->0),
                ]);
            }
            r
        },
        None => Response::default().text(retry_text()),
    }
}

/// The birthday reply: the birthday category's reply, followed by a text
/// token greeting the named user. The name only decorates the text; it
/// never affects which cache entry is read.
pub fn happy_birthday(db: &ImgDb, mention: String) -> (r: Response)
    ensures
        r.tokens@.len() == 2,
        db.spec_get(Category::Compleanno) matches Some(l) ==> r.tokens@[0]
            == ResponseTokens::File(l),
        db.spec_get(Category::Compleanno) is None ==> (r.tokens@[0] matches ResponseTokens::Text(t)
            && t@ == spec_retry_text()),
        r.tokens@[1] matches ResponseTokens::Text(t) && t@ == "Buon compleanno "@ + mention@,
{
    let mut greeting_text = String::from_str("Buon compleanno ");
    greeting_text.append(mention.as_str());
    get_image(db, Category::Compleanno).text(greeting_text)
}

/// Which category a named chat command reads. Unknown commands map to
/// nothing and are the caller's problem to report.
pub fn command_category(name: &String) -> (r: Option<Category>)
    ensures
        name@ == "buongiornissimo"@ ==> r == Some(Category::BuonGiorno),
        name@ == "auguri"@ ==> r == Some(Category::Compleanno),
        name@ == "buonanotte"@ ==> r == Some(Category::BuonaNotte),
        name@ == "buonpomeriggio"@ ==> r == Some(Category::BuonPomeriggio),
        name@ != "buongiornissimo"@ && name@ != "auguri"@ && name@ != "buonanotte"@ && name@
            != "buonpomeriggio"@ ==> r is None,
{
    proof {
        reveal_strlit("buongiornissimo");
        reveal_strlit("auguri");
        reveal_strlit("buonanotte");
        reveal_strlit("buonpomeriggio");
        assert("buongiornissimo"@.len() == 15);
        assert("auguri"@.len() == 6);
        assert("buonanotte"@.len() == 10);
        assert("buonpomeriggio"@.len() == 14);
    }
    if name.eq(&String::from_str("buongiornissimo")) {
        Some(Category::BuonGiorno)
    } else if name.eq(&String::from_str("auguri")) {
        Some(Category::Compleanno)
    } else if name.eq(&String::from_str("buonanotte")) {
        Some(Category::BuonaNotte)
    } else if name.eq(&String::from_str("buonpomeriggio")) {
        Some(Category::BuonPomeriggio)
    } else {
        None
    }
}

} // verus!
