use vstd::prelude::*;

verus! {

/// HTTP status code of a successful response.
pub const STATUS_OK: u16 = 200;

/// The document served at the site root, fixed when the crate is built.
pub const INDEX_HTML: &'static str = "<!DOCTYPE html>\n<html lang=\"en\">\n<head>\n  <meta charset=\"utf-8\">\n  <title>Home</title>\n</head>\n<body>\n  <h1>Home</h1>\n  <p>Static files are listed under <a href=\"/static/\">/static/</a>.</p>\n</body>\n</html>\n";

/// The value of the `Content-Type` header that the web framework writes for HTML.
pub const HTML_UTF8: &'static str = "text/html; charset=utf-8";

/// A response as plain values: status code, `Content-Type` header and body.
pub struct Reply {
    pub status: u16,
    pub content_type: String,
    pub body: String,
}

pub struct ReplyView {
    pub status: u16,
    pub content_type: Seq<char>,
    pub body: Seq<char>,
}

impl View for Reply {
    type V = ReplyView;

    open spec fn view(&self) -> ReplyView {
        ReplyView { status: self.status, content_type: self.content_type@, body: self.body@ }
    }
}

/// Whether a `Content-Type` value names the HTML media type, with or without parameters.
pub open spec fn is_html_type(ct: Seq<char>) -> bool {
    ct.len() >= 9 && ct.subrange(0, 9) == "text/html"@
}

/// The response to every request for the site root.
pub open spec fn home_reply() -> ReplyView {
    ReplyView { status: STATUS_OK, content_type: HTML_UTF8@, body: INDEX_HTML@ }
}

/// Relies on actix_web's `ContentType::html()`, which holds `mime::TEXT_HTML_UTF_8`,
/// whose text is `text/html; charset=utf-8`.
#[verifier::external_body]
fn html_content_type() -> (r: String)
    ensures
        r@ == HTML_UTF8@,
{
    actix_web::http::header::ContentType::html().0.as_ref().to_string()
}

/// The response to a request for the site root: status 200, HTML, and the
/// embedded document. Nothing of the request is read, so every request for
/// the root gets the same response.
pub fn home() -> (r: Reply)
    ensures
        r@ == home_reply(),
        r.status == 200,
        is_html_type(r.content_type@),
        r.body@ == INDEX_HTML@,
{
    proof {
        reveal_strlit("text/html; charset=utf-8");
        reveal_strlit("text/html");
    }
    let r = Reply {
        status: STATUS_OK,
        content_type: html_content_type(),
        body: String::from_str(INDEX_HTML),
    };
    assert(r.content_type@.subrange(0, 9) =~= "text/html"@);
    r
}

/// Any two responses for the site root are the same, whatever requests they
/// answered: status 200, an HTML content type and byte-identical bodies.
pub proof fn lemma_home_reply_fixed(a: Reply, b: Reply)
    requires
        a@ == home_reply(),
        b@ == home_reply(),
    ensures
        a.status == 200,
        is_html_type(a.content_type@),
        a.status == b.status,
        a.content_type@ == b.content_type@,
        a.body@ == b.body@,
{
    reveal_strlit("text/html; charset=utf-8");
    reveal_strlit("text/html");
    assert(a.content_type@.subrange(0, 9) =~= "text/html"@);
}

} // verus!
