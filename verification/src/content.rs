//! The compute side of the content handlers: request validation, the
//! field-merge rules of updates, and markdown rendering with
//! sanitization. Persistence of the results is the surrounding
//! program's concern.

use vstd::prelude::*;
use vstd::string::StringSliceAdditionalSpecFns;

verus! {

/// What rendering markdown to HTML yields; depends on the text alone.
pub uninterp spec fn spec_rendered_html(markdown: Seq<char>) -> Seq<char>;

/// What sanitizing HTML yields; depends on the text alone.
pub uninterp spec fn spec_sanitized(html: Seq<char>) -> Seq<char>;

/// Relies on `pulldown_cmark::Parser` and `html::push_html` (default
/// options): the rendered HTML depends on the markdown text alone.
#[verifier::external_body]
fn render_markdown(markdown: &str) -> (r: String)
    ensures
        r@ == spec_rendered_html(markdown@),
{
    let mut out = String::new();
    pulldown_cmark::html::push_html(&mut out, pulldown_cmark::Parser::new(markdown));
    out
}

/// Relies on `ammonia::clean` (default builder): the sanitized HTML
/// depends on the input text alone.
#[verifier::external_body]
fn sanitize_html(html: &str) -> (r: String)
    ensures
        r@ == spec_sanitized(html@),
{
    ammonia::clean(html)
}

/// Renders markdown and sanitizes the result: the only way article and
/// book bodies become HTML.
pub fn markdown_to_html(markdown: &str) -> (r: String)
    ensures
        r@ == spec_sanitized(spec_rendered_html(markdown@)),
{
    let rendered = render_markdown(markdown);
    sanitize_html(rendered.as_str())
}

/// A request to create an article.
#[derive(Debug)]
pub struct CreateArticleRequest {
    pub title: String,
    pub markdown: String,
    pub published: Option<bool>,
}

/// A request to update an article; absent fields keep their stored value.
#[derive(Debug)]
pub struct UpdateArticleRequest {
    pub title: Option<String>,
    pub markdown: Option<String>,
    pub published: Option<bool>,
}

/// A request to create a book.
#[derive(Debug)]
pub struct CreateBookRequest {
    pub title: String,
    pub slug: String,
    pub markdown: String,
    pub image_url: Option<String>,
    pub published: Option<bool>,
}

/// A request to update a book; absent fields keep their stored value.
#[derive(Debug)]
pub struct UpdateBookRequest {
    pub title: Option<String>,
    pub slug: Option<String>,
    pub markdown: Option<String>,
    pub image_url: Option<String>,
    pub published: Option<bool>,
}

/// Why submitted content was refused.
#[derive(Clone, Copy, Debug, PartialEq, Eq, Structural)]
pub enum ContentError {
    /// The title is empty or longer than the limit.
    InvalidTitle,
    /// The markdown body is empty.
    EmptyMarkdown,
}

impl ContentError {
    /// The client-facing message for this refusal.
    pub fn message(&self) -> (m: &'static str)
        ensures
            *self == ContentError::InvalidTitle ==> m@
                == "Title must be between 1 and 200 characters"@,
            *self == ContentError::EmptyMarkdown ==> m@ == "Markdown must not be empty"@,
    {
        match *self {
            ContentError::InvalidTitle => "Title must be between 1 and 200 characters",
            ContentError::EmptyMarkdown => "Markdown must not be empty",
        }
    }
}

/// A valid title: between one and two hundred bytes.
pub open spec fn spec_valid_title(title: Seq<u8>) -> bool {
    1 <= title.len() <= 200
}

/// A valid markdown body: not empty.
pub open spec fn spec_valid_markdown(markdown: Seq<u8>) -> bool {
    markdown.len() >= 1
}

/// Validates the fields of a creation request: the title bound is
/// checked first, then the body.
pub fn validate_new_article(title: &str, markdown: &str) -> (r: Result<(), ContentError>)
    ensures
        r is Ok <==> spec_valid_title(title.spec_bytes()) && spec_valid_markdown(
            markdown.spec_bytes(),
        ),
        !spec_valid_title(title.spec_bytes()) ==> r == Err::<(), ContentError>(
            ContentError::InvalidTitle,
        ),
        spec_valid_title(title.spec_bytes()) && !spec_valid_markdown(markdown.spec_bytes()) ==> r
            == Err::<(), ContentError>(ContentError::EmptyMarkdown),
{
    let n = title.as_bytes().len();
    if n == 0 || n > 200 {
        return Err(ContentError::InvalidTitle);
    }
    if markdown.as_bytes().len() == 0 {
        return Err(ContentError::EmptyMarkdown);
    }
    Ok(())
}

/// Validates the fields of an update request: only the fields that are
/// present are checked, the title first.
pub fn validate_article_update(title: Option<&str>, markdown: Option<&str>) -> (r: Result<
    (),
    ContentError,
>)
    ensures
        r is Ok <==> (title matches Some(t) ==> spec_valid_title(t.spec_bytes())) && (
        markdown matches Some(m) ==> spec_valid_markdown(m.spec_bytes())),
        title matches Some(t) && !spec_valid_title(t.spec_bytes()) ==> r == Err::<
            (),
            ContentError,
        >(ContentError::InvalidTitle),
        (title matches Some(t) ==> spec_valid_title(t.spec_bytes())) && (markdown matches Some(m)
            && !spec_valid_markdown(m.spec_bytes())) ==> r == Err::<(), ContentError>(
            ContentError::EmptyMarkdown,
        ),
{
    if let Some(t) = title {
        let n = t.as_bytes().len();
        if n == 0 || n > 200 {
            return Err(ContentError::InvalidTitle);
        }
    }
    if let Some(m) = markdown {
        if m.as_bytes().len() == 0 {
            return Err(ContentError::EmptyMarkdown);
        }
    }
    Ok(())
}

/// An article's stored content fields.
#[derive(Debug)]
pub struct ArticleContent {
    pub title: String,
    pub markdown: String,
    pub html: String,
    pub published: bool,
}

/// A book's stored content fields.
#[derive(Debug)]
pub struct BookContent {
    pub title: String,
    pub slug: String,
    pub markdown: String,
    pub html: String,
    pub image_url: Option<String>,
    pub published: bool,
}

/// Builds the stored content of a new article: the HTML is rendered and
/// sanitized from the markdown, and an absent published flag means
/// unpublished.
pub fn build_article_content(title: String, markdown: String, published: Option<bool>) -> (r:
    ArticleContent)
    ensures
        r.title@ == title@,
        r.markdown@ == markdown@,
        r.html@ == spec_sanitized(spec_rendered_html(markdown@)),
        r.published == match published {
            Some(b) => b,
            None => false,
        },
{
    let html = markdown_to_html(markdown.as_str());
    let published_flag = match published {
        Some(b) => b,
        None => false,
    };
    ArticleContent { title, markdown, html, published: published_flag }
}

/// Builds the stored content of a new book, as [`build_article_content`]
/// does for articles.
pub fn build_book_content(
    title: String,
    slug: String,
    markdown: String,
    image_url: Option<String>,
    published: Option<bool>,
) -> (r: BookContent)
    ensures
        r.title@ == title@,
        r.slug@ == slug@,
        r.markdown@ == markdown@,
        r.html@ == spec_sanitized(spec_rendered_html(markdown@)),
        r.image_url == image_url,
        r.published == match published {
            Some(b) => b,
            None => false,
        },
{
    let html = markdown_to_html(markdown.as_str());
    let published_flag = match published {
        Some(b) => b,
        None => false,
    };
    BookContent { title, slug, markdown, html, image_url, published: published_flag }
}

/// Applies an update to an article's content: absent fields keep their
/// stored value, and the HTML is re-rendered exactly when new markdown
/// arrives.
pub fn apply_article_update(
    current: ArticleContent,
    title: Option<String>,
    markdown: Option<String>,
    published: Option<bool>,
) -> (r: ArticleContent)
    ensures
        r.title@ == match title {
            Some(t) => t@,
            None => current.title@,
        },
        r.markdown@ == match markdown {
            Some(m) => m@,
            None => current.markdown@,
        },
        r.html@ == match markdown {
            Some(m) => spec_sanitized(spec_rendered_html(m@)),
            None => current.html@,
        },
        r.published == match published {
            Some(b) => b,
            None => current.published,
        },
{
    let new_title = match title {
        Some(t) => t,
        None => current.title,
    };
    let (new_markdown, new_html) = match markdown {
        Some(m) => {
            let h = markdown_to_html(m.as_str());
            (m, h)
        },
        None => (current.markdown, current.html),
    };
    let new_published = match published {
        Some(b) => b,
        None => current.published,
    };
    ArticleContent {
        title: new_title,
        markdown: new_markdown,
        html: new_html,
        published: new_published,
    }
}

/// Applies an update to a book's content: absent fields keep their
/// stored value, the HTML is re-rendered exactly when new markdown
/// arrives, and a new image URL replaces the stored one only when given.
pub fn apply_book_update(
    current: BookContent,
    title: Option<String>,
    slug: Option<String>,
    markdown: Option<String>,
    image_url: Option<String>,
    published: Option<bool>,
) -> (r: BookContent)
    ensures
        r.title@ == match title {
            Some(t) => t@,
            None => current.title@,
        },
        r.slug@ == match slug {
            Some(s) => s@,
            None => current.slug@,
        },
        r.markdown@ == match markdown {
            Some(m) => m@,
            None => current.markdown@,
        },
        r.html@ == match markdown {
            Some(m) => spec_sanitized(spec_rendered_html(m@)),
            None => current.html@,
        },
        r.image_url == match image_url {
            Some(u) => Some(u),
            None => current.image_url,
        },
        r.published == match published {
            Some(b) => b,
            None => current.published,
        },
{
    let new_title = match title {
        Some(t) => t,
        None => current.title,
    };
    let new_slug = match slug {
        Some(s) => s,
        None => current.slug,
    };
    let (new_markdown, new_html) = match markdown {
        Some(m) => {
            let h = markdown_to_html(m.as_str());
            (m, h)
        },
        None => (current.markdown, current.html),
    };
    let new_image_url = match image_url {
        Some(u) => Some(u),
        None => current.image_url,
    };
    let new_published = match published {
        Some(b) => b,
        None => current.published,
    };
    BookContent {
        title: new_title,
        slug: new_slug,
        markdown: new_markdown,
        html: new_html,
        image_url: new_image_url,
        published: new_published,
    }
}

} // verus!
