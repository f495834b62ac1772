//! What a handler answers with, what it asks of the template engine, and
//! what becomes of the engine's outcome.

use vstd::prelude::*;

verus! {

/// The status of every answer that a handler gives.
pub const STATUS_OK: u16 = 200;

/// The one key of the context that a template is rendered with.
pub const TITLE_KEY: &'static str = "title";

/// An HTML answer: a status and the markup that is sent as the body.
#[derive(Debug, PartialEq, Eq)]
pub struct HtmlResponse {
    pub status: u16,
    pub body: String,
}

/// The mathematical value of an [`HtmlResponse`].
pub struct HtmlResponseView {
    pub status: u16,
    pub body: Seq<char>,
}

impl View for HtmlResponse {
    type V = HtmlResponseView;

    open spec fn view(&self) -> HtmlResponseView {
        HtmlResponseView { status: self.status, body: self.body@ }
    }
}

/// The successful answer that carries `body`.
pub open spec fn ok_page(body: Seq<char>) -> HtmlResponseView {
    HtmlResponseView { status: STATUS_OK, body }
}

/// Whatever its body, a successful answer has the status 200.
pub proof fn every_page_is_ok(body: Seq<char>)
    ensures
        ok_page(body).status == 200,
        ok_page(body).body == body,
{
}

/// A request to the template engine: the template to fetch, and the title
/// that it is rendered with.
#[derive(Debug, PartialEq, Eq)]
pub struct RenderRequest {
    pub template: String,
    pub title: String,
}

/// The mathematical value of a [`RenderRequest`].
pub struct RenderRequestView {
    pub template: Seq<char>,
    pub title: Seq<char>,
}

impl View for RenderRequest {
    type V = RenderRequestView;

    open spec fn view(&self) -> RenderRequestView {
        RenderRequestView { template: self.template@, title: self.title@ }
    }
}

impl RenderRequest {
    /// The context that the template is rendered with, as its one entry: the
    /// title under [`TITLE_KEY`].
    pub fn context_entry(&self) -> (entry: (&'static str, &str))
        ensures
            entry.0@ == TITLE_KEY@,
            entry.1@ == self.title@,
    {
        (TITLE_KEY, self.title.as_str())
    }
}

/// What a handler has decided to do for one request.
#[derive(Debug, PartialEq, Eq)]
pub enum Plan {
    /// Answer at once with this markup, without the template engine.
    Reply(String),
    /// Render a template and answer with what it gives.
    Render(RenderRequest),
}

/// The mathematical value of a [`Plan`].
pub enum PlanView {
    Reply(Seq<char>),
    Render(RenderRequestView),
}

impl View for Plan {
    type V = PlanView;

    open spec fn view(&self) -> PlanView {
        match self {
            Plan::Reply(markup) => PlanView::Reply(markup@),
            Plan::Render(request) => PlanView::Render(request@),
        }
    }
}

/// Why a page could not be produced. Each variant keeps the engine's own
/// error.
#[derive(Debug)]
pub enum PageError {
    /// The template could not be fetched: it is unknown to the environment,
    /// could not be read, or does not compile.
    Load(minijinja::Error),
    /// The template was fetched and failed while rendering.
    Render(minijinja::Error),
}

/// Wraps markup into a successful answer.
pub fn html_page(body: String) -> (page: HtmlResponse)
    ensures
        page@ == ok_page(body@),
        page.status == STATUS_OK,
{
    HtmlResponse { status: STATUS_OK, body }
}

/// Turns the outcome of rendering into the handler's answer: rendered markup
/// becomes a successful page with exactly that body, and a failure is passed
/// on as [`PageError::Render`] with the engine's error inside.
pub fn rendered_page(rendered: Result<String, minijinja::Error>) -> (answer: Result<
    HtmlResponse,
    PageError,
>)
    ensures
        match rendered {
            Ok(markup) => answer matches Ok(page) && page@ == ok_page(markup@),
            Err(cause) => answer matches Err(error) && error == PageError::Render(cause),
        },
        answer matches Ok(page) ==> page.status == STATUS_OK,
{
    match rendered {
        Ok(markup) => Ok(html_page(markup)),
        Err(cause) => Err(PageError::Render(cause)),
    }
}

/// Turns the engine's whole outcome for one request into the handler's
/// answer. The outer result says whether the template could be fetched, the
/// inner one whether it rendered. A page is given exactly when both went
/// well, and then with the rendered markup as its body; a template that
/// could not be fetched gives [`PageError::Load`], one that failed while
/// rendering [`PageError::Render`], each with the engine's error inside.
pub fn fetched_page(
    fetched: Result<Result<String, minijinja::Error>, minijinja::Error>,
) -> (answer: Result<HtmlResponse, PageError>)
    ensures
        match fetched {
            Ok(Ok(markup)) => answer matches Ok(page) && page@ == ok_page(markup@),
            Ok(Err(cause)) => answer matches Err(error) && error == PageError::Render(cause),
            Err(cause) => answer matches Err(error) && error == PageError::Load(cause),
        },
        answer is Ok <==> fetched matches Ok(Ok(_)),
        answer matches Ok(page) ==> page.status == STATUS_OK,
{
    match fetched {
        Ok(rendered) => rendered_page(rendered),
        Err(cause) => Err(PageError::Load(cause)),
    }
}

} // verus!
