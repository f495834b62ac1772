//! What the two request handlers decide.
//!
//! A handler first makes a [`Plan`]. A reply is answered at once with
//! [`html_page`](crate::page::html_page); a render is handed to the template
//! engine, and [`fetched_page`](crate::page::fetched_page) turns what the
//! engine gave into the answer.

use vstd::prelude::*;
use crate::page::{Plan, PlanView, RenderRequest, RenderRequestView};

verus! {

/// The name under which the environment knows the page template.
pub const PAGE_TEMPLATE: &'static str = "index.html";

/// The title of the home page.
pub const HOME_TITLE: &'static str = "Home";

/// The title of the page that answers a greeting asked for as a full page.
pub const GREET_TITLE: &'static str = "Greeting";

/// The markup that answers a greeting asked for as a fragment.
pub const GREET_FRAGMENT: &'static str = "<p>Hello from the server!</p>";

/// The request that renders the page template with `title`.
pub open spec fn page_request(title: Seq<char>) -> RenderRequestView {
    RenderRequestView { template: PAGE_TEMPLATE@, title }
}

/// The plan for the home page: render the page template with the home title.
pub open spec fn home_plan_of() -> PlanView {
    PlanView::Render(page_request(HOME_TITLE@))
}

/// The plan for a greeting: a fragment requester gets the fixed fragment,
/// anyone else the page template rendered with the greeting title.
pub open spec fn greet_plan_of(is_htmx: bool) -> PlanView {
    if is_htmx {
        PlanView::Reply(GREET_FRAGMENT@)
    } else {
        PlanView::Render(page_request(GREET_TITLE@))
    }
}

fn page_plan(title: &str) -> (plan: Plan)
    ensures
        plan@ == PlanView::Render(page_request(title@)),
{
    Plan::Render(
        RenderRequest { template: String::from_str(PAGE_TEMPLATE), title: String::from_str(title) },
    )
}

/// Decides what the home page needs.
pub fn home_plan() -> (plan: Plan)
    ensures
        plan@ == home_plan_of(),
{
    page_plan(HOME_TITLE)
}

/// Decides what a greeting needs, by whether the caller asked for a fragment.
pub fn greet_plan(is_htmx: bool) -> (plan: Plan)
    ensures
        plan@ == greet_plan_of(is_htmx),
{
    if is_htmx {
        Plan::Reply(String::from_str(GREET_FRAGMENT))
    } else {
        page_plan(GREET_TITLE)
    }
}

/// A greeting is rendered exactly when the caller did not ask for a fragment,
/// and then from the template of the home page; only the title differs.
pub proof fn greet_renders_home_template(is_htmx: bool)
    ensures
        greet_plan_of(is_htmx) is Render <==> !is_htmx,
        is_htmx ==> greet_plan_of(is_htmx) == PlanView::Reply(GREET_FRAGMENT@),
        !is_htmx ==> greet_plan_of(is_htmx)->Render_0.template
            == home_plan_of()->Render_0.template,
        !is_htmx ==> greet_plan_of(is_htmx)->Render_0.title != home_plan_of()->Render_0.title,
{
    reveal_strlit("Home");
    reveal_strlit("Greeting");
    assert(HOME_TITLE@.len() != GREET_TITLE@.len());
}

} // verus!
