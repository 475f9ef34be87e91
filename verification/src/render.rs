//! Pure render rules: which of the four views a renderer must show for a
//! given coordinator state, the image reference derived from a joke's
//! identifier, and whether the reload control is enabled.

use vstd::prelude::*;
use vstd::string::StringExecFns;
use crate::coordinator::{CoordinatorState, CoordinatorStateModel, FetchOutcomeModel};

verus! {

/// What the renderer must put on screen, decided from the coordinator
/// state alone: a loading indicator while a fetch is in flight; otherwise
/// the joke with its derived image reference, or the failure message, or a
/// neutral prompt when nothing has completed yet.
#[derive(Clone, Debug, PartialEq, Eq)]
pub enum RenderPlan {
    Loading,
    Joke { image_url: String, text: String },
    Error { message: String },
    Prompt,
}

/// Mathematical image of a `RenderPlan`.
pub enum RenderPlanModel {
    Loading,
    Joke { image_url: Seq<char>, text: Seq<char> },
    Error { message: Seq<char> },
    Prompt,
}

impl View for RenderPlan {
    type V = RenderPlanModel;

    open spec fn view(&self) -> RenderPlanModel {
        match self {
            RenderPlan::Loading => RenderPlanModel::Loading,
            RenderPlan::Joke { image_url, text } => RenderPlanModel::Joke {
                image_url: image_url@,
                text: text@,
            },
            RenderPlan::Error { message } => RenderPlanModel::Error { message: message@ },
            RenderPlan::Prompt => RenderPlanModel::Prompt,
        }
    }
}

/// The image reference derived from a joke identifier: the source's image
/// endpoint with the identifier spliced in.
pub open spec fn image_url_of(id: Seq<char>) -> Seq<char> {
    "https://icanhazdadjoke.com/j/"@ + id + ".png"@
}

/// The view owed for a state: the loading indicator wins while a fetch is
/// in flight; otherwise the stored outcome decides, and with none stored
/// the neutral prompt is shown.
pub open spec fn plan_of(s: CoordinatorStateModel) -> RenderPlanModel {
    if s.loading {
        RenderPlanModel::Loading
    } else {
        match s.last_outcome {
            Some(FetchOutcomeModel::Success(j)) => RenderPlanModel::Joke {
                image_url: image_url_of(j.id),
                text: j.text,
            },
            Some(FetchOutcomeModel::Failure(m)) => RenderPlanModel::Error { message: m },
            None => RenderPlanModel::Prompt,
        }
    }
}

/// Builds the image reference for a joke identifier.
pub fn image_url_for(id: &str) -> (r: String)
    ensures
        r@ == image_url_of(id@),
{
    let mut url = "https://icanhazdadjoke.com/j/".to_string();
    url.append(id);
    url.append(".png");
    url
}

/// Decides the view for a state snapshot.
pub fn plan_render(s: &CoordinatorState) -> (p: RenderPlan)
    ensures
        p@ == plan_of(s@),
{
    if s.loading {
        RenderPlan::Loading
    } else {
        match &s.last_outcome {
            Some(crate::coordinator::FetchOutcome::Success(j)) => RenderPlan::Joke {
                image_url: image_url_for(j.id.as_str()),
                text: j.text.clone(),
            },
            Some(crate::coordinator::FetchOutcome::Failure(m)) => RenderPlan::Error {
                message: m.clone(),
            },
            None => RenderPlan::Prompt,
        }
    }
}

/// The reload control is enabled exactly when no fetch is in flight.
pub fn reload_enabled(s: &CoordinatorState) -> (b: bool)
    ensures
        b == !s@.loading,
{
    !s.loading
}

} // verus!
