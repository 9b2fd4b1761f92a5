use vstd::prelude::*;
use vstd::string::*;

use crate::workspace::SelectionDomain;

verus! {

/// Translation key of the save indicator's tooltip.
pub fn save_hint_key(document_dirty: bool) -> (r: &'static str)
    ensures
        document_dirty ==> r@ == "status.unsaved_hint"@,
        !document_dirty ==> r@ == "status.saved_hint"@,
{
    if document_dirty {
        "status.unsaved_hint"
    } else {
        "status.saved_hint"
    }
}

/// The message of the status bar: the explicit status when there is one;
/// during an interaction, the tool feedback's delta (else the active tool's
/// id); otherwise `ready`.
pub fn status_text(status: &String, interacting: bool, feedback_delta: Option<String>, active_tool: &String, ready: String) -> (r: String)
    ensures
        status@.len() != 0 ==> r@ == status@,
        status@.len() == 0 && interacting && feedback_delta is Some ==> r@ == feedback_delta->0@,
        status@.len() == 0 && interacting && feedback_delta is None ==> r@ == active_tool@,
        status@.len() == 0 && !interacting ==> r@ == ready@,
{
    if !status.as_str().is_empty() {
        status.clone()
    } else if interacting {
        match feedback_delta {
            Some(delta) => delta,
            None => active_tool.clone(),
        }
    } else {
        ready
    }
}

/// Where the contextual hint of the status bar comes from.
#[derive(Debug, Clone, Copy, PartialEq, Eq, Structural)]
pub enum HintSource {
    /// The running tool's own feedback.
    Feedback,
    /// The generic hint of an interaction.
    Interacting,
    /// The hint of the active tool.
    Tool,
    /// The hint of the selection domain (a translation key).
    Domain(SelectionDomain),
}

/// The hint shown: tool feedback first, then the interaction hint, then the
/// active tool's hint, then the selection domain's.
pub fn hint_source(has_feedback: bool, interacting: bool, tool_has_hint: bool, domain: SelectionDomain) -> (r: HintSource)
    ensures
        r == (if has_feedback {
            HintSource::Feedback
        } else if interacting {
            HintSource::Interacting
        } else if tool_has_hint {
            HintSource::Tool
        } else {
            HintSource::Domain(domain)
        }),
{
    if has_feedback {
        HintSource::Feedback
    } else if interacting {
        HintSource::Interacting
    } else if tool_has_hint {
        HintSource::Tool
    } else {
        HintSource::Domain(domain)
    }
}

pub open spec fn spec_domain_hint_key(domain: SelectionDomain) -> Seq<char> {
    match domain {
        SelectionDomain::Object => "status.hint_object"@,
        SelectionDomain::Vertex => "status.hint_point"@,
        SelectionDomain::Edge => "status.hint_edge"@,
        SelectionDomain::Face => "status.hint_face"@,
    }
}

/// Translation key of the selection domain's hint.
pub fn domain_hint_key(domain: SelectionDomain) -> (r: &'static str)
    ensures
        r@ == spec_domain_hint_key(domain),
{
    match domain {
        SelectionDomain::Object => "status.hint_object",
        SelectionDomain::Vertex => "status.hint_point",
        SelectionDomain::Edge => "status.hint_edge",
        SelectionDomain::Face => "status.hint_face",
    }
}

} // verus!
