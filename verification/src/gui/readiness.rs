//! Whether the bridge can start: with exactly the endpoints that were chosen, and no others.

use crate::devices::{EndpointDescriptor, EndpointDescriptorView};
use crate::gui::settings::{SavedEndpoint, SavedEndpointView};
use crate::text::{begins_with, starts_with};
use vstd::prelude::*;

verus! {

/// Whether the bridge can start.
#[derive(Debug, PartialEq, Eq)]
pub enum StartReadiness {
    Ready,
    /// Not yet; this can pass by itself.
    Waiting(String),
    /// Not like this; the user has to change something.
    Blocked(String),
}

/// Whether the bridge can start, with texts by characters.
pub enum ReadinessView {
    Ready,
    Waiting(Seq<char>),
    Blocked(Seq<char>),
}

impl View for StartReadiness {
    type V = ReadinessView;

    open spec fn view(&self) -> ReadinessView {
        match self {
            StartReadiness::Ready => ReadinessView::Ready,
            StartReadiness::Waiting(issue) => ReadinessView::Waiting(issue@),
            StartReadiness::Blocked(issue) => ReadinessView::Blocked(issue@),
        }
    }
}

/// The first endpoint of a list that has an identifier.
pub open spec fn find_endpoint(endpoints: Seq<EndpointDescriptorView>, id: Seq<char>) -> Option<
    EndpointDescriptorView,
>
    decreases endpoints.len(),
{
    if endpoints.len() == 0 {
        None
    } else if endpoints[0].id == id {
        Some(endpoints[0])
    } else {
        find_endpoint(endpoints.drop_first(), id)
    }
}

/// The position of the first endpoint of the list that has the identifier.
pub fn endpoint_position(endpoints: &[EndpointDescriptor], id: &String) -> (position: Option<usize>)
    ensures
        match position {
            Some(index) => index < endpoints@.len() && find_endpoint(endpoints.deep_view(), id@)
                == Some(endpoints@[index as int]@),
            None => find_endpoint(endpoints.deep_view(), id@) is None,
        },
{
    let ghost all = endpoints.deep_view();
    let mut index: usize = 0;
    assert(all.skip(0) =~= all);
    while index < endpoints.len()
        invariant
            index <= endpoints@.len(),
            all == endpoints.deep_view(),
            find_endpoint(all, id@) == find_endpoint(all.skip(index as int), id@),
        decreases endpoints@.len() - index,
    {
        assert(all.skip(index as int)[0] == endpoints@[index as int]@);
        if endpoints[index].id == *id {
            return Some(index);
        }
        assert(all.skip(index as int).drop_first() =~= all.skip(index + 1));
        index = index + 1;
    }
    None
}

/// Whether one choice is ready to be used.
pub open spec fn choice_readiness(
    label: Seq<char>,
    selected: Option<SavedEndpointView>,
    endpoints: Seq<EndpointDescriptorView>,
    require_compatible: bool,
) -> ReadinessView {
    match selected {
        None => ReadinessView::Blocked(label + " is not selected."@),
        Some(saved) => match find_endpoint(endpoints, saved.id) {
            None => ReadinessView::Waiting(
                label + " '"@ + saved.last_name + "' is not currently available."@,
            ),
            Some(endpoint) => if !require_compatible || endpoint.compatible {
                ReadinessView::Ready
            } else if begins_with(endpoint.format, "unavailable:"@) {
                ReadinessView::Waiting(
                    label + " '"@ + endpoint.name
                        + "' is present, but its audio format is not ready yet."@,
                )
            } else {
                ReadinessView::Blocked(
                    label + " '"@ + endpoint.name + "' is not compatible: "@ + endpoint.format
                        + ". This prototype requires 48 kHz f32; handoff render must be stereo."@,
                )
            },
        },
    }
}

/// Whether a choice is ready to be used. A missing endpoint may still come, and a format that is
/// unavailable may still become known; an endpoint that does not suit will not.
pub fn endpoint_readiness(
    label: &str,
    selected: Option<&SavedEndpoint>,
    endpoints: &[EndpointDescriptor],
    require_compatible: bool,
) -> (readiness: StartReadiness)
    ensures
        readiness@ == choice_readiness(
            label@,
            match selected {
                Some(saved) => Some(saved@),
                None => None,
            },
            endpoints.deep_view(),
            require_compatible,
        ),
{
    let mut issue = label.to_owned();
    let saved = match selected {
        Some(saved) => saved,
        None => {
            issue.append(" is not selected.");
            return StartReadiness::Blocked(issue);
        },
    };
    issue.append(" '");
    let index = match endpoint_position(endpoints, &saved.id) {
        Some(index) => index,
        None => {
            issue.append(saved.last_name.as_str());
            issue.append("' is not currently available.");
            return StartReadiness::Waiting(issue);
        },
    };
    let endpoint = &endpoints[index];
    if !require_compatible || endpoint.compatible {
        return StartReadiness::Ready;
    }
    issue.append(endpoint.name.as_str());
    if starts_with(endpoint.format.as_str(), "unavailable:") {
        issue.append("' is present, but its audio format is not ready yet.");
        return StartReadiness::Waiting(issue);
    }
    issue.append("' is not compatible: ");
    issue.append(endpoint.format.as_str());
    issue.append(". This prototype requires 48 kHz f32; handoff render must be stereo.");
    StartReadiness::Blocked(issue)
}

/// What is found has the identifier that was asked for, and is one of the list.
pub proof fn found_endpoint_is_the_one_asked_for(
    endpoints: Seq<EndpointDescriptorView>,
    id: Seq<char>,
)
    ensures
        find_endpoint(endpoints, id) matches Some(endpoint) ==> endpoint.id == id
            && endpoints.contains(endpoint),
        find_endpoint(endpoints, id) is None ==> forall|i: int|
            0 <= i < endpoints.len() ==> (#[trigger] endpoints[i]).id != id,
    decreases endpoints.len(),
{
    if endpoints.len() > 0 && endpoints[0].id != id {
        let rest = endpoints.drop_first();
        found_endpoint_is_the_one_asked_for(rest, id);
        if find_endpoint(rest, id) is Some {
            let endpoint = find_endpoint(rest, id)->0;
            let at = choose|at: int| 0 <= at < rest.len() && rest[at] == endpoint;
            assert(endpoints[at + 1] == endpoint);
        } else {
            assert forall|i: int| 0 <= i < endpoints.len() implies (#[trigger] endpoints[i]).id
                != id by {
                if i > 0 {
                    assert(rest[i - 1] == endpoints[i]);
                }
            }
        }
    } else if endpoints.len() > 0 {
        assert(endpoints.contains(endpoints[0]));
    }
}

/// A choice is ready only where its very endpoint is there and suits: no other ever stands in.
pub proof fn ready_means_the_exact_endpoint(
    label: Seq<char>,
    selected: Option<SavedEndpointView>,
    endpoints: Seq<EndpointDescriptorView>,
)
    requires
        choice_readiness(label, selected, endpoints, true) is Ready,
    ensures
        selected is Some,
        exists|i: int|
            0 <= i < endpoints.len() && (#[trigger] endpoints[i]).id == selected->0.id
                && endpoints[i].compatible,
{
    found_endpoint_is_the_one_asked_for(endpoints, selected->0.id);
    let endpoint = find_endpoint(endpoints, selected->0.id)->0;
    assert(endpoints.contains(endpoint));
}

/// Why a choice is not ready: without a choice, or with an endpoint that does not suit, the user has
/// to act; an endpoint that is not there, or whose format is not known yet, may still come. What
/// need not suit is ready as soon as it is there.
pub proof fn what_can_pass_by_itself_is_waited_for(
    label: Seq<char>,
    selected: Option<SavedEndpointView>,
    endpoints: Seq<EndpointDescriptorView>,
    require_compatible: bool,
)
    ensures
        ({
            let readiness = choice_readiness(label, selected, endpoints, require_compatible);
            &&& selected is None ==> readiness is Blocked
            &&& selected matches Some(saved) ==> {
                let missing = forall|i: int|
                    0 <= i < endpoints.len() ==> (#[trigger] endpoints[i]).id != saved.id;
                &&& missing ==> readiness == ReadinessView::Waiting(
                    label + " '"@ + saved.last_name + "' is not currently available."@,
                )
                &&& !missing && !require_compatible ==> readiness is Ready
                &&& !missing ==> exists|i: int|
                    {
                        &&& 0 <= i < endpoints.len()
                        &&& (#[trigger] endpoints[i]).id == saved.id
                        &&& endpoints[i].compatible ==> readiness is Ready
                        &&& require_compatible && !endpoints[i].compatible ==> if begins_with(
                            endpoints[i].format,
                            "unavailable:"@,
                        ) {
                            readiness is Waiting
                        } else {
                            readiness is Blocked
                        }
                    }
            }
        }),
{
    if selected is Some {
        let id = selected->0.id;
        found_endpoint_is_the_one_asked_for(endpoints, id);
        if find_endpoint(endpoints, id) is Some {
            let endpoint = find_endpoint(endpoints, id)->0;
            let i = choose|i: int| 0 <= i < endpoints.len() && endpoints[i] == endpoint;
            assert(endpoints[i].id == id);
        }
    }
}

/// Of several endpoints with one identifier the first is found.
pub proof fn the_first_endpoint_is_found(
    endpoints: Seq<EndpointDescriptorView>,
    id: Seq<char>,
    at: int,
)
    requires
        0 <= at < endpoints.len(),
        endpoints[at].id == id,
        forall|i: int| 0 <= i < at ==> (#[trigger] endpoints[i]).id != id,
    ensures
        find_endpoint(endpoints, id) == Some(endpoints[at]),
    decreases endpoints.len(),
{
    if at > 0 {
        let rest = endpoints.drop_first();
        assert(endpoints[0].id != id);
        assert forall|i: int| 0 <= i < at - 1 implies (#[trigger] rest[i]).id != id by {
            assert(rest[i] == endpoints[i + 1]);
        }
        the_first_endpoint_is_found(rest, id, at - 1);
    }
}

} // verus!
