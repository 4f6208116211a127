use vstd::prelude::*;
use crate::image::reference;
use crate::types::Service;
use crate::update::{selection, selects, UpdateServiceRequest};

verus! {

/// Without a service name, a request selects every service whose image is the
/// requested repository under any tag whatever.
pub proof fn lemma_any_tag_is_selected(
    request: UpdateServiceRequest,
    service: Service,
    tag: Seq<char>,
)
    requires
        request.service is None,
        service.spec.task_template.container_spec.image@ == reference(request.image@, tag),
    ensures
        selects(request, service),
{
    let p = request.image@ + seq![':'];
    let image = service.spec.task_template.container_spec.image@;
    assert(p =~= image.subrange(0, p.len() as int));
}

/// Matching by repository stops at the `:` boundary: an image that goes on from the
/// requested repository with any character but `:` is never selected.
pub proof fn lemma_prefix_respects_separator(request: UpdateServiceRequest, service: Service)
    requires
        request.service is None,
        service.spec.task_template.container_spec.image@.len() > request.image@.len(),
        service.spec.task_template.container_spec.image@[request.image@.len() as int] != ':',
    ensures
        !selects(request, service),
{
    let p = request.image@ + seq![':'];
    let image = service.spec.task_template.container_spec.image@;
    if p.is_prefix_of(image) {
        assert(image.subrange(0, p.len() as int)[request.image@.len() as int] == p[request.image@.len() as int]);
    }
}

/// With a service name, selection goes by that name alone: two services of the same
/// name are both selected or both left, whatever their images, and they are selected
/// exactly when the name is the requested one.
pub proof fn lemma_name_overrides_image(request: UpdateServiceRequest, a: Service, b: Service)
    requires
        request.service is Some,
        a.spec.name@ == b.spec.name@,
    ensures
        selects(request, a) == selects(request, b),
        selects(request, a) == (a.spec.name@ == request.service->0@),
{
}

/// A request that applies to no listed service leads to no update call at all: the
/// selection is empty, which is a result and not an error.
pub proof fn lemma_no_match_selects_nothing(services: Seq<Service>, request: UpdateServiceRequest)
    requires
        forall|i: int| 0 <= i < services.len() ==> !selects(request, #[trigger] services[i]),
    ensures
        selection(services, request).len() == 0,
    decreases services.len(),
{
    reveal(Seq::filter);
    if services.len() > 0 {
        let rest = services.drop_last();
        assert forall|i: int| 0 <= i < rest.len() implies !selects(request, #[trigger] rest[i]) by {
            assert(rest[i] == services[i]);
        }
        lemma_no_match_selects_nothing(rest, request);
        assert(!selects(request, services[services.len() - 1]));
    }
}

} // verus!
