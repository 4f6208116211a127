use vstd::prelude::*;
use crate::docker::DockerError;
use crate::image::{image_reference, parse_image, reference, repository_of, tag_of};
use crate::text::starts_with;
use crate::types::{image_rewritten, update_url_of, Service, ServiceSpec, Timestamp};

verus! {

/// An update asked for: the repository to roll, the tag to roll it to, and optionally
/// the one service name to roll instead of matching by repository.
#[derive(Debug, Clone)]
pub struct UpdateServiceRequest {
    pub image: String,
    pub tag: String,
    pub service: Option<String>,
}

/// Whether `request` applies to `service`: by exact name when a name is given, else
/// when the service's image is `{image}:` followed by any tag.
pub open spec fn selects(request: UpdateServiceRequest, service: Service) -> bool {
    match request.service {
        Some(name) => service.spec.name@ == name@,
        None => (request.image@ + seq![':']).is_prefix_of(
            service.spec.task_template.container_spec.image@,
        ),
    }
}

/// The services that `request` applies to, in list order.
pub open spec fn selection(services: Seq<Service>, request: UpdateServiceRequest) -> Seq<Service> {
    services.filter(|s: Service| selects(request, s))
}

/// A service as it stood when it was listed: identity, version, times, name, and the
/// repository and tag of its image.
#[derive(Debug, Clone)]
pub struct ServiceResume {
    pub id: String,
    pub version: u64,
    pub created_at: Timestamp,
    pub updated_at: Timestamp,
    pub name: String,
    pub image: String,
    pub tag: String,
}

pub open spec fn resume_of(r: ServiceResume, s: Service) -> bool {
    &&& r.id@ == s.id@
    &&& r.version == s.version.index
    &&& r.created_at == s.created_at
    &&& r.updated_at == s.updated_at
    &&& r.name@ == s.spec.name@
    &&& r.image@ == repository_of(s.spec.task_template.container_spec.image@)
    &&& r.tag@ == tag_of(s.spec.task_template.container_spec.image@)
}

/// One update call: the service, the version token it carries, where it goes and the
/// complete spec it sends.
#[derive(Debug, Clone)]
pub struct UpdateCall {
    pub id: String,
    pub version: u64,
    pub url: String,
    pub spec: ServiceSpec,
}

/// An update call together with what is reported of the service it updates.
#[derive(Debug, Clone)]
pub struct PendingUpdate {
    pub call: UpdateCall,
    pub service: ServiceResume,
    /// The new image reference.
    pub image: String,
}

/// What became of one service's update.
#[derive(Debug)]
pub struct UpdateOutcome {
    pub service: ServiceResume,
    pub image: String,
    pub result: Result<String, DockerError>,
}

/// `p` updates the listed service `s` to the image reference `image`, with the version
/// token observed for `s`.
pub open spec fn pending_for(p: PendingUpdate, s: Service, image: Seq<char>) -> bool {
    &&& resume_of(p.service, s)
    &&& p.image@ == image
    &&& p.call.id@ == s.id@
    &&& p.call.version == s.version.index
    &&& p.call.url@ == update_url_of(s.service_http_url@, s.version.index)
    &&& image_rewritten(s.spec, p.call.spec, image)
}

impl ServiceResume {
    pub fn from_service(service: &Service) -> (r: ServiceResume)
        ensures
            resume_of(r, *service),
    {
        let (image, tag) = parse_image(service.spec.task_template.container_spec.image.as_str());
        ServiceResume {
            id: service.id.clone(),
            version: service.version.index,
            created_at: service.created_at,
            updated_at: service.updated_at,
            name: service.spec.name.clone(),
            image,
            tag,
        }
    }
}

impl Service {
    /// The update call that rolls this service onto `image:tag`, with what is reported
    /// of the service as listed.
    pub fn prepare_update(self, image: &str, tag: &str) -> (r: PendingUpdate)
        ensures
            pending_for(r, self, reference(image@, tag@)),
    {
        let service = ServiceResume::from_service(&self);
        let url = self.update_url();
        let new_image = image_reference(image, tag);
        let Service { id, version, spec, .. } = self;
        let spec = spec.with_image(new_image.as_str());
        PendingUpdate {
            call: UpdateCall { id, version: version.index, url, spec },
            service,
            image: new_image,
        }
    }
}

/// Whether `request` applies to `service`.
pub fn is_selected(request: &UpdateServiceRequest, service: &Service) -> (r: bool)
    ensures
        r == selects(*request, *service),
{
    match &request.service {
        Some(name) => service.spec.name == *name,
        None => {
            let mut filter = request.image.clone();
            filter.append(":");
            proof {
                reveal_strlit(":");
                assert(filter@ =~= request.image@ + seq![':']);
            }
            starts_with(service.spec.task_template.container_spec.image.as_str(), filter.as_str())
        },
    }
}

/// The update calls for one request over a freshly listed batch: one for each service
/// the request applies to, in list order, each with the version token of that listing.
pub fn plan_updates(request: &UpdateServiceRequest, services: Vec<Service>) -> (r: Vec<
    PendingUpdate,
>)
    ensures
        r@.len() == selection(services@, *request).len(),
        forall|k: int|
            0 <= k < r@.len() ==> pending_for(
                #[trigger] r@[k],
                selection(services@, *request)[k],
                reference(request.image@, request.tag@),
            ),
{
    let total: usize = services.len();
    let ghost n = services@.len();
    let ghost pred = |s: Service| selects(*request, s);
    let mut rest = services;
    let mut r: Vec<PendingUpdate> = Vec::new();
    let mut i: usize = 0;
    while rest.len() > 0
        invariant
            n == services@.len(),
            n == total,
            i + rest@.len() == n,
            rest@ == services@.subrange(i as int, n as int),
            pred == (|s: Service| selects(*request, s)),
            r@.len() == services@.subrange(0, i as int).filter(pred).len(),
            forall|k: int|
                0 <= k < r@.len() ==> pending_for(
                    #[trigger] r@[k],
                    services@.subrange(0, i as int).filter(pred)[k],
                    reference(request.image@, request.tag@),
                ),
        decreases rest@.len(),
    {
        let s = rest.remove(0);
        assert(s == services@[i as int]);
        let ghost before = services@.subrange(0, i as int);
        let ghost upto = services@.subrange(0, i as int + 1);
        assert(upto.drop_last() =~= before);
        assert(upto.last() == s);
        reveal(Seq::filter);
        if is_selected(request, &s) {
            let p = s.prepare_update(request.image.as_str(), request.tag.as_str());
            r.push(p);
            assert(upto.filter(pred) == before.filter(pred).push(s));
        } else {
            assert(upto.filter(pred) == before.filter(pred));
        }
        i = i + 1;
        assert(rest@ =~= services@.subrange(i as int, n as int));
    }
    assert(services@.subrange(0, i as int) =~= services@);
    r
}

/// The outcome of each update call, in the order of the calls: `results[k]` is what
/// the call of `pending[k]` came to, whatever became of the others.
pub fn collect_outcomes(pending: Vec<PendingUpdate>, results: Vec<Result<String, DockerError>>) -> (r:
    Vec<UpdateOutcome>)
    requires
        pending@.len() == results@.len(),
    ensures
        r@.len() == pending@.len(),
        forall|k: int|
            0 <= k < r@.len() ==> (#[trigger] r@[k]).service == pending@[k].service
                && r@[k].image == pending@[k].image && r@[k].result == results@[k],
{
    let ghost n = pending@.len();
    let mut ps = pending;
    let mut rs = results;
    let mut r: Vec<UpdateOutcome> = Vec::new();
    while ps.len() > 0
        invariant
            n == pending@.len(),
            n == results@.len(),
            r@.len() + ps@.len() == n,
            ps@.len() == rs@.len(),
            ps@ == pending@.subrange(r@.len() as int, n as int),
            rs@ == results@.subrange(r@.len() as int, n as int),
            forall|k: int|
                0 <= k < r@.len() ==> (#[trigger] r@[k]).service == pending@[k].service
                    && r@[k].image == pending@[k].image && r@[k].result == results@[k],
        decreases ps@.len(),
    {
        let p = ps.remove(0);
        let result = rs.remove(0);
        let PendingUpdate { call: _, service, image } = p;
        r.push(UpdateOutcome { service, image, result });
        assert(ps@ =~= pending@.subrange(r@.len() as int, n as int));
        assert(rs@ =~= results@.subrange(r@.len() as int, n as int));
    }
    r
}

} // verus!
