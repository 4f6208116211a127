use vstd::prelude::*;
use crate::types::Service;

verus! {

/// Failures of calls to the control plane.
#[derive(Debug, Clone)]
pub enum DockerError {
    /// The control plane could not be reached, or the transfer failed.
    DockerAPIError(String),
    /// A response did not have the shape of the service model.
    ParsingError(String),
    /// The control plane refused an update (a stale version token among other causes);
    /// holds the text it answered with.
    ServiceUpdateError(String),
}

/// Builds a [`Docker`] client.
pub struct DockerBuilder {
    pub http_url: String,
}

impl Default for DockerBuilder {
    fn default() -> (r: Self)
        ensures
            r.http_url@ == "http://localhost:8080"@,
    {
        DockerBuilder::builder()
    }
}

impl DockerBuilder {
    /// A builder aimed at `http://localhost:8080`.
    pub fn builder() -> (r: Self)
        ensures
            r.http_url@ == "http://localhost:8080"@,
    {
        DockerBuilder { http_url: "http://localhost:8080".to_owned() }
    }

    pub fn with_http_url(self, http_url: &str) -> (r: Self)
        ensures
            r.http_url@ == http_url@,
    {
        let mut b = self;
        b.http_url = http_url.to_owned();
        b
    }

    pub fn build(self) -> (r: Docker)
        ensures
            r.http_url@ == self.http_url@,
    {
        Docker::new(self.http_url.as_str())
    }
}

/// Client of the control plane's service API at `http_url`.
pub struct Docker {
    pub http_url: String,
}

impl Docker {
    pub fn new(http_url: &str) -> (r: Self)
        ensures
            r.http_url@ == http_url@,
    {
        Docker { http_url: http_url.to_owned() }
    }

    /// Address of the service list, `{http_url}/services`.
    pub fn services_url(&self) -> (r: String)
        ensures
            r@ == self.http_url@ + "/services"@,
    {
        let mut url = self.http_url.clone();
        url.append("/services");
        url
    }

    /// The services of a list response, each given its address on this control plane;
    /// nothing else changes and the order is kept.
    pub fn with_service_urls(&self, services: Vec<Service>) -> (r: Vec<Service>)
        ensures
            r@.len() == services@.len(),
            forall|i: int|
                #![trigger r@[i]]
                0 <= i < r@.len() ==> r@[i] == (Service {
                    service_http_url: r@[i].service_http_url,
                    ..services@[i]
                }) && r@[i].service_http_url@ == self.http_url@ + "/services/"@ + services@[i].id@,
    {
        let mut rest = services;
        let mut r: Vec<Service> = Vec::new();
        let ghost n = services@.len();
        while rest.len() > 0
            invariant
                n == services@.len(),
                r@.len() + rest@.len() == n,
                rest@ == services@.subrange(r@.len() as int, n as int),
                forall|i: int|
                    #![trigger r@[i]]
                    0 <= i < r@.len() ==> r@[i] == (Service {
                        service_http_url: r@[i].service_http_url,
                        ..services@[i]
                    }) && r@[i].service_http_url@ == self.http_url@ + "/services/"@
                        + services@[i].id@,
            decreases rest@.len(),
        {
            let s = rest.remove(0);
            assert(s == services@[r@.len() as int]);
            r.push(s.with_service_http(self.http_url.as_str()));
            assert(rest@ =~= services@.subrange(r@.len() as int, n as int));
        }
        r
    }
}

/// What an update call comes to, from whether the control plane answered with a
/// success status and the text of its answer.
pub fn update_response(success: bool, body: String) -> (r: Result<String, DockerError>)
    ensures
        success ==> r is Ok && r->Ok_0@ == "Service updated"@,
        !success ==> r is Err && r->Err_0 == DockerError::ServiceUpdateError(body),
{
    if success {
        Ok("Service updated".to_owned())
    } else {
        Err(DockerError::ServiceUpdateError(body))
    }
}

} // verus!
