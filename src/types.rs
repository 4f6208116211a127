use vstd::prelude::*;
use crate::labels::{replaced, StringMap};
use crate::text::{decimal, u64_to_decimal};

verus! {

/// The label that mirrors a service's image for tools that read labels.
pub const STACK_IMAGE_LABEL: &'static str = "com.docker.stack.image";

/// A point in time: seconds and nanoseconds since the Unix epoch, in UTC.
#[derive(Debug, Clone, Copy, PartialEq, Eq, Structural)]
pub struct Timestamp {
    pub seconds: i64,
    pub nanos: u32,
}

#[derive(Debug, Clone)]
pub struct ServiceContainerPrivileges {
    pub credential_spec: Option<StringMap>,
    pub selinux_context: Option<StringMap>,
}

#[derive(Debug, Clone)]
pub struct ServiceContainerMountVolumeOptionsDriverConfig {
    pub name: Option<String>,
    pub options: Option<StringMap>,
}

#[derive(Debug, Clone)]
pub struct ServiceContainerMountVolumeOptions {
    pub labels: Option<StringMap>,
    pub driver_config: Option<ServiceContainerMountVolumeOptionsDriverConfig>,
}

#[derive(Debug, Clone)]
pub struct ServiceContainerMount {
    pub mount_type: String,
    pub source: String,
    pub target: String,
    pub volume_options: Option<ServiceContainerMountVolumeOptions>,
}

#[derive(Debug, Clone)]
pub struct ServiceContainerSpecConfigFile {
    pub name: String,
    pub uid: String,
    pub gid: String,
    pub mode: u64,
}

#[derive(Debug, Clone)]
pub struct ServiceContainerSpecConfig {
    pub file: Option<ServiceContainerSpecConfigFile>,
    pub config_id: String,
    pub config_name: String,
}

#[derive(Debug, Clone)]
pub struct ServiceContainerSpecHealthCheck {
    pub test: Vec<String>,
    pub interval: Option<u64>,
    pub timeout: Option<u64>,
    pub retries: Option<u64>,
}

#[derive(Debug, Clone)]
pub struct ServiceContainerSpec {
    pub image: String,
    pub labels: Option<StringMap>,
    pub args: Option<Vec<String>>,
    pub env: Option<Vec<String>>,
    pub privileges: Option<ServiceContainerPrivileges>,
    pub mounts: Option<Vec<ServiceContainerMount>>,
    pub configs: Option<Vec<ServiceContainerSpecConfig>>,
    pub health_check: Option<ServiceContainerSpecHealthCheck>,
    pub isolation: Option<String>,
}

#[derive(Debug, Clone)]
pub struct ServiceTaskTemplatePlacement {
    pub constraints: Option<Vec<String>>,
    pub platforms: Option<Vec<StringMap>>,
}

#[derive(Debug, Clone)]
pub struct ServiceTaskTemplateNetworks {
    pub target: String,
    pub aliases: Option<Vec<String>>,
}

#[derive(Debug, Clone)]
pub struct ServiceTaskTemplateResources {
    pub limits: Option<StringMap>,
    pub reservations: Option<StringMap>,
}

#[derive(Debug, Clone)]
pub struct ServiceTaskTemplate {
    pub container_spec: ServiceContainerSpec,
    pub resources: Option<ServiceTaskTemplateResources>,
    pub placement: Option<ServiceTaskTemplatePlacement>,
    pub networks: Option<Vec<ServiceTaskTemplateNetworks>>,
    pub force_update: Option<u64>,
    pub runtime: Option<String>,
}

#[derive(Debug, Clone, Copy)]
pub struct ServiceSpecModeReplicated {
    pub replicas: u64,
}

#[derive(Debug, Clone, Copy)]
pub struct ServiceSpecModeGlobal {}

#[derive(Debug, Clone, Copy)]
pub struct ServiceSpecMode {
    pub replicated: Option<ServiceSpecModeReplicated>,
    pub global: Option<ServiceSpecModeGlobal>,
}

#[derive(Debug, Clone)]
pub struct ServiceEndpointSpecPortConfig {
    pub protocol: String,
    pub target_port: u64,
    pub published_port: Option<u64>,
    pub publish_mode: Option<String>,
}

#[derive(Debug, Clone)]
pub struct ServiceEndpointSpec {
    pub mode: String,
    pub ports: Option<Vec<ServiceEndpointSpecPortConfig>>,
}

#[derive(Debug, Clone)]
pub struct ServiceSpec {
    pub name: String,
    pub labels: Option<StringMap>,
    pub task_template: ServiceTaskTemplate,
    pub mode: Option<ServiceSpecMode>,
    pub endpoint_spec: Option<ServiceEndpointSpec>,
}

/// The control plane's version token of a service.
#[derive(Debug, Clone, Copy, PartialEq, Eq, Structural)]
pub struct ServiceVersion {
    pub index: u64,
}

#[derive(Debug, Clone)]
pub struct ServiceEndpointVirtualIP {
    pub network_id: String,
    pub addr: String,
}

#[derive(Debug, Clone)]
pub struct ServiceEndpoint {
    pub spec: ServiceEndpointSpec,
    pub virtual_ips: Option<Vec<ServiceEndpointVirtualIP>>,
    pub ports: Option<Vec<ServiceEndpointSpecPortConfig>>,
}

#[derive(Debug, Clone)]
pub struct ServiceUpdateStatus {
    pub state: String,
    pub started_at: Timestamp,
    pub completed_at: Timestamp,
    pub message: String,
}

#[derive(Debug, Clone)]
pub struct Service {
    pub id: String,
    pub version: ServiceVersion,
    pub created_at: Timestamp,
    pub updated_at: Timestamp,
    pub spec: ServiceSpec,
    pub previous_spec: Option<ServiceSpec>,
    pub endpoint: Option<ServiceEndpoint>,
    pub update_status: Option<ServiceUpdateStatus>,
    /// Address of this service on the control plane, `{base}/services/{id}`.
    pub service_http_url: String,
}

/// `after` is `before` with the container image set to `image`, the stack image label
/// (where `before` has it) set to the same reference, and every other field kept.
pub open spec fn image_rewritten(before: ServiceSpec, after: ServiceSpec, image: Seq<char>) -> bool {
    &&& after == (ServiceSpec {
        labels: after.labels,
        task_template: ServiceTaskTemplate {
            container_spec: ServiceContainerSpec {
                image: after.task_template.container_spec.image,
                ..before.task_template.container_spec
            },
            ..before.task_template
        },
        ..before
    })
    &&& after.task_template.container_spec.image@ == image
    &&& match before.labels {
        Some(l) => after.labels is Some && after.labels->0@ == replaced(
            l@,
            STACK_IMAGE_LABEL@,
            image,
        ),
        None => after.labels is None,
    }
}

/// The address that an update of a service at `service_url` with version `index` is sent to.
pub open spec fn update_url_of(service_url: Seq<char>, index: u64) -> Seq<char> {
    service_url + "/update?version="@ + decimal(index as nat)
}

impl ServiceSpec {
    /// A new spec equal to this one but for the image, and the stack image label where
    /// there is one, both set to `image`.
    pub fn with_image(self, image: &str) -> (r: ServiceSpec)
        ensures
            image_rewritten(self, r, image@),
    {
        let ServiceSpec { name, labels, task_template, mode, endpoint_spec } = self;
        let ServiceTaskTemplate {
            container_spec,
            resources,
            placement,
            networks,
            force_update,
            runtime,
        } = task_template;
        let ServiceContainerSpec {
            image: _,
            labels: container_labels,
            args,
            env,
            privileges,
            mounts,
            configs,
            health_check,
            isolation,
        } = container_spec;
        let labels = match labels {
            Some(mut l) => {
                l.set_existing(STACK_IMAGE_LABEL, image);
                Some(l)
            },
            None => None,
        };
        ServiceSpec {
            name,
            labels,
            task_template: ServiceTaskTemplate {
                container_spec: ServiceContainerSpec {
                    image: image.to_owned(),
                    labels: container_labels,
                    args,
                    env,
                    privileges,
                    mounts,
                    configs,
                    health_check,
                    isolation,
                },
                resources,
                placement,
                networks,
                force_update,
                runtime,
            },
            mode,
            endpoint_spec,
        }
    }
}

impl Service {
    /// This service with its control-plane address set to `{http_url}/services/{id}`.
    pub fn with_service_http(self, http_url: &str) -> (r: Service)
        ensures
            r == (Service { service_http_url: r.service_http_url, ..self }),
            r.service_http_url@ == http_url@ + "/services/"@ + self.id@,
    {
        let mut url = http_url.to_owned();
        url.append("/services/");
        url.append(self.id.as_str());
        let mut s = self;
        s.service_http_url = url;
        s
    }

    /// The address that an update of this service is sent to; it carries the version
    /// observed for the service.
    pub fn update_url(&self) -> (r: String)
        ensures
            r@ == update_url_of(self.service_http_url@, self.version.index),
    {
        let mut url = self.service_http_url.clone();
        url.append("/update?version=");
        let n = u64_to_decimal(self.version.index);
        url.append(n.as_str());
        url
    }
}

} // verus!
