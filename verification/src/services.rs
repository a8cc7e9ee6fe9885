//! Services: the second level of the hierarchy, listed within one cluster.

use vstd::prelude::*;
use crate::choice::{
    answering, first_answer, first_where, lemma_first_where_carries_over, lemma_first_where_none,
    Choice, Sought,
};
use crate::errors::{DiscoveryError, ErrorModel};
use crate::listing::{
    is_stable_sort_of, key_of, lemma_stable_sort_carries_over, sort_by_key, Listed,
};
use crate::names::{final_segment, short_name};
use crate::text::same_text;

verus! {

/// A service of a cluster.
#[derive(Debug)]
pub struct ServiceInfo {
    /// The full identifier of the service.
    pub arn: String,
    /// The name under which the service is listed and asked for.
    pub service_name: String,
}

/// What a `ServiceInfo` holds, as text.
pub struct ServiceModel {
    pub arn: Seq<char>,
    pub service_name: Seq<char>,
}

impl View for ServiceInfo {
    type V = ServiceModel;

    open spec fn view(&self) -> ServiceModel {
        ServiceModel { arn: self.arn@, service_name: self.service_name@ }
    }
}

impl DeepView for ServiceInfo {
    type V = ServiceModel;

    open spec fn deep_view(&self) -> ServiceModel {
        self@
    }
}

/// The service with identifier `arn`: its name is the final segment of the
/// identifier.
pub open spec fn service_of(arn: Seq<char>) -> ServiceModel {
    ServiceModel { arn, service_name: final_segment(arn) }
}

/// `service_of`, as a function.
pub open spec fn to_service() -> spec_fn(Seq<char>) -> ServiceModel {
    |arn: Seq<char>| service_of(arn)
}

/// The name of a service, as a function.
pub open spec fn service_name_of() -> spec_fn(ServiceModel) -> Seq<char> {
    |service: ServiceModel| service.service_name
}

impl Clone for ServiceInfo {
    fn clone(&self) -> (copy: Self)
        ensures
            copy@ == self@,
    {
        ServiceInfo { arn: self.arn.clone(), service_name: self.service_name.clone() }
    }
}

impl Listed for ServiceInfo {
    /// Services are listed in the order of their names.
    open spec fn listing_key(&self) -> Seq<char> {
        self.service_name@
    }

    fn key(&self) -> (key: &str) {
        self.service_name.as_str()
    }
}

impl Choice for ServiceInfo {
    /// A service is offered under its name.
    open spec fn label_text(&self) -> Seq<char> {
        self.service_name@
    }

    fn label(&self) -> (label: String) {
        self.service_name.clone()
    }
}

impl Sought for ServiceInfo {
    /// A service answers to its name alone, letter for letter.
    open spec fn answers_to(&self, wanted: Seq<char>) -> bool {
        self.service_name@ == wanted
    }

    fn answers(&self, wanted: &str) -> (yes: bool) {
        same_text(self.service_name.as_str(), wanted)
    }
}

impl ServiceInfo {
    /// The service with identifier `arn`.
    pub fn from_arn(arn: String) -> (service: ServiceInfo)
        ensures
            service@ == service_of(arn@),
    {
        let service_name = short_name(arn.as_str());
        ServiceInfo { arn, service_name }
    }
}

/// The services that the identifiers `arns` name, sorted by name; services
/// of one name stay in the order of their identifiers in `arns`.
pub fn services_from_arns(arns: Vec<String>) -> (services: Vec<ServiceInfo>)
    ensures
        is_stable_sort_of(
            services.deep_view(),
            arns.deep_view().map_values(to_service()),
            service_name_of(),
        ),
{
    let mut unsorted: Vec<ServiceInfo> = Vec::new();
    let ghost all = arns@;
    for arn in iter: arns
        invariant
            iter.seq() == all,
            unsorted@.len() == iter.index(),
            forall|i: int| 0 <= i < unsorted@.len() ==> (#[trigger] unsorted@[i])@ == service_of(all[i]@),
    {
        unsorted.push(ServiceInfo::from_arn(arn));
    }
    let ghost listed = unsorted@;
    let services = sort_by_key(unsorted);
    proof {
        let stand_for = |service: ServiceInfo| service@;
        lemma_stable_sort_carries_over(
            services@,
            listed,
            key_of::<ServiceInfo>(),
            stand_for,
            service_name_of(),
        );
        assert(services@.map_values(stand_for) == services.deep_view());
        assert(listed.map_values(stand_for) == arns.deep_view().map_values(to_service()));
    }
    services
}

/// Whether a service has the name `name`, as a function.
pub open spec fn named(name: Seq<char>) -> spec_fn(ServiceModel) -> bool {
    |service: ServiceModel| service.service_name == name
}

/// The service that `name` asks for: the one of that very name, and the
/// first of them where several have it. Where none has it, the error names
/// `name`.
pub fn resolve_service(services: &Vec<ServiceInfo>, name: &str) -> (resolved: Result<
    ServiceInfo,
    DiscoveryError,
>)
    ensures
        match first_where(services.deep_view(), named(name@)) {
            Some(at) => resolved matches Ok(service) && service@ == services.deep_view()[at],
            None => resolved matches Err(error) && error@ == (ErrorModel::ServiceNotFound {
                name: name@,
            }),
        },
{
    proof {
        let stand_for = |service: ServiceInfo| service@;
        lemma_first_where_carries_over(
            services@,
            answering::<ServiceInfo>(name@),
            stand_for,
            named(name@),
        );
        assert(services@.map_values(stand_for) == services.deep_view());
        lemma_first_where_none(services.deep_view(), named(name@));
    }
    match first_answer(services, name) {
        Some(at) => Ok(services[at].clone()),
        None => Err(DiscoveryError::ServiceNotFound { name: name.to_owned() }),
    }
}

/// The service that the operator chose: the one whose label stood at
/// `selection`.
pub fn chosen_service(services: &Vec<ServiceInfo>, selection: usize) -> (service: ServiceInfo)
    requires
        selection < services@.len(),
    ensures
        service@ == services@[selection as int]@,
{
    services[selection].clone()
}

} // verus!
