//! The typed service table: one record per service advertisement to publish.

use vstd::prelude::*;

verus! {

/// Mathematical model of one configured service advertisement.
#[verifier::ext_equal]
pub ghost struct ServiceSpecView {
    /// Protocol/service-type tag, e.g. `_http._tcp`.
    pub service_type: Seq<char>,
    /// Name under which the service is advertised.
    pub name: Seq<char>,
    /// Configured port; `0` means "auto-assign an ephemeral port".
    pub port: u16,
    /// TXT-record attributes, in configuration order.
    pub text: Seq<(Seq<char>, Seq<char>)>,
}

/// One configured service advertisement. Immutable once loaded.
#[derive(Debug, PartialEq, Eq)]
pub struct ServiceSpec {
    pub service_type: String,
    pub name: String,
    pub port: u16,
    pub text: Vec<(String, String)>,
}

impl View for ServiceSpec {
    type V = ServiceSpecView;

    open spec fn view(&self) -> ServiceSpecView {
        ServiceSpecView {
            service_type: self.service_type@,
            name: self.name@,
            port: self.port,
            text: self.text.deep_view(),
        }
    }
}

impl ServiceSpec {
    /// The TXT-record attribute keys are pairwise distinct, so the attribute
    /// list denotes a mapping.
    pub open spec fn wf(self) -> bool {
        forall|i: int, j: int|
            0 <= i < j < self@.text.len() ==> self@.text[i].0 != self@.text[j].0
    }
}

/// Mathematical model of one named entry of the service table.
#[verifier::ext_equal]
pub ghost struct ServiceEntryView {
    pub key: Seq<char>,
    pub svc: ServiceSpecView,
}

/// One named entry of the service table.
#[derive(Debug, PartialEq, Eq)]
pub struct ServiceEntry {
    /// The unique key under which the entry is configured.
    pub key: String,
    pub svc: ServiceSpec,
}

impl View for ServiceEntry {
    type V = ServiceEntryView;

    open spec fn view(&self) -> ServiceEntryView {
        ServiceEntryView { key: self.key@, svc: self.svc@ }
    }
}

impl DeepView for ServiceEntry {
    type V = ServiceEntryView;

    open spec fn deep_view(&self) -> ServiceEntryView {
        self.view()
    }
}

/// The full service table, loaded once at process start and read-only
/// afterwards.
#[derive(Debug, PartialEq, Eq)]
pub struct ServiceTable {
    pub entries: Vec<ServiceEntry>,
}

impl View for ServiceTable {
    type V = Seq<ServiceEntryView>;

    open spec fn view(&self) -> Seq<ServiceEntryView> {
        self.entries.deep_view()
    }
}

impl ServiceTable {
    /// Entry keys are pairwise distinct and every entry is well formed.
    pub open spec fn wf(self) -> bool {
        &&& forall|i: int, j: int| 0 <= i < j < self@.len() ==> self@[i].key != self@[j].key
        &&& forall|i: int| 0 <= i < self.entries@.len() ==> (#[trigger] self.entries@[i]).svc.wf()
    }

    pub fn len(&self) -> (n: usize)
        ensures
            n == self@.len(),
    {
        self.entries.len()
    }
}

} // verus!
