use super::storage_bus_type::StorageBusType;
use vstd::prelude::*;

verus! {

/// What a disk reports about itself, kept exactly as given.
#[derive(Debug, Clone)]
pub struct IdentificationData {
    vendor: Option<String>,
    model: Option<String>,
    serial_number: Option<String>,
    product_revision: Option<String>,
    bus_type: StorageBusType,
    removable: bool,
}

/// The contents of an [`IdentificationData`].
pub ghost struct IdentificationDataView {
    pub vendor: Option<Seq<char>>,
    pub model: Option<Seq<char>>,
    pub serial_number: Option<Seq<char>>,
    pub product_revision: Option<Seq<char>>,
    pub bus_type: StorageBusType,
    pub removable: bool,
}

impl View for IdentificationData {
    type V = IdentificationDataView;

    closed spec fn view(&self) -> IdentificationDataView {
        IdentificationDataView {
            vendor: self.vendor.deep_view(),
            model: self.model.deep_view(),
            serial_number: self.serial_number.deep_view(),
            product_revision: self.product_revision.deep_view(),
            bus_type: self.bus_type,
            removable: self.removable,
        }
    }
}

impl IdentificationData {
    /// Keeps every field as given.
    pub fn new(
        vendor: Option<String>,
        model: Option<String>,
        serial_number: Option<String>,
        product_revision: Option<String>,
        bus_type: StorageBusType,
        removable: bool,
    ) -> (r: Self)
        ensures
            r@ == (IdentificationDataView {
                vendor: vendor.deep_view(),
                model: model.deep_view(),
                serial_number: serial_number.deep_view(),
                product_revision: product_revision.deep_view(),
                bus_type,
                removable,
            }),
    {
        Self { model, serial_number, product_revision, vendor, bus_type, removable }
    }

    pub fn vendor(&self) -> (r: &Option<String>)
        ensures
            r.deep_view() == self@.vendor,
    {
        &self.vendor
    }

    pub fn model(&self) -> (r: &Option<String>)
        ensures
            r.deep_view() == self@.model,
    {
        &self.model
    }

    pub fn serial_number(&self) -> (r: &Option<String>)
        ensures
            r.deep_view() == self@.serial_number,
    {
        &self.serial_number
    }

    pub fn product_revision(&self) -> (r: &Option<String>)
        ensures
            r.deep_view() == self@.product_revision,
    {
        &self.product_revision
    }

    pub fn bus_type(&self) -> (r: &StorageBusType)
        ensures
            *r == self@.bus_type,
    {
        &self.bus_type
    }

    pub fn removable(&self) -> (r: bool)
        ensures
            r == self@.removable,
    {
        self.removable
    }
}

} // verus!
