//! What a disk reports about itself: vendor, model, serial number, firmware
//! revision, bus and whether it is removable.
pub use crate::foruster_core::storage_bus_type::StorageBusType;
use crate::foruster_core::storage_bus_type::bus_type_name;
use crate::text::{append_str, trim, trimmed};
use vstd::prelude::*;

verus! {

/// Identification of a disk; vendor and model are kept without surrounding
/// white space.
#[derive(Debug)]
pub struct IdentificationData {
    vendor: Option<String>,
    model: Option<String>,
    serial_number: Option<String>,
    product_revision: Option<String>,
    bus_type: StorageBusType,
    removable: bool,
}

/// The contents of an [`IdentificationData`].
pub ghost struct IdentificationView {
    pub vendor: Option<Seq<char>>,
    pub model: Option<Seq<char>>,
    pub serial_number: Option<Seq<char>>,
    pub product_revision: Option<Seq<char>>,
    pub bus_type: StorageBusType,
    pub removable: bool,
}

impl View for IdentificationData {
    type V = IdentificationView;

    closed spec fn view(&self) -> IdentificationView {
        IdentificationView {
            vendor: self.vendor.deep_view(),
            model: self.model.deep_view(),
            serial_number: self.serial_number.deep_view(),
            product_revision: self.product_revision.deep_view(),
            bus_type: self.bus_type,
            removable: self.removable,
        }
    }
}

/// An optional text without surrounding white space.
pub open spec fn trimmed_option(o: Option<Seq<char>>) -> Option<Seq<char>> {
    match o {
        Some(s) => Some(trimmed(s)),
        None => None,
    }
}

/// The name a disk is shown under: vendor and model separated by a space,
/// whichever of them is known, or `Unknown`.
pub open spec fn display_name(vendor: Option<Seq<char>>, model: Option<Seq<char>>) -> Seq<char> {
    match (vendor, model) {
        (Some(v), Some(m)) => v + seq![' '] + m,
        (Some(v), None) => v,
        (None, Some(m)) => m,
        (None, None) => "Unknown"@,
    }
}

fn trim_option(o: Option<String>) -> (r: Option<String>)
    ensures
        r.deep_view() == trimmed_option(o.deep_view()),
{
    match o {
        Some(s) => Some(trim(s.as_str())),
        None => None,
    }
}

impl Clone for IdentificationData {
    fn clone(&self) -> (r: Self)
        ensures
            r@ == self@,
    {
        IdentificationData {
            vendor: self.vendor.clone(),
            model: self.model.clone(),
            serial_number: self.serial_number.clone(),
            product_revision: self.product_revision.clone(),
            bus_type: self.bus_type,
            removable: self.removable,
        }
    }
}

/// A labelled line for a value that may be missing: nothing when it is.
pub open spec fn optional_line(label: Seq<char>, value: Option<Seq<char>>) -> Seq<char> {
    match value {
        Some(v) => label + v + "\n"@,
        None => Seq::empty(),
    }
}

/// The text of a truth value.
pub open spec fn bool_text(b: bool) -> Seq<char> {
    if b {
        "true"@
    } else {
        "false"@
    }
}

/// The description of a disk's identification, one labelled line per known
/// value, then its bus and whether it is removable.
pub open spec fn identification_text(i: IdentificationView) -> Seq<char> {
    optional_line("Vendor: "@, i.vendor) + optional_line("Model: "@, i.model) + optional_line(
        "Serial number: "@,
        i.serial_number,
    ) + optional_line("Product revision: "@, i.product_revision) + "Bus type: "@ + bus_type_name(i.bus_type)
        + "\n"@ + "Removable: "@ + bool_text(i.removable) + "\n"@
}

fn push_optional_line(s: String, label: &str, value: &Option<String>) -> (r: String)
    ensures
        r@ == s@ + optional_line(label@, value.deep_view()),
{
    match value {
        Some(v) => {
            append_str(append_str(append_str(s, label), v.as_str()), "\n")
        },
        None => {
            assert(s@ + Seq::<char>::empty() =~= s@);
            s
        },
    }
}

fn bool_string(b: bool) -> (r: &'static str)
    ensures
        r@ == bool_text(b),
{
    if b {
        "true"
    } else {
        "false"
    }
}

impl IdentificationData {
    /// Keeps every field, with white space trimmed from vendor and model.
    pub fn new(
        vendor: Option<String>,
        model: Option<String>,
        serial_number: Option<String>,
        product_revision: Option<String>,
        bus_type: StorageBusType,
        removable: bool,
    ) -> (r: Self)
        ensures
            r@ == (IdentificationView {
                vendor: trimmed_option(vendor.deep_view()),
                model: trimmed_option(model.deep_view()),
                serial_number: serial_number.deep_view(),
                product_revision: product_revision.deep_view(),
                bus_type,
                removable,
            }),
    {
        let vendor = trim_option(vendor);
        let model = trim_option(model);
        Self { model, serial_number, product_revision, vendor, bus_type, removable }
    }

    pub fn vendor(&self) -> (r: &Option<String>)
        ensures
            r.deep_view() == self@.vendor,
    {
        &self.vendor
    }

    pub fn model(&self) -> (r: &Option<String>)
        ensures
            r.deep_view() == self@.model,
    {
        &self.model
    }

    pub fn serial_number(&self) -> (r: &Option<String>)
        ensures
            r.deep_view() == self@.serial_number,
    {
        &self.serial_number
    }

    pub fn product_revision(&self) -> (r: &Option<String>)
        ensures
            r.deep_view() == self@.product_revision,
    {
        &self.product_revision
    }

    pub fn bus_type(&self) -> (r: &StorageBusType)
        ensures
            *r == self@.bus_type,
    {
        &self.bus_type
    }

    pub fn removable(&self) -> (r: bool)
        ensures
            r == self@.removable,
    {
        self.removable
    }

    /// Vendor and model separated by a space, whichever is known, or `Unknown`.
    pub fn display_name(&self) -> (r: String)
        ensures
            r@ == display_name(self@.vendor, self@.model),
    {
        match (&self.vendor, &self.model) {
            (Some(vendor), Some(model)) => {
                let mut s = vendor.clone();
                crate::text::push_char(&mut s, ' ');
                crate::text::append_str(s, model.as_str())
            },
            (Some(vendor), None) => vendor.clone(),
            (None, Some(model)) => model.clone(),
            (None, None) => crate::text::owned("Unknown"),
        }
    }

    /// The description of this identification, as the disk listing shows it.
    pub fn to_string(&self) -> (r: String)
        ensures
            r@ == identification_text(self@),
    {
        let s = push_optional_line(String::new(), "Vendor: ", &self.vendor);
        let s = push_optional_line(s, "Model: ", &self.model);
        let s = push_optional_line(s, "Serial number: ", &self.serial_number);
        let s = push_optional_line(s, "Product revision: ", &self.product_revision);
        let s = append_str(s, "Bus type: ");
        let s = append_str(s, self.bus_type.to_string().as_str());
        let s = append_str(s, "\n");
        let s = append_str(s, "Removable: ");
        let s = append_str(s, bool_string(self.removable));
        let s = append_str(s, "\n");
        assert(s@ =~= identification_text(self@));
        s
    }
}

} // verus!
