//! The add-on module that powers the bus: what its description files say of
//! it, and whether it is the power-control module that the gateway drives.
//!
//! The caller reads the files and hands in what it found; a file that is
//! missing or cannot be read is an absent value.

use crate::models::{Hat, HatView};
use crate::responses::{HatResponse, HatResponseView};
use crate::text::{optional_text, strip_trailing_nuls, trim_end_nuls};
use vstd::prelude::*;
use vstd::string::*;

verus! {

/// Directory that describes the module; it exists only with a module fitted.
pub const HAT_PATH: &'static str = "/proc/device-tree/hat/";

/// File that holds the product name.
pub const HAT_PRODUCT: &'static str = "product";

/// File that holds the product id.
pub const HAT_PRODUCT_ID: &'static str = "product_id";

/// File that holds the product version.
pub const HAT_PRODUCT_VER: &'static str = "product_ver";

/// File that holds the module's UUID.
pub const HAT_UUID: &'static str = "uuid";

/// File that holds the vendor.
pub const HAT_VENDOR: &'static str = "vendor";

/// Product id of the power-control module.
pub const MBUS_MASTER_HAT_PID: &'static str = "0x0001";

/// Vendor of the power-control module.
pub const MBUS_MASTER_HAT_VENDOR: &'static str = "packom.net";

/// What was found of the module: whether its directory exists, and the raw
/// content of each description file that could be read.
#[derive(Debug, Clone, PartialEq, Eq)]
pub struct HatFiles {
    /// True where the module's directory exists.
    pub present: bool,
    /// Content of the product file.
    pub product: Option<String>,
    /// Content of the product id file.
    pub product_id: Option<String>,
    /// Content of the product version file.
    pub product_ver: Option<String>,
    /// Content of the UUID file.
    pub uuid: Option<String>,
    /// Content of the vendor file.
    pub vendor: Option<String>,
}

/// What the contracts see of `HatFiles`.
pub struct HatFilesView {
    pub present: bool,
    pub product: Option<Seq<char>>,
    pub product_id: Option<Seq<char>>,
    pub product_ver: Option<Seq<char>>,
    pub uuid: Option<Seq<char>>,
    pub vendor: Option<Seq<char>>,
}

impl View for HatFiles {
    type V = HatFilesView;

    open spec fn view(&self) -> HatFilesView {
        HatFilesView {
            present: self.present,
            product: optional_text(self.product),
            product_id: optional_text(self.product_id),
            product_ver: optional_text(self.product_ver),
            uuid: optional_text(self.uuid),
            vendor: optional_text(self.vendor),
        }
    }
}

/// The message for a gateway without a module.
pub open spec fn hat_absent_text() -> Seq<char> {
    "Hat not present"@
}

/// The value that a description file states: its content without the NUL
/// characters that end it.
pub open spec fn hat_value(raw: Option<Seq<char>>) -> Option<Seq<char>> {
    match raw {
        Some(s) => Some(strip_trailing_nuls(s)),
        None => None,
    }
}

/// The identity that the description files state, field by field.
pub open spec fn hat_identity(files: HatFilesView) -> HatView {
    HatView {
        product: hat_value(files.product),
        product_id: hat_value(files.product_id),
        product_ver: hat_value(files.product_ver),
        uuid: hat_value(files.uuid),
        vendor: hat_value(files.vendor),
    }
}

/// The answer to a question for the module's identity.
pub open spec fn hat_response(files: HatFilesView) -> HatResponseView {
    if files.present {
        HatResponseView::OK(hat_identity(files))
    } else {
        HatResponseView::NotFound(hat_absent_text())
    }
}

/// A stated value, or the empty text for an absent one.
pub open spec fn value_or_empty(value: Option<Seq<char>>) -> Seq<char> {
    match value {
        Some(s) => s,
        None => Seq::<char>::empty(),
    }
}

/// True where the module is fitted and states the product id and the vendor
/// of the power-control module.
pub open spec fn is_mbus_master(files: HatFilesView) -> bool {
    &&& files.present
    &&& value_or_empty(hat_value(files.product_id)) == MBUS_MASTER_HAT_PID@
    &&& value_or_empty(hat_value(files.vendor)) == MBUS_MASTER_HAT_VENDOR@
}

/// Tells whether a module is fitted.
pub fn hat_exists(files: &HatFiles) -> (b: bool)
    ensures
        b == files@.present,
{
    files.present
}

/// The value of one description file from its raw content.
pub fn hat_get_value(raw: &Option<String>) -> (value: Option<String>)
    ensures
        optional_text(value) == hat_value(optional_text(*raw)),
{
    match raw {
        Some(s) => Some(trim_end_nuls(s.as_str())),
        None => None,
    }
}

/// Answers a question for the module's identity: the identity with every
/// field that could be read, or "not found" where no module is fitted.
pub fn hat(files: &HatFiles) -> (response: HatResponse)
    ensures
        response@ == hat_response(files@),
{
    if hat_exists(files) {
        HatResponse::OK(
            Hat {
                product: hat_get_value(&files.product),
                product_id: hat_get_value(&files.product_id),
                product_ver: hat_get_value(&files.product_ver),
                uuid: hat_get_value(&files.uuid),
                vendor: hat_get_value(&files.vendor),
            },
        )
    } else {
        HatResponse::NotFound("Hat not present".to_owned())
    }
}

/// Tells whether a stated value is the text `expected`.
fn value_is(raw: &Option<String>, expected: &str) -> (b: bool)
    ensures
        b == (value_or_empty(hat_value(optional_text(*raw))) == expected@),
{
    let value = match hat_get_value(raw) {
        Some(s) => s,
        None => String::new(),
    };
    value == expected.to_owned()
}

/// Tells whether the power-control module is fitted.
pub fn hat_is_mbus_master(files: &HatFiles) -> (b: bool)
    ensures
        b == is_mbus_master(files@),
{
    if !hat_exists(files) {
        return false;
    }
    if !value_is(&files.product_id, MBUS_MASTER_HAT_PID) {
        return false;
    }
    if !value_is(&files.vendor, MBUS_MASTER_HAT_VENDOR) {
        return false;
    }
    true
}

/// Without the module's directory the answer is "not found" and carries no
/// field, whatever the files are said to hold.
pub proof fn lemma_no_hat_no_identity(files: HatFilesView)
    requires
        !files.present,
    ensures
        hat_response(files) == HatResponseView::NotFound(hat_absent_text()),
        !is_mbus_master(files),
{
}

/// With the module fitted each field of the answer is there exactly when
/// its file could be read.
pub proof fn lemma_identity_field_by_field(files: HatFilesView)
    requires
        files.present,
    ensures
        hat_response(files) is OK,
        hat_response(files)->OK_0.product is Some <==> files.product is Some,
        hat_response(files)->OK_0.product_id is Some <==> files.product_id is Some,
        hat_response(files)->OK_0.product_ver is Some <==> files.product_ver is Some,
        hat_response(files)->OK_0.uuid is Some <==> files.uuid is Some,
        hat_response(files)->OK_0.vendor is Some <==> files.vendor is Some,
{
}

/// A module whose product id or vendor could not be read is not the
/// power-control module.
pub proof fn lemma_unreadable_is_not_master(files: HatFilesView)
    requires
        files.product_id is None || files.vendor is None,
    ensures
        !is_mbus_master(files),
{
    reveal_strlit("0x0001");
    reveal_strlit("packom.net");
    assert(MBUS_MASTER_HAT_PID@.len() == 6);
    assert(MBUS_MASTER_HAT_VENDOR@.len() == 10);
}

} // verus!
