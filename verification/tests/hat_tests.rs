use mbus_httpd::hat::{hat, hat_get_value, hat_is_mbus_master, HatFiles};
use mbus_httpd::models::Hat;
use mbus_httpd::responses::HatResponse;

fn some(text: &str) -> Option<String> {
    Some(text.to_string())
}

fn master_files() -> HatFiles {
    HatFiles {
        present: true,
        product: some("M-Bus Master\0"),
        product_id: some("0x0001\0"),
        product_ver: some("0x0007\0"),
        uuid: some("0a1b2c3d-0000-0000-0000-000000000000\0"),
        vendor: some("packom.net\0"),
    }
}

fn absent_files() -> HatFiles {
    HatFiles {
        present: false,
        product: None,
        product_id: None,
        product_ver: None,
        uuid: None,
        vendor: None,
    }
}

#[test]
fn hat_value_loses_its_nul_terminator() {
    assert_eq!(hat_get_value(&some("packom.net\0")), some("packom.net"));
    assert_eq!(hat_get_value(&some("0x0001\0\0")), some("0x0001"));
    assert_eq!(hat_get_value(&some("plain")), some("plain"));
    assert_eq!(hat_get_value(&some("\0")), some(""));
    assert_eq!(hat_get_value(&some("")), some(""));
    assert_eq!(hat_get_value(&some("in\0side\0")), some("in\0side"));
    assert_eq!(hat_get_value(&None), None);
}

#[test]
fn hat_info_without_a_hat_is_not_found() {
    assert_eq!(hat(&absent_files()), HatResponse::NotFound("Hat not present".to_string()));
}

#[test]
fn hat_info_without_a_hat_looks_at_no_file() {
    let mut files = master_files();
    files.present = false;
    assert_eq!(hat(&files), HatResponse::NotFound("Hat not present".to_string()));
}

#[test]
fn hat_info_with_every_field() {
    assert_eq!(
        hat(&master_files()),
        HatResponse::OK(Hat {
            product: some("M-Bus Master"),
            product_id: some("0x0001"),
            product_ver: some("0x0007"),
            uuid: some("0a1b2c3d-0000-0000-0000-000000000000"),
            vendor: some("packom.net"),
        })
    );
}

#[test]
fn hat_info_with_product_and_vendor_only() {
    let files = HatFiles {
        present: true,
        product: some("M-Bus Master\0"),
        product_id: None,
        product_ver: None,
        uuid: None,
        vendor: some("packom.net\0"),
    };
    assert_eq!(
        hat(&files),
        HatResponse::OK(Hat {
            product: some("M-Bus Master"),
            product_id: None,
            product_ver: None,
            uuid: None,
            vendor: some("packom.net"),
        })
    );
}

#[test]
fn hat_info_with_no_readable_file() {
    let mut files = absent_files();
    files.present = true;
    assert_eq!(hat(&files), HatResponse::OK(Hat::new()));
}

#[test]
fn power_control_hat_is_recognised() {
    assert!(hat_is_mbus_master(&master_files()));
    let mut bare = master_files();
    bare.product_id = some("0x0001");
    bare.vendor = some("packom.net");
    bare.product = None;
    bare.product_ver = None;
    bare.uuid = None;
    assert!(hat_is_mbus_master(&bare));
}

#[test]
fn other_hats_are_not_the_power_control_hat() {
    assert!(!hat_is_mbus_master(&absent_files()));

    let mut not_present = master_files();
    not_present.present = false;
    assert!(!hat_is_mbus_master(&not_present));

    let mut other_product = master_files();
    other_product.product_id = some("0x0002\0");
    assert!(!hat_is_mbus_master(&other_product));

    let mut other_vendor = master_files();
    other_vendor.vendor = some("example.org\0");
    assert!(!hat_is_mbus_master(&other_vendor));

    let mut no_product = master_files();
    no_product.product_id = None;
    assert!(!hat_is_mbus_master(&no_product));

    let mut no_vendor = master_files();
    no_vendor.vendor = None;
    assert!(!hat_is_mbus_master(&no_vendor));

    let mut empty = master_files();
    empty.product_id = some("");
    empty.vendor = some("");
    assert!(!hat_is_mbus_master(&empty));

    let mut upper = master_files();
    upper.product_id = some("0X0001\0");
    assert!(!hat_is_mbus_master(&upper));

    let mut newline = master_files();
    newline.vendor = some("packom.net\n");
    assert!(!hat_is_mbus_master(&newline));

    let mut prefix = master_files();
    prefix.vendor = some("packom.ne");
    assert!(!hat_is_mbus_master(&prefix));
}

#[test]
fn hat_exists_tells_whether_the_directory_was_found() {
    assert!(mbus_httpd::hat::hat_exists(&master_files()));
    assert!(!mbus_httpd::hat::hat_exists(&absent_files()));
}
