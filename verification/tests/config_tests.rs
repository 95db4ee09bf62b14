use mbus_httpd::api::{api, API_FILE};
use mbus_httpd::config::{
    get_env, ToolConfig, LD_LIBRARY_PATH_VAR, LIBMBUS_GET_DEF, LIBMBUS_GET_MULTI_DEF,
    LIBMBUS_GET_MULTI_VAR, LIBMBUS_GET_VAR, LIBMBUS_PATH_DEF, LIBMBUS_PATH_VAR, LIBMBUS_SCAN_DEF,
    LIBMBUS_SCAN_VAR,
};
use mbus_httpd::hat::{
    HAT_PATH, HAT_PRODUCT, HAT_PRODUCT_ID, HAT_PRODUCT_VER, HAT_UUID, HAT_VENDOR,
    MBUS_MASTER_HAT_PID, MBUS_MASTER_HAT_VENDOR,
};
use mbus_httpd::responses::ApiResponse;
use mbus_httpd::tool::DEV_PREFIX;

#[test]
fn environment_variables_in_order() {
    assert_eq!(
        get_env(),
        vec!["LIBMBUS_PATH", "LIBMBUS_GET", "LIBMBUS_GET_MULTI", "LIBMBUS_SCAN", "LD_LIBRARY_PATH"]
    );
    assert_eq!(
        get_env(),
        vec![
            LIBMBUS_PATH_VAR,
            LIBMBUS_GET_VAR,
            LIBMBUS_GET_MULTI_VAR,
            LIBMBUS_SCAN_VAR,
            LD_LIBRARY_PATH_VAR
        ]
    );
}

#[test]
fn default_tools() {
    let tools = ToolConfig::new();
    assert_eq!(tools.path, "/usr/local/bin/");
    assert_eq!(tools.get, "mbus-serial-request-data");
    assert_eq!(tools.get_multi, "mbus-serial-request-data-multi-reply");
    assert_eq!(tools.scan, "mbus-serial-scan");
    assert_eq!(tools.path, LIBMBUS_PATH_DEF);
    assert_eq!(tools.get, LIBMBUS_GET_DEF);
    assert_eq!(tools.get_multi, LIBMBUS_GET_MULTI_DEF);
    assert_eq!(tools.scan, LIBMBUS_SCAN_DEF);
}

#[test]
fn empty_environment_leaves_the_defaults() {
    assert_eq!(ToolConfig::from_env(None, None, None, None), ToolConfig::new());
}

#[test]
fn environment_replaces_each_setting_alone() {
    let path = ToolConfig::from_env(Some("/opt/".to_string()), None, None, None);
    assert_eq!(path.path, "/opt/");
    assert_eq!(path.get, LIBMBUS_GET_DEF);
    assert_eq!(path.get_multi, LIBMBUS_GET_MULTI_DEF);
    assert_eq!(path.scan, LIBMBUS_SCAN_DEF);

    let get = ToolConfig::from_env(None, Some("g".to_string()), None, None);
    assert_eq!(get.path, LIBMBUS_PATH_DEF);
    assert_eq!(get.get, "g");
    assert_eq!(get.get_multi, LIBMBUS_GET_MULTI_DEF);
    assert_eq!(get.scan, LIBMBUS_SCAN_DEF);

    let multi = ToolConfig::from_env(None, None, Some("m".to_string()), None);
    assert_eq!(multi.path, LIBMBUS_PATH_DEF);
    assert_eq!(multi.get, LIBMBUS_GET_DEF);
    assert_eq!(multi.get_multi, "m");
    assert_eq!(multi.scan, LIBMBUS_SCAN_DEF);

    let scan = ToolConfig::from_env(None, None, None, Some("s".to_string()));
    assert_eq!(scan.path, LIBMBUS_PATH_DEF);
    assert_eq!(scan.get, LIBMBUS_GET_DEF);
    assert_eq!(scan.get_multi, LIBMBUS_GET_MULTI_DEF);
    assert_eq!(scan.scan, "s");

    let all = ToolConfig::from_env(
        Some(String::new()),
        Some("a".to_string()),
        Some("b".to_string()),
        Some("c".to_string()),
    );
    assert_eq!(
        all,
        ToolConfig {
            path: String::new(),
            get: "a".to_string(),
            get_multi: "b".to_string(),
            scan: "c".to_string(),
        }
    );
}

#[test]
fn fixed_places() {
    assert_eq!(DEV_PREFIX, "/dev/");
    assert_eq!(HAT_PATH, "/proc/device-tree/hat/");
    assert_eq!(HAT_PRODUCT, "product");
    assert_eq!(HAT_PRODUCT_ID, "product_id");
    assert_eq!(HAT_PRODUCT_VER, "product_ver");
    assert_eq!(HAT_UUID, "uuid");
    assert_eq!(HAT_VENDOR, "vendor");
    assert_eq!(MBUS_MASTER_HAT_PID, "0x0001");
    assert_eq!(MBUS_MASTER_HAT_VENDOR, "packom.net");
    assert_eq!(API_FILE, "/static/api.yaml");
}

#[test]
fn interface_description_that_was_read() {
    assert_eq!(
        api(Ok("openapi: 3.0.0\n".to_string())),
        ApiResponse::OK("openapi: 3.0.0\n".to_string())
    );
    assert_eq!(api(Ok(String::new())), ApiResponse::OK(String::new()));
}

#[test]
fn interface_description_that_could_not_be_read() {
    assert_eq!(
        api(Err("No such file or directory (os error 2)".to_string())),
        ApiResponse::NotFound(
            "Failed to read file: No such file or directory (os error 2)".to_string()
        )
    );
    assert_eq!(api(Err(String::new())), ApiResponse::NotFound("Failed to read file: ".to_string()));
}
