use goup::consts::{go_download_base_url, go_host, GO_DOWNLOAD_BASE_URL, GO_HOST};

#[test]
fn consts_test_env_vars_unset() {
    assert_eq!(go_host(None), GO_HOST);
    assert_eq!(go_download_base_url(None), GO_DOWNLOAD_BASE_URL);
}

#[test]
fn consts_test_env_vars_set() {
    let test_go_host = "https://golang.google.cn";
    let test_go_download_base_url = "https://golang.google.cn/dl";
    assert_eq!(go_host(Some(test_go_host)), test_go_host);
    assert_eq!(
        go_download_base_url(Some(test_go_download_base_url)),
        test_go_download_base_url
    );
}

#[test]
fn consts_empty_env_var_falls_back() {
    assert_eq!(go_host(Some("")), GO_HOST);
    assert_eq!(go_download_base_url(Some("")), GO_DOWNLOAD_BASE_URL);
}
