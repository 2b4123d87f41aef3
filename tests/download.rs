use data_table::{button_label, download_file_name, DownloadDataRequest};

#[test]
fn file_name_has_stamp_and_extension() {
    assert_eq!(download_file_name("20240102_030405", "orders"), "20240102_030405_orders.csv");
    assert_eq!(download_file_name("", ""), "_.csv");
}

#[test]
fn button_label_defaults_to_download() {
    assert_eq!(button_label(""), "Download");
    assert_eq!(button_label("Export"), "Export");
}

#[test]
fn download_requests_compare_by_fields() {
    let a = DownloadDataRequest {
        table_name: "t".to_string(),
        filter: "f".to_string(),
        fields: "a,b".to_string(),
        search: "".to_string(),
    };
    let b = a.clone();
    assert!(a == b);
    let c = DownloadDataRequest { search: "x".to_string(), ..a.clone() };
    assert!(a != c);
    assert!(DownloadDataRequest::default() == DownloadDataRequest::default());
    assert_eq!(DownloadDataRequest::default().table_name, "");
}
