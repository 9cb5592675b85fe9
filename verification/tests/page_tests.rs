use caliaconf::page::{page_title, Page, Status};
use caliaconf::request::{fail_reason_into_errors, request_url, FailKind, BASE_API_URL, TIMEOUT};
use caliaconf::route::Route;

#[test]
fn home_link_is_active_on_home_page_only() {
    assert!(Page::Home.is_active(&Route::Home));
    assert!(!Page::Home.is_active(&Route::Root));
    assert!(!Page::Home.is_active(&Route::Settings));
}

#[test]
fn settings_link_is_active_on_settings_page_only() {
    assert!(Page::Settings.is_active(&Route::Settings));
    assert!(!Page::Settings.is_active(&Route::Home));
    assert!(!Page::Settings.is_active(&Route::Root));
}

#[test]
fn no_link_is_active_on_other_pages() {
    assert!(!Page::Other.is_active(&Route::Home));
    assert!(!Page::Other.is_active(&Route::Root));
    assert!(!Page::Other.is_active(&Route::Settings));
}

#[test]
fn page_title_appends_the_application_name() {
    assert_eq!(page_title("Home"), "Home - Caliaconf");
    assert_eq!(page_title("Settings"), "Settings - Caliaconf");
    assert_eq!(page_title(""), " - Caliaconf");
}

#[test]
fn status_starts_loading() {
    assert_eq!(Status::<i32>::default(), Status::Loading);
}

#[test]
fn request_url_joins_base_and_path() {
    assert_eq!(
        request_url("list"),
        format!("{}/list", BASE_API_URL)
    );
    assert_eq!(
        request_url("pick"),
        "https://franz_strudel-caliaconf.builtwithdark.com/pick"
    );
}

#[test]
fn timeout_is_five_seconds() {
    assert_eq!(TIMEOUT, 5000);
}

#[test]
fn request_error_maps_to_request_error_message() {
    assert_eq!(
        fail_reason_into_errors(FailKind::RequestError),
        vec![String::from("Request error")]
    );
}

#[test]
fn data_and_status_errors_map_to_data_error_message() {
    assert_eq!(
        fail_reason_into_errors(FailKind::DataError),
        vec![String::from("Data error")]
    );
    assert_eq!(
        fail_reason_into_errors(FailKind::Status),
        vec![String::from("Data error")]
    );
}
