use vaulty_mail::dropbox::{build_endpoint_url, Endpoint, Error};

#[test]
fn endpoint_urls_are_base_plus_route() {
    assert_eq!(
        build_endpoint_url(Endpoint::ListFolder),
        "https://api.dropboxapi.com/2/files/list_folder"
    );
    assert_eq!(
        build_endpoint_url(Endpoint::CreateFolder),
        "https://api.dropboxapi.com/2/files/create_folder_v2"
    );
    assert_eq!(
        build_endpoint_url(Endpoint::FileUpload),
        "https://content.dropboxapi.com/2/files/upload"
    );
}

#[test]
fn status_maps_to_error() {
    assert_eq!(Error::map_status(200), Ok(()));
    assert_eq!(Error::map_status(400), Err(Error::BadInput));
    assert_eq!(Error::map_status(403), Err(Error::TokenExpired));
    assert_eq!(Error::map_status(409), Err(Error::Endpoint));
    assert_eq!(Error::map_status(429), Err(Error::RateLimited));
    assert_eq!(Error::map_status(500), Err(Error::Internal(500)));
    assert_eq!(Error::map_status(201), Err(Error::Internal(201)));
}

#[test]
fn error_names() {
    assert_eq!(Error::BadInput.describe(), "BadInput");
    assert_eq!(Error::TokenExpired.describe(), "TokenExpired");
    assert_eq!(Error::Endpoint.describe(), "Endpoint");
    assert_eq!(Error::RateLimited.describe(), "RateLimited");
    assert_eq!(Error::Internal(502).describe(), "Internal Error");
}
