use rcli::process::http_serve::{
    file_response, FileLookup, STATUS_INTERNAL_SERVER_ERROR, STATUS_NOT_FOUND, STATUS_OK,
};

#[test]
fn a_file_that_was_read_is_served() {
    assert_eq!(
        file_response(FileLookup::Read("hello\n".to_string()), "\"www/index.html\""),
        (200, "hello\n".to_string())
    );
    assert_eq!(file_response(FileLookup::Read(String::new()), "\"empty\""), (200, String::new()));
}

#[test]
fn a_missing_file_is_not_found() {
    assert_eq!(
        file_response(FileLookup::Missing, &format!("{:?}", std::path::Path::new("www/none.txt"))),
        (404, "File not found: \"www/none.txt\"".to_string())
    );
}

#[test]
fn an_unreadable_file_is_a_server_error() {
    assert_eq!(
        file_response(
            FileLookup::Unreadable,
            &format!("{:?}", std::path::Path::new("www/pic \"1\".png"))
        ),
        (500, "Error reading file: \"www/pic \\\"1\\\".png\"".to_string())
    );
}

#[test]
fn the_status_codes() {
    assert_eq!(STATUS_OK, 200);
    assert_eq!(STATUS_NOT_FOUND, 404);
    assert_eq!(STATUS_INTERNAL_SERVER_ERROR, 500);
}
