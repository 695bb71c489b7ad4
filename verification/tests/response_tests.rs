use stenbug::response::{parse_response, read_page, ProtocolError};

#[test]
fn well_formed_response_is_extracted() {
    let text = "{\"data\":[{\"path\":\"a.jpg\"},{\"path\":\"b.jpg\"}],\"meta\":{\"last_page\":5}}";
    match parse_response(text) {
        Ok(page) => {
            assert_eq!(page.paths, vec!["a.jpg".to_string(), "b.jpg".to_string()]);
            assert_eq!(page.last_page, 5);
        },
        Err(_) => panic!("expected a result page"),
    }
}

#[test]
fn read_page_extracts_from_parsed_document() {
    let text = "{\"data\":[{\"path\":\"x\"}],\"meta\":{\"last_page\":1}}";
    let doc = json::parse(text).unwrap();
    match read_page(&doc) {
        Ok(page) => {
            assert_eq!(page.paths, vec!["x".to_string()]);
            assert_eq!(page.last_page, 1);
        },
        Err(_) => panic!("expected a result page"),
    }
}

#[test]
fn malformed_body_is_a_protocol_error() {
    match parse_response("not json at all {") {
        Err(ProtocolError::Malformed) => {},
        _ => panic!("expected the malformed-body error"),
    }
}

#[test]
fn entry_without_path_is_reported() {
    let text = "{\"data\":[{\"path\":\"a.jpg\"},{\"id\":7}],\"meta\":{\"last_page\":3}}";
    match parse_response(text) {
        Err(ProtocolError::MissingPath) => {},
        _ => panic!("expected the missing-path error"),
    }
}

#[test]
fn missing_page_count_is_reported() {
    let text = "{\"data\":[{\"path\":\"a.jpg\"}],\"meta\":{}}";
    match parse_response(text) {
        Err(ProtocolError::MissingPageCount) => {},
        _ => panic!("expected the missing-page-count error"),
    }
}

#[test]
fn empty_data_is_a_valid_response() {
    let text = "{\"data\":[],\"meta\":{\"last_page\":0}}";
    match parse_response(text) {
        Ok(page) => {
            assert_eq!(page.paths.len(), 0);
            assert_eq!(page.last_page, 0);
        },
        Err(_) => panic!("an empty result list is not an error"),
    }
}
