use wft_mirror::wft::read_listing;
use wft_mirror::{Directory, Entry, Error, ErrorResponse, FormatFailure, Json, Wft};

fn client() -> Wft {
    Wft::new("192.168.1.20:1234".to_string())
}

fn entry(name: &str, size: u64) -> Entry {
    Entry {
        name: name.to_string(),
        size,
        path: format!("/DCIM/Camera/{name}"),
        modified: 1700000000,
        extension: "jpg".to_string(),
    }
}

fn entry_json(name: &str, size: u64) -> String {
    format!(
        "{{\"name\":\"{name}\",\"size\":{size},\"path\":\"/DCIM/Camera/{name}\",\"modified\":1700000000,\"extension\":\"jpg\"}}"
    )
}

fn body(text: &str) -> Result<String, String> {
    Ok(text.to_string())
}

/// The listing that the client reads from `fetched`, without the sum.
fn list(fetched: Result<String, String>) -> Result<Directory, Error> {
    client().directory(fetched).map(|(_, directory)| directory)
}

fn not_listing() -> Result<Directory, Error> {
    Err(Error::UnexpectedFormat(FormatFailure::NotListing))
}

#[test]
fn directory_url_is_built_from_address_and_path() {
    assert_eq!(
        client().directory_url("/DCIM/Camera"),
        "http://192.168.1.20:1234/api/directory/root/DCIM/Camera"
    );
}

#[test]
fn directory_url_adds_nothing_to_the_path() {
    assert_eq!(client().directory_url(""), "http://192.168.1.20:1234/api/directory/root");
    assert_eq!(client().directory_url("DCIM"), "http://192.168.1.20:1234/api/directory/rootDCIM");
}

#[test]
fn download_url_is_built_from_address_and_path() {
    assert_eq!(
        client().download_url("/DCIM/Camera/a.jpg"),
        "http://192.168.1.20:1234//DCIM/Camera/a.jpg"
    );
    assert_eq!(client().download_url("a.jpg"), "http://192.168.1.20:1234/a.jpg");
}

#[test]
fn urls_of_an_ipv6_address() {
    let wft = Wft::new("[::1]:80".to_string());
    assert_eq!(wft.directory_url("/x"), "http://[::1]:80/api/directory/root/x");
    assert_eq!(wft.download_url("x"), "http://[::1]:80/x");
}

#[test]
fn directory_reads_files_and_directories() {
    let text = format!(
        "{{\"directories\":[{}],\"files\":[{},{}]}}",
        entry_json("Raw", 0),
        entry_json("a.jpg", 100),
        entry_json("b.jpg", 2048)
    );
    let listing = list(body(&text)).unwrap();
    assert_eq!(listing.directories, vec![entry("Raw", 0)]);
    assert_eq!(listing.files, vec![entry("a.jpg", 100), entry("b.jpg", 2048)]);
}

#[test]
fn directory_keeps_the_order_of_the_listing() {
    let text = format!(
        "{{\"files\":[{},{},{}]}}",
        entry_json("c.jpg", 3),
        entry_json("a.jpg", 1),
        entry_json("b.jpg", 2)
    );
    let listing = list(body(&text)).unwrap();
    let names: Vec<&str> = listing.files.iter().map(|file| file.name.as_str()).collect();
    assert_eq!(names, vec!["c.jpg", "a.jpg", "b.jpg"]);
}

#[test]
fn directory_without_keys_is_empty() {
    let listing = list(body("{}")).unwrap();
    assert_eq!(listing, Directory { directories: vec![], files: vec![] });
}

#[test]
fn directory_without_directories_has_none() {
    let text = format!("{{\"files\":[{}]}}", entry_json("a.jpg", 100));
    let listing = list(body(&text)).unwrap();
    assert_eq!(listing, Directory { directories: vec![], files: vec![entry("a.jpg", 100)] });
}

#[test]
fn directory_without_files_has_none() {
    let text = format!("{{\"directories\":[{}]}}", entry_json("Raw", 7));
    let listing = list(body(&text)).unwrap();
    assert_eq!(listing, Directory { directories: vec![entry("Raw", 7)], files: vec![] });
}

#[test]
fn directory_passes_over_members_it_does_not_know() {
    let text = "{\"files\":[{\"name\":\"a\",\"size\":1,\"path\":\"/a\",\"modified\":2,\"extension\":\"\",\"hidden\":true}],\"count\":1,\"error\":404}";
    let listing = list(body(text)).unwrap();
    assert_eq!(
        listing.files,
        vec![Entry {
            name: "a".to_string(),
            size: 1,
            path: "/a".to_string(),
            modified: 2,
            extension: String::new(),
        }]
    );
}

#[test]
fn error_object_is_not_found() {
    let r = list(body("{\"error\": \"no such directory\"}"));
    assert_eq!(r, Err(Error::NotFound("no such directory".to_string())));
}

#[test]
fn error_object_with_a_listing_is_still_not_found() {
    let text =
        format!("{{\"files\":[{}],\"directories\":[],\"error\":\"X\"}}", entry_json("a.jpg", 100));
    assert_eq!(list(body(&text)), Err(Error::NotFound("X".to_string())));
    let text = "{\"error\":\"X\",\"files\":5}";
    assert_eq!(list(body(text)), Err(Error::NotFound("X".to_string())));
}

#[test]
fn error_message_is_kept_verbatim() {
    let r = list(body("{\"error\": \"  Pfad \\\"/x\\\" fehlt: é\\n\"}"));
    assert_eq!(r, Err(Error::NotFound("  Pfad \"/x\" fehlt: é\n".to_string())));
    let r = list(body("{\"error\": \"\"}"));
    assert_eq!(r, Err(Error::NotFound(String::new())));
}

#[test]
fn error_member_that_is_no_text_is_no_error_object() {
    let listing = list(body("{\"error\": 404}")).unwrap();
    assert_eq!(listing, Directory { directories: vec![], files: vec![] });
    let listing = list(body("{\"error\": null}")).unwrap();
    assert_eq!(listing, Directory { directories: vec![], files: vec![] });
}

#[test]
fn body_that_is_no_json_is_unexpected_format() {
    for text in ["", "<html>404</html>", "{\"files\": [", "{} trailing", "{\"error\": \"x\""] {
        assert_eq!(
            list(body(text)),
            Err(Error::UnexpectedFormat(FormatFailure::NotJson)),
            "{text}"
        );
    }
}

#[test]
fn json_that_is_no_listing_is_unexpected_format() {
    for text in [
        "null",
        "5",
        "\"files\"",
        "[]",
        "[{\"files\":[]}]",
        "{\"files\": null}",
        "{\"files\": 5}",
        "{\"files\": {}}",
        "{\"directories\": \"none\"}",
        "{\"files\": [5]}",
        "{\"files\": [null]}",
        "{\"files\": [[]]}",
    ] {
        assert_eq!(list(body(text)), not_listing(), "{text}");
    }
}

#[test]
fn entry_that_lacks_a_member_is_unexpected_format() {
    let whole = "\"name\":\"a\",\"size\":1,\"path\":\"/a\",\"modified\":2,\"extension\":\"jpg\"";
    assert!(list(body(&format!("{{\"files\":[{{{whole}}}]}}"))).is_ok());
    for lacking in [
        "\"size\":1,\"path\":\"/a\",\"modified\":2,\"extension\":\"jpg\"",
        "\"name\":\"a\",\"path\":\"/a\",\"modified\":2,\"extension\":\"jpg\"",
        "\"name\":\"a\",\"size\":1,\"modified\":2,\"extension\":\"jpg\"",
        "\"name\":\"a\",\"size\":1,\"path\":\"/a\",\"extension\":\"jpg\"",
        "\"name\":\"a\",\"size\":1,\"path\":\"/a\",\"modified\":2",
    ] {
        let text = format!("{{\"files\":[{{{lacking}}}]}}");
        assert_eq!(list(body(&text)), not_listing(), "{text}");
        let text = format!("{{\"directories\":[{{{lacking}}}]}}");
        assert_eq!(list(body(&text)), not_listing(), "{text}");
    }
}

#[test]
fn entry_with_a_member_of_another_kind_is_unexpected_format() {
    for wrong in [
        "\"name\":5,\"size\":1,\"path\":\"/a\",\"modified\":2,\"extension\":\"jpg\"",
        "\"name\":\"a\",\"size\":\"1\",\"path\":\"/a\",\"modified\":2,\"extension\":\"jpg\"",
        "\"name\":\"a\",\"size\":-1,\"path\":\"/a\",\"modified\":2,\"extension\":\"jpg\"",
        "\"name\":\"a\",\"size\":1.5,\"path\":\"/a\",\"modified\":2,\"extension\":\"jpg\"",
        "\"name\":\"a\",\"size\":1,\"path\":null,\"modified\":2,\"extension\":\"jpg\"",
        "\"name\":\"a\",\"size\":1,\"path\":\"/a\",\"modified\":18446744073709551616,\"extension\":\"jpg\"",
        "\"name\":\"a\",\"size\":1,\"path\":\"/a\",\"modified\":2,\"extension\":[]",
    ] {
        let text = format!("{{\"files\":[{{{wrong}}}]}}");
        assert_eq!(list(body(&text)), not_listing(), "{text}");
    }
}

#[test]
fn one_bad_entry_spoils_the_listing() {
    let text = format!("{{\"files\":[{},{{\"name\":\"b\"}}]}}", entry_json("a.jpg", 100));
    assert_eq!(list(body(&text)), not_listing());
}

#[test]
fn entry_sizes_up_to_the_largest() {
    let text = format!("{{\"files\":[{}]}}", entry_json("big", u64::MAX));
    let listing = list(body(&text)).unwrap();
    assert_eq!(listing.files[0].size, u64::MAX);
}

#[test]
fn transport_failure_is_network_failure() {
    let r = list(Err("connection refused".to_string()));
    assert_eq!(r, Err(Error::NetworkFailure("connection refused".to_string())));
}

#[test]
fn download_file_hands_the_bytes_on() {
    let r = client().download_file(Ok(vec![1, 2, 3]));
    assert_eq!(r, Ok(vec![1, 2, 3]));
    let r = client().download_file(Ok(vec![]));
    assert_eq!(r, Ok(vec![]));
}

#[test]
fn download_file_that_failed_is_network_failure() {
    let r = client().download_file(Err("timed out".to_string()));
    assert_eq!(r, Err(Error::NetworkFailure("timed out".to_string())));
}

#[test]
fn read_listing_of_built_values() {
    let file = Json::Object(vec![
        ("name".to_string(), Json::Text("a.jpg".to_string())),
        ("size".to_string(), Json::Number(Some(100))),
        ("path".to_string(), Json::Text("/DCIM/Camera/a.jpg".to_string())),
        ("modified".to_string(), Json::Number(Some(1700000000))),
        ("extension".to_string(), Json::Text("jpg".to_string())),
    ]);
    let json = Json::Object(vec![("files".to_string(), Json::Array(vec![file]))]);
    assert_eq!(
        read_listing(&json),
        Ok((Some(100), Directory { directories: vec![], files: vec![entry("a.jpg", 100)] }))
    );
    let json = Json::Object(vec![
        ("files".to_string(), Json::Array(vec![])),
        ("error".to_string(), Json::Text("gone".to_string())),
    ]);
    assert_eq!(read_listing(&json), Err(Error::NotFound("gone".to_string())));
    assert_eq!(
        read_listing(&Json::Array(vec![])),
        Err(Error::UnexpectedFormat(FormatFailure::NotListing))
    );
}

#[test]
fn from_json_of_each_type() {
    let json = Json::parse(&entry_json("a.jpg", 100)).unwrap();
    assert_eq!(Entry::from_json(&json), Some(entry("a.jpg", 100)));
    assert_eq!(Entry::from_json(&Json::Null), None);
    let list = Json::parse(&format!("[{},{}]", entry_json("a", 1), entry_json("b", 2))).unwrap();
    assert_eq!(Entry::list_from_json(&list), Some(vec![entry("a", 1), entry("b", 2)]));
    assert_eq!(Entry::list_from_json(&json), None);
    assert_eq!(Entry::list_from_json(&Json::Array(vec![])), Some(vec![]));
    let response = Json::parse("{\"error\":\"X\"}").unwrap();
    assert_eq!(ErrorResponse::from_json(&response), Some(ErrorResponse { error: "X".to_string() }));
    assert_eq!(ErrorResponse::from_json(&list), None);
    assert_eq!(Directory::from_json(&response), Some(Directory { directories: vec![], files: vec![] }));
    assert_eq!(Directory::from_json(&list), None);
}

#[test]
fn total_size_is_the_sum_of_the_file_sizes() {
    let listing = Directory {
        directories: vec![entry("Raw", 5000)],
        files: vec![entry("a", 100), entry("b", 0), entry("c", 23)],
    };
    assert_eq!(listing.total_size(), 123);
    assert_eq!(listing.checked_total_size(), Some(123));
}

#[test]
fn total_size_of_no_files_is_zero() {
    let listing = Directory { directories: vec![entry("Raw", 5)], files: vec![] };
    assert_eq!(listing.total_size(), 0);
    assert_eq!(listing.checked_total_size(), Some(0));
}

#[test]
fn checked_total_size_stops_at_the_largest() {
    let listing = Directory { directories: vec![], files: vec![entry("a", u64::MAX - 1), entry("b", 1)] };
    assert_eq!(listing.checked_total_size(), Some(u64::MAX));
    assert_eq!(listing.total_size(), u64::MAX);
    let listing = Directory {
        directories: vec![],
        files: vec![entry("a", u64::MAX - 1), entry("b", 1), entry("c", 1)],
    };
    assert_eq!(listing.checked_total_size(), None);
    let listing = Directory { directories: vec![], files: vec![entry("a", u64::MAX), entry("b", u64::MAX)] };
    assert_eq!(listing.checked_total_size(), None);
}

#[test]
fn messages_name_the_kind_and_what_it_carries() {
    assert_eq!(Error::NotFound("no such directory".to_string()).message(), "not found: no such directory");
    assert_eq!(
        Error::NetworkFailure("connection refused".to_string()).message(),
        "network failure: connection refused"
    );
    assert_eq!(
        Error::UnexpectedFormat(FormatFailure::NotJson).message(),
        "unexpected data format: the answer is no JSON text"
    );
    assert_eq!(
        Error::UnexpectedFormat(FormatFailure::NotListing).message(),
        "unexpected data format: the answer is neither an error object nor a listing"
    );
    assert_eq!(
        Error::LocalWriteFailure { path: "out/DCIM/a.jpg".to_string(), reason: "denied".to_string() }
            .message(),
        "failed to write output file out/DCIM/a.jpg: denied"
    );
}

#[test]
fn describe_says_what_failed() {
    assert_eq!(FormatFailure::NotJson.describe(), "the answer is no JSON text");
    assert_eq!(
        FormatFailure::NotListing.describe(),
        "the answer is neither an error object nor a listing"
    );
}

#[test]
fn directory_gives_the_sum_of_the_file_sizes() {
    let text = format!(
        "{{\"directories\":[{}],\"files\":[{},{}]}}",
        entry_json("Raw", 4096),
        entry_json("a.jpg", 100),
        entry_json("b.jpg", 2048)
    );
    let (total, listing) = client().directory(body(&text)).unwrap();
    assert_eq!(total, Some(2148));
    assert_eq!(listing.files.len(), 2);
    let (total, listing) = client().directory(body("{}")).unwrap();
    assert_eq!(total, Some(0));
    assert!(listing.files.is_empty());
}

#[test]
fn directory_gives_no_sum_beyond_the_largest() {
    let text = format!(
        "{{\"files\":[{},{}]}}",
        entry_json("a.jpg", u64::MAX),
        entry_json("b.jpg", 1)
    );
    let (total, listing) = client().directory(body(&text)).unwrap();
    assert_eq!(total, None);
    assert_eq!(listing.files.len(), 2);
    let text = format!(
        "{{\"files\":[{},{}]}}",
        entry_json("a.jpg", u64::MAX - 1),
        entry_json("b.jpg", 1)
    );
    let (total, _) = client().directory(body(&text)).unwrap();
    assert_eq!(total, Some(u64::MAX));
}
