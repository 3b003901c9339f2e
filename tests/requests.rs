use nekoweb_rs::request::check_status;
use nekoweb_rs::{ApiError, Authenticated, Body, Client, File, Method, Part, Request};

const API: &str = "https://nekoweb.org/api";

fn client() -> Client<Authenticated> {
    Client::new("tester").authenticate("SECRET-REDACTED".to_string())
}

fn form(r: &Request) -> Vec<(String, String)> {
    match &r.body {
        Body::Form(fields) => fields.clone(),
        _ => panic!("not a form body"),
    }
}

fn strs(v: &[(String, String)]) -> Vec<(&str, &str)> {
    v.iter().map(|(a, b)| (a.as_str(), b.as_str())).collect()
}

#[test]
fn new_client_uses_api_root_and_user_agent() {
    let c = Client::new("nekoweb-rs");
    assert_eq!(c.base_url(), API);
    assert_eq!(c.user_agent(), "nekoweb-rs");
    let a = c.authenticate("tok".to_string());
    assert_eq!(a.base_url(), API);
    assert_eq!(a.user_agent(), "nekoweb-rs");
    assert_eq!(a.create_file("/x").auth.as_deref(), Some("tok"));
}

#[test]
fn success_statuses_pass_body_through() {
    for status in [200u16, 201, 204, 299] {
        match check_status(status, b"ok".to_vec()) {
            Ok(body) => assert_eq!(body, b"ok".to_vec()),
            Err(_) => panic!("status {} should pass", status),
        }
    }
}

#[test]
fn non_success_statuses_fail_with_status_and_body() {
    for status in [100u16, 199, 300, 301, 404, 500, 503] {
        let body = br#"{"name":"a.txt","dir":false}"#.to_vec();
        match check_status(status, body.clone()) {
            Err(ApiError::Status { status: s, body: b }) => {
                assert_eq!(s, status);
                assert_eq!(b, body);
            }
            _ => panic!("status {} should fail", status),
        }
    }
}

#[test]
fn create_file_and_folder_send_form() {
    let c = client();
    let r = c.create_file("/index.html");
    assert_eq!(r.method, Method::Post);
    assert_eq!(r.url, format!("{API}/files/create"));
    assert_eq!(r.auth.as_deref(), Some("SECRET-REDACTED"));
    assert_eq!(strs(&form(&r)), vec![("isFolder", "false"), ("pathname", "/index.html")]);
    let r = c.create_folder("/assets");
    assert_eq!(strs(&form(&r)), vec![("isFolder", "true"), ("pathname", "/assets")]);
}

#[test]
fn upload_file_sends_directory_and_named_bytes() {
    let c = client();
    let r = c.upload_file("/a/./b/../c.txt", vec![1, 2, 3]);
    assert_eq!(r.method, Method::Post);
    assert_eq!(r.url, format!("{API}/files/upload"));
    assert_eq!(r.auth.as_deref(), Some("SECRET-REDACTED"));
    match &r.body {
        Body::Multipart(parts) => {
            assert_eq!(parts.len(), 2);
            match &parts[0] {
                Part::Text { name, value } => {
                    assert_eq!(name, "pathname");
                    assert_eq!(value, "/a/b");
                }
                _ => panic!("first part should be text"),
            }
            match &parts[1] {
                Part::Bytes { name, data, file_name, mime } => {
                    assert_eq!(name, "files");
                    assert_eq!(data, &vec![1u8, 2, 3]);
                    assert_eq!(file_name.as_deref(), Some("c.txt"));
                    assert_eq!(mime.as_deref(), Some("application/octet_stream"));
                }
                _ => panic!("second part should be bytes"),
            }
        }
        _ => panic!("not multipart"),
    }
}

#[test]
fn list_encodes_pathname_in_query() {
    let c = client();
    let r = c.list("/my dir/");
    assert_eq!(r.method, Method::Get);
    assert_eq!(r.url, format!("{API}/files/readfolder?pathname=%2Fmy+dir%2F"));
    assert_eq!(r.auth.as_deref(), Some("SECRET-REDACTED"));
    assert!(matches!(r.body, Body::Empty));
    let r = c.list("/");
    assert_eq!(r.url, format!("{API}/files/readfolder?pathname=%2F"));
    let r = c.list_with_query("pathname=%2F");
    assert_eq!(r.url, format!("{API}/files/readfolder?pathname=%2F"));
}

#[test]
fn rename_edit_delete_requests() {
    let c = client();
    let r = c.rename("/old.txt", "/new.txt");
    assert_eq!(r.url, format!("{API}/files/rename"));
    assert_eq!(strs(&form(&r)), vec![("pathname", "/old.txt"), ("newpathname", "/new.txt")]);

    let r = c.delete("/gone.txt".to_string());
    assert_eq!(r.url, format!("{API}/files/delete"));
    assert_eq!(strs(&form(&r)), vec![("pathname", "/gone.txt")]);

    let r = c.edit("/index.html".to_string(), b"<p>hi</p>".to_vec());
    assert_eq!(r.url, format!("{API}/files/edit"));
    assert_eq!(r.auth.as_deref(), Some("SECRET-REDACTED"));
    match &r.body {
        Body::Multipart(parts) => {
            assert!(matches!(&parts[0], Part::Text { name, value } if name == "pathname" && value == "/index.html"));
            assert!(matches!(&parts[1], Part::Bytes { name, data, file_name: None, mime: None } if name == "content" && data == b"<p>hi</p>"));
            assert_eq!(parts.len(), 2);
        }
        _ => panic!("not multipart"),
    }
}

#[test]
fn file_entries_keep_fields() {
    let entries = vec![File::new("a.txt".to_string(), false), File::new("sub".to_string(), true)];
    assert_eq!(entries[0].name, "a.txt");
    assert!(!entries[0].dir);
    assert_eq!(entries[1].name, "sub");
    assert!(entries[1].dir);
}
