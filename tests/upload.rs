use nekoweb_rs::big::{Action, Event, Phase};
use nekoweb_rs::{AfterUpload, Authenticated, BigFile, Body, Client, Method, Part, Request};

const API: &str = "https://nekoweb.org/api";

fn client() -> Client<Authenticated> {
    Client::new("tester").authenticate("SECRET-REDACTED".to_string())
}

fn sent(a: Action) -> Request {
    match a {
        Action::Append(r) => r,
        Action::Finish(r) => r,
        Action::Read => panic!("expected a request, got a read"),
        Action::Rejected => panic!("expected a request, got a rejection"),
    }
}

fn appended(r: &Request) -> (String, Vec<u8>) {
    assert_eq!(r.url, format!("{API}/files/big/append"));
    match &r.body {
        Body::Multipart(parts) => match (&parts[0], &parts[1]) {
            (Part::Text { name, value }, Part::Bytes { name: n2, data, file_name, mime }) => {
                assert_eq!(name, "id");
                assert_eq!(n2, "file");
                assert!(file_name.is_none());
                assert_eq!(mime.as_deref(), Some("application/octet-stream"));
                (value.clone(), data.clone())
            }
            _ => panic!("unexpected parts"),
        },
        _ => panic!("not multipart"),
    }
}

#[test]
fn upload_starts_with_session_request() {
    let c = client();
    let (session, create) = c.upload_stream("/dest.txt");
    assert_eq!(session.phase(), Phase::Creating);
    assert_eq!(create.method, Method::Get);
    assert_eq!(create.url, format!("{API}/files/big/create"));
    assert_eq!(create.auth.as_deref(), Some("SECRET-REDACTED"));
}

#[test]
fn empty_source_creates_then_finalizes() {
    let c = client();
    let (mut session, _create) = c.upload_stream("/dest.txt");
    assert!(matches!(session.upload(&c, Event::Created("s1".to_string())), Action::Read));
    let fin = session.upload(&c, Event::End);
    assert!(matches!(fin, Action::Finish(_)));
    let fin = sent(fin);
    assert_eq!(fin.url, format!("{API}/files/big/move"));
    assert!(session.is_done());
}

#[test]
fn chunks_are_appended_in_order() {
    let c = client();
    let (mut session, _) = c.import_stream();
    assert!(matches!(session.upload(&c, Event::Created("abc".to_string())), Action::Read));
    let first = session.upload(&c, Event::Chunk(vec![1, 2]));
    assert!(matches!(first, Action::Append(_)));
    let first = sent(first);
    assert_eq!(appended(&first), ("abc".to_string(), vec![1, 2]));
    let second = sent(session.upload(&c, Event::Chunk(vec![3])));
    assert_eq!(appended(&second), ("abc".to_string(), vec![3]));
    assert!(!session.is_done());
    let fin = sent(session.upload(&c, Event::End));
    assert_eq!(fin.method, Method::Post);
    assert_eq!(fin.url, format!("{API}/files/import/abc"));
    assert!(matches!(fin.body, Body::Empty));
    assert!(session.is_done());
}

#[test]
fn move_sends_destination_verbatim() {
    let c = client();
    let (mut session, _) = c.upload_stream("//weird/../path/./x.zip");
    session.upload(&c, Event::Created("id7".to_string()));
    let fin = sent(session.upload(&c, Event::End));
    match &fin.body {
        Body::Form(fields) => {
            assert_eq!(fields[0], ("id".to_string(), "id7".to_string()));
            assert_eq!(fields[1], ("pathname".to_string(), "//weird/../path/./x.zip".to_string()));
            assert_eq!(fields.len(), 2);
        }
        _ => panic!("not a form"),
    }
}

#[test]
fn events_out_of_phase_are_rejected() {
    let c = client();
    let mut session = BigFile::new(AfterUpload::Import);
    assert!(matches!(session.upload(&c, Event::Chunk(vec![1])), Action::Rejected));
    assert!(matches!(session.upload(&c, Event::End), Action::Rejected));
    assert_eq!(session.phase(), Phase::Creating);
    session.upload(&c, Event::Created("a".to_string()));
    assert!(matches!(session.upload(&c, Event::Created("b".to_string())), Action::Rejected));
    assert_eq!(session.id(), "a");
    session.upload(&c, Event::End);
    assert!(matches!(session.upload(&c, Event::Chunk(vec![1])), Action::Rejected));
    assert!(matches!(session.upload(&c, Event::End), Action::Rejected));
}
