//! File operations of an authenticated client.
use vstd::prelude::*;

use crate::encode::{urlencode, urlencoded};
use crate::path::{normal_components, split_upload_path, upload_dir, upload_name};
use crate::request::{auth_get, form_post, multipart_post, Part, PartView, Request};
use crate::{Authenticated, Client};

verus! {

/// One entry of a directory listing.
pub struct File {
    pub name: String,
    pub dir: bool,
}

impl File {
    pub fn new(name: String, dir: bool) -> (r: File)
        ensures
            r.name@ == name@,
            r.dir == dir,
    {
        File { name, dir }
    }
}

/// What `to_string` writes for a `bool`.
pub open spec fn bool_text(b: bool) -> Seq<char> {
    if b {
        "true"@
    } else {
        "false"@
    }
}

fn bool_string(b: bool) -> (r: String)
    ensures
        r@ == bool_text(b),
{
    if b {
        String::from_str("true")
    } else {
        String::from_str("false")
    }
}

/// The form that creates `pathname`, as a folder where `is_folder` holds.
pub open spec fn create_fields(pathname: Seq<char>, is_folder: bool) -> Seq<(Seq<char>, Seq<char>)> {
    seq![("isFolder"@, bool_text(is_folder)), ("pathname"@, pathname)]
}

/// The parts of an upload of `data` to `path`.
pub open spec fn upload_parts(path: Seq<char>, data: Seq<u8>) -> Seq<PartView> {
    seq![
        PartView::Text { name: "pathname"@, value: upload_dir(normal_components(path)) },
        PartView::Bytes {
            name: "files"@,
            data,
            file_name: Some(upload_name(normal_components(path))),
            mime: Some("application/octet_stream"@),
        },
    ]
}

/// The query of a listing of `pathname`.
pub open spec fn list_query(pathname: Seq<char>) -> Seq<(Seq<char>, Seq<char>)> {
    seq![("pathname"@, pathname)]
}

impl Client<Authenticated> {
    /// Creates `pathname` on the server, as a folder where `is_folder` holds.
    pub fn create(&self, pathname: &str, is_folder: bool) -> (r: Request)
        ensures
            r@ == form_post(
                self.base(),
                self.token(),
                "/files/create"@,
                create_fields(pathname@, is_folder),
            ),
    {
        let mut fields: Vec<(String, String)> = Vec::new();
        fields.push((String::from_str("isFolder"), bool_string(is_folder)));
        fields.push((String::from_str("pathname"), String::from_str(pathname)));
        proof {
            assert(fields.deep_view() =~= create_fields(pathname@, is_folder));
        }
        self.post("/files/create", fields)
    }

    /// Creates an empty file at `path`.
    pub fn create_file(&self, path: &str) -> (r: Request)
        ensures
            r@ == form_post(
                self.base(),
                self.token(),
                "/files/create"@,
                create_fields(path@, false),
            ),
    {
        self.create(path, false)
    }

    /// Creates a folder at `path`.
    pub fn create_folder(&self, path: &str) -> (r: Request)
        ensures
            r@ == form_post(self.base(), self.token(), "/files/create"@, create_fields(path@, true)),
    {
        self.create(path, true)
    }

    /// Uploads `buffer` as one file: its directory is `/` followed by all plain
    /// names of `path` but the last, its name the last plain name.
    pub fn upload_file(&self, path: &str, buffer: Vec<u8>) -> (r: Request)
        ensures
            r@ == multipart_post(
                self.base(),
                self.token(),
                "/files/upload"@,
                upload_parts(path@, buffer@),
            ),
    {
        let ghost data = buffer@;
        let (dirname, filename) = split_upload_path(path);
        let mut parts: Vec<Part> = Vec::new();
        parts.push(Part::Text { name: String::from_str("pathname"), value: dirname });
        parts.push(
            Part::Bytes {
                name: String::from_str("files"),
                data: buffer,
                file_name: Some(filename),
                mime: Some(String::from_str("application/octet_stream")),
            },
        );
        proof {
            assert(crate::request::parts_view(parts@) =~= upload_parts(path@, data));
        }
        self.multipart("/files/upload", parts)
    }

    /// Lists directory `pathname`, given `query`, the form encoding of
    /// `list_query(pathname)`.
    pub fn list_with_query(&self, query: &str) -> (r: Request)
        ensures
            r@ == auth_get(self.base(), self.token(), "/files/readfolder?"@ + query@),
    {
        let path = String::from_str("/files/readfolder?").concat(query);
        self.get_auth(path.as_str())
    }

    /// Lists directory `pathname`: an authorised GET of `/files/readfolder?`
    /// followed by the form-encoded `pathname`.
    pub fn list(&self, pathname: &str) -> (r: Request)
        ensures
            r@ == auth_get(
                self.base(),
                self.token(),
                "/files/readfolder?"@ + urlencoded(list_query(pathname@)),
            ),
    {
        let mut pairs: Vec<(String, String)> = Vec::new();
        pairs.push((String::from_str("pathname"), String::from_str(pathname)));
        proof {
            assert(pairs.deep_view() =~= list_query(pathname@));
        }
        let query = urlencode(&pairs).unwrap();
        self.list_with_query(query.as_str())
    }

    /// Renames `from` to `to`.
    pub fn rename(&self, from: &str, to: &str) -> (r: Request)
        ensures
            r@ == form_post(
                self.base(),
                self.token(),
                "/files/rename"@,
                seq![("pathname"@, from@), ("newpathname"@, to@)],
            ),
    {
        let mut fields: Vec<(String, String)> = Vec::new();
        fields.push((String::from_str("pathname"), String::from_str(from)));
        fields.push((String::from_str("newpathname"), String::from_str(to)));
        proof {
            assert(fields.deep_view() =~= seq![("pathname"@, from@), ("newpathname"@, to@)]);
        }
        self.post("/files/rename", fields)
    }

    /// Replaces the content of file `pathname` with `content`.
    pub fn edit(&self, pathname: String, content: Vec<u8>) -> (r: Request)
        ensures
            r@ == multipart_post(
                self.base(),
                self.token(),
                "/files/edit"@,
                seq![
                    PartView::Text { name: "pathname"@, value: pathname@ },
                    PartView::Bytes { name: "content"@, data: content@, file_name: None, mime: None },
                ],
            ),
    {
        let ghost p = pathname@;
        let ghost c = content@;
        let mut parts: Vec<Part> = Vec::new();
        parts.push(Part::Text { name: String::from_str("pathname"), value: pathname });
        parts.push(
            Part::Bytes { name: String::from_str("content"), data: content, file_name: None, mime: None },
        );
        proof {
            assert(crate::request::parts_view(parts@) =~= seq![
                PartView::Text { name: "pathname"@, value: p },
                PartView::Bytes { name: "content"@, data: c, file_name: None, mime: None },
            ]);
        }
        self.multipart("/files/edit", parts)
    }

    /// Deletes `pathname`.
    pub fn delete(&self, pathname: String) -> (r: Request)
        ensures
            r@ == form_post(
                self.base(),
                self.token(),
                "/files/delete"@,
                seq![("pathname"@, pathname@)],
            ),
    {
        let ghost p = pathname@;
        let mut fields: Vec<(String, String)> = Vec::new();
        fields.push((String::from_str("pathname"), pathname));
        proof {
            assert(fields.deep_view() =~= seq![("pathname"@, p)]);
        }
        self.post("/files/delete", fields)
    }
}

} // verus!
