//! An upload of a file to Dropbox: the headers of the request. Sending it
//! is the caller's part.

use crate::json::{json_encoded, lemma_object_view, Json, JsonView, Member, MemberView};
use crate::result::FdownError;
use vstd::prelude::*;

verus! {

/// The address that uploads are posted to.
pub open spec fn upload_url() -> Seq<char> {
    "https://content.dropboxapi.com/2/files/upload"@
}

/// How a file is to be stored.
#[derive(Debug, Clone, PartialEq, Eq)]
pub struct DropboxUploadAPI {
    pub path: String,
    pub mode: String,
    pub autorename: bool,
    pub mute: bool,
}

/// How an upload to `path` is stored: added under a new name if the path is
/// taken, and announced to the user.
pub open spec fn upload_arguments(path: Seq<char>) -> JsonView {
    JsonView::Object(
        seq![
            MemberView { name: "path"@, value: JsonView::Str(path) },
            MemberView { name: "mode"@, value: JsonView::Str("add"@) },
            MemberView { name: "autorename"@, value: JsonView::Bool(true) },
            MemberView { name: "mute"@, value: JsonView::Bool(false) },
        ],
    )
}

/// The JSON object that `api` is sent as.
pub open spec fn api_json(api: DropboxUploadAPI) -> JsonView {
    JsonView::Object(
        seq![
            MemberView { name: "path"@, value: JsonView::Str(api.path@) },
            MemberView { name: "mode"@, value: JsonView::Str(api.mode@) },
            MemberView { name: "autorename"@, value: JsonView::Bool(api.autorename) },
            MemberView { name: "mute"@, value: JsonView::Bool(api.mute) },
        ],
    )
}

/// The address that uploads are posted to.
pub fn upload_address() -> (url: &'static str)
    ensures
        url@ == upload_url(),
{
    "https://content.dropboxapi.com/2/files/upload"
}

/// An account to upload to.
#[derive(Debug)]
pub struct Dropbox {
    pub token: String,
}

impl Dropbox {
    /// The account that is known to Dropbox by `token`.
    pub fn new(token: &str) -> (dropbox: Dropbox)
        ensures
            dropbox.token@ == token@,
    {
        Dropbox { token: token.to_owned() }
    }

    /// The value of the authorization header of an upload.
    pub fn auth_header(&self) -> (value: String)
        ensures
            value@ == "Bearer "@ + self.token@,
    {
        let mut value = "Bearer ".to_owned();
        value.append(self.token.as_str());
        value
    }

    /// How an upload to `path` is stored.
    pub fn upload_api(path: &str) -> (api: DropboxUploadAPI)
        ensures
            api_json(api) == upload_arguments(path@),
    {
        DropboxUploadAPI {
            path: path.to_owned(),
            mode: "add".to_owned(),
            autorename: true,
            mute: false,
        }
    }

    /// The bytes of the header that says how an upload is stored: `api` as
    /// JSON text. It fails with `SerdeJson` exactly where that text cannot
    /// be written.
    pub fn api_header(&self, api: &DropboxUploadAPI) -> (r: Result<Vec<u8>, FdownError>)
        ensures
            match r {
                Ok(bytes) => json_encoded(api_json(*api)) == Some(bytes@),
                Err(e) => json_encoded(api_json(*api)) is None && e is SerdeJson,
            },
    {
        let mut members: Vec<Member> = Vec::new();
        members.push(Member { name: "path".to_owned(), value: Json::Str(api.path.clone()) });
        members.push(Member { name: "mode".to_owned(), value: Json::Str(api.mode.clone()) });
        members.push(Member { name: "autorename".to_owned(), value: Json::Bool(api.autorename) });
        members.push(Member { name: "mute".to_owned(), value: Json::Bool(api.mute) });
        proof {
            lemma_object_view(members);
            assert(Json::Object(members)@->Object_0 =~= api_json(*api)->Object_0);
        }
        Json::Object(members).to_bytes()
    }
}

} // verus!
