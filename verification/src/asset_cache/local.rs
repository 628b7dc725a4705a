//! Where a store on the local file system keeps an asset, and what it tells
//! a player.

use vstd::prelude::*;
use crate::asset_cache::AssetError;
use crate::text::join;

verus! {

/// A store of asset bytes below a directory of the local file system.
#[derive(Debug, Clone, PartialEq, Eq)]
pub struct LocalBinaryStore {
    base_path: String,
    base_url: String,
}

/// The value that a [`LocalBinaryStore`] stands for.
pub struct LocalBinaryStoreView {
    /// The directory below which the assets are kept.
    pub base_path: Seq<char>,
    /// The URL of the server that hands the assets out.
    pub base_url: Seq<char>,
}

impl View for LocalBinaryStore {
    type V = LocalBinaryStoreView;

    closed spec fn view(&self) -> LocalBinaryStoreView {
        LocalBinaryStoreView { base_path: self.base_path@, base_url: self.base_url@ }
    }
}

/// The names, from the top down, of the directories and the file in which
/// the asset of a hash is kept: the first two characters of the hash, the
/// next two, and the rest. A hash of less than four characters is the name
/// of a file at the top.
pub open spec fn path_components(hash: Seq<char>) -> Seq<Seq<char>> {
    if hash.len() < 4 {
        seq![hash]
    } else {
        seq![hash.subrange(0, 2), hash.subrange(2, 4), hash.subrange(4, hash.len() as int)]
    }
}

/// The URL, relative to the server, at which the asset of a name is handed
/// out: `/assets/` and the name.
pub open spec fn asset_url(name: Seq<char>) -> Seq<char> {
    seq!['/', 'a', 's', 's', 'e', 't', 's', '/'] + name
}

/// The form of a text as a JSON string, between quotes and with what JSON
/// asks to be escaped.
pub uninterp spec fn json_string(text: Seq<char>) -> Seq<char>;

/// `serde_json::to_string` on a string, which gives the text as a JSON
/// string. The call is documented to fail for a value that refuses to be
/// serialized and for a map whose keys are no strings; a string is neither,
/// and it is written into memory, so the call gives a result for every
/// string.
#[verifier::external_body]
fn to_json_string(text: &str) -> (r: Option<String>)
    ensures
        r is Some,
        r matches Some(quoted) ==> quoted@ == json_string(text@),
{
    serde_json::to_string(text).ok()
}

/// The JSON object with the one member `base_url`, whose value is given in
/// its JSON form.
pub open spec fn config_text(quoted_url: Seq<char>) -> Seq<char> {
    seq!['{', '"', 'b', 'a', 's', 'e', '_', 'u', 'r', 'l', '"', ':'] + quoted_url + seq!['}']
}

/// The JSON object with the one member `base_url`, whose value is given in
/// its JSON form.
pub fn config_with(quoted_url: &str) -> (text: String)
    ensures
        text@ == config_text(quoted_url@),
{
    let mut text = join("{\"base_url\":", quoted_url);
    text.append("}");
    proof {
        reveal_strlit("{\"base_url\":");
        reveal_strlit("}");
        assert(text@ =~= config_text(quoted_url@));
    }
    text
}

impl LocalBinaryStore {
    /// A store below `base_path`, whose assets the server at `base_url`
    /// hands out.
    pub fn new(base_path: String, base_url: String) -> (store: LocalBinaryStore)
        ensures
            store@ == (LocalBinaryStoreView { base_path: base_path@, base_url: base_url@ }),
    {
        LocalBinaryStore { base_path, base_url }
    }

    /// The directory below which the assets are kept.
    pub fn base_path(&self) -> (path: &str)
        ensures
            path@ == self@.base_path,
    {
        self.base_path.as_str()
    }

    /// The names, from the top down, of the directories and the file below
    /// the base path in which the asset of a hash is kept.
    pub fn hash_to_path(&self, hash: &str) -> (path: Vec<String>)
        ensures
            path.deep_view() == path_components(hash@),
    {
        let n: usize = hash.unicode_len();
        let mut path: Vec<String> = Vec::new();
        if n < 4 {
            path.push(hash.to_owned());
        } else {
            path.push(hash.substring_char(0, 2).to_owned());
            path.push(hash.substring_char(2, 4).to_owned());
            path.push(hash.substring_char(4, n).to_owned());
        }
        assert(path.deep_view() =~= path_components(hash@));
        path
    }

    /// The URL, relative to the server, at which the asset of a name is
    /// handed out.
    pub fn resolve_url(&self, hash: &str) -> (r: Result<String, AssetError>)
        ensures
            r matches Ok(url) && url@ == asset_url(hash@),
    {
        proof {
            reveal_strlit("/assets/");
            assert("/assets/"@ =~= seq!['/', 'a', 's', 's', 'e', 't', 's', '/']);
        }
        Ok(join("/assets/", hash))
    }

    /// The kind of the store: `local`.
    pub fn storage_type(&self) -> (kind: String)
        ensures
            kind@ == seq!['l', 'o', 'c', 'a', 'l'],
    {
        proof {
            reveal_strlit("local");
            assert("local"@ =~= seq!['l', 'o', 'c', 'a', 'l']);
        }
        "local".to_owned()
    }

    /// What a player has to know of the store: a JSON object with the base
    /// URL of the server. Every base URL has a JSON form, so there always is
    /// such an object.
    pub fn config_json(&self) -> (r: Result<String, AssetError>)
        ensures
            r matches Ok(text) && text@ == config_text(json_string(self@.base_url)),
    {
        match to_json_string(self.base_url.as_str()) {
            Some(quoted) => Ok(config_with(quoted.as_str())),
            None => Err(AssetError::Storage("the base URL has no JSON form".to_owned())),
        }
    }
}

} // verus!
