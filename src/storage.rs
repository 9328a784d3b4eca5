//! Where stored bytes go, and how they are read back from the host.
use vstd::prelude::*;
use vstd::string::*;
use crate::flate::{base64_decoded, base64_of, gunzip_of, gzip_of, unzip64, zip64};
use crate::js_convert::{ConversionError, FromJsObject};
use crate::js_value::JsValue;

verus! {

/// Why saving or loading failed.
#[derive(Debug)]
pub enum StorageError {
    /// Compressing the bytes failed.
    Compress,
    /// The stored bytes were not a valid gzip stream.
    Decompress,
    /// The stored text was not valid URL-safe base64.
    Base64,
    /// The host's storage reported an error.
    Host(String),
    /// The host's reply was not of the expected shape.
    Reply(ConversionError),
}

/// Where data is stored.
///
/// - On desktop, under `<data dir>/{bin_name}/v{version}/{profile}.dat`.
/// - In the browser's storage, under the key `{bin_name}/v{version}/{profile}`.
#[derive(Debug, Clone)]
pub struct Location {
    /// The name of the program.
    pub bin_name: String,
    /// The version of the program, or of its stored format.
    pub version: String,
    /// The profile name, `"default"` by default.
    pub profile: String,
}

/// What the host's storage is asked to hold: `value` under `key`.
#[derive(Debug, Clone)]
pub struct StoreRequest {
    pub key: String,
    pub value: String,
}

impl Location {
    /// The storage key, `{bin_name}/v{version}/{profile}`.
    pub open spec fn key_spec(&self) -> Seq<char> {
        self.bin_name@ + "/v"@ + self.version@ + "/"@ + self.profile@
    }

    /// The path below the data directory, one component each:
    /// `{bin_name}`, `v{version}`, `{profile}.dat`.
    pub open spec fn file_parts_spec(&self) -> Seq<Seq<char>> {
        seq![self.bin_name@, "v"@ + self.version@, self.profile@ + ".dat"@]
    }

    /// The key to store data under in the browser's storage.
    pub fn key(&self) -> (r: String)
        ensures
            r@ == self.key_spec(),
    {
        let mut r = self.bin_name.clone();
        r.append("/v");
        r.append(self.version.as_str());
        r.append("/");
        r.append(self.profile.as_str());
        r
    }

    /// The components of the file's path below the data directory.
    pub fn file_parts(&self) -> (r: Vec<String>)
        ensures
            r@.len() == 3,
            forall|i: int| 0 <= i < 3 ==> #[trigger] r@[i]@ == self.file_parts_spec()[i],
    {
        let mut dir = String::from_str("v");
        dir.append(self.version.as_str());
        let mut file = self.profile.clone();
        file.append(".dat");
        let mut r: Vec<String> = Vec::new();
        r.push(self.bin_name.clone());
        r.push(dir);
        r.push(file);
        r
    }
}

impl Default for Location {
    fn default() -> (r: Self)
        ensures
            r.bin_name@ == "quad-wasmnastics"@,
            r.version@ == "0.1.0"@,
            r.profile@ == "default"@,
    {
        Location {
            bin_name: String::from_str("quad-wasmnastics"),
            version: String::from_str("0.1.0"),
            profile: String::from_str("default"),
        }
    }
}

/// What to store so that `data` is saved at `location`: the bytes, gzipped
/// and written as URL-safe base64, under the location's key.
pub fn save_to(data: &[u8], location: &Location) -> (r: Result<StoreRequest, StorageError>)
    ensures
        r is Ok,
        r matches Ok(req) ==> req.key@ == location.key_spec() && req.value@ == base64_of(
            gzip_of(data@),
        ) && base64_decoded(req.value@) == Some(gzip_of(data@)) && gunzip_of(gzip_of(data@))
            == Some(data@),
{
    match zip64(data) {
        Ok(value) => Ok(StoreRequest { key: location.key(), value }),
        Err(e) => Err(e),
    }
}

/// What to store so that `data` is saved at the default location.
pub fn save(data: &[u8]) -> (r: Result<StoreRequest, StorageError>)
    ensures
        r is Ok,
        r matches Ok(req) ==> req.key@ == "quad-wasmnastics/v0.1.0/default"@ && req.value@ == base64_of(gzip_of(data@))
            && base64_decoded(req.value@) == Some(gzip_of(data@)) && gunzip_of(gzip_of(data@))
            == Some(data@),
{
    let location = Location::default();
    proof {
        reveal_strlit("quad-wasmnastics/v0.1.0/default");
        reveal_strlit("quad-wasmnastics");
        reveal_strlit("0.1.0");
        reveal_strlit("default");
        reveal_strlit("/v");
        reveal_strlit("/");
        assert(location.key_spec() =~= "quad-wasmnastics/v0.1.0/default"@);
    }
    save_to(data, &location)
}

/// Reads the host's reply to a save, `{ ok: .. }` or `{ err: <message> }`.
pub fn finish_save(reply: JsValue) -> (r: Result<(), StorageError>)
    ensures
        match <Result<(), String> as FromJsObject>::decoded(reply) {
            Some(Ok(())) => r is Ok,
            Some(Err(msg)) => r == Err::<(), StorageError>(StorageError::Host(msg)),
            None => r matches Err(StorageError::Reply(e)) && <Result<
                (),
                String,
            > as FromJsObject>::rejects(reply, e),
        },
{
    match <Result<(), String> as FromJsObject>::from_js(reply) {
        Ok(Ok(())) => Ok(()),
        Ok(Err(msg)) => Err(StorageError::Host(msg)),
        Err(e) => Err(StorageError::Reply(e)),
    }
}

/// Reads the bytes out of the host's reply to a load, `{ ok: <base64 of
/// gzip> }` or `{ err: <message> }`.
pub fn load(reply: JsValue) -> (r: Result<Vec<u8>, StorageError>)
    ensures
        match <Result<String, String> as FromJsObject>::decoded(reply) {
            Some(Ok(text)) => match base64_decoded(text@) {
                Some(z) => match gunzip_of(z) {
                    Some(d) => r matches Ok(v) && v@ == d,
                    None => r matches Err(e) && e is Decompress,
                },
                None => r matches Err(e) && e is Base64,
            },
            Some(Err(msg)) => r == Err::<Vec<u8>, StorageError>(StorageError::Host(msg)),
            None => r matches Err(StorageError::Reply(e)) && <Result<
                String,
                String,
            > as FromJsObject>::rejects(reply, e),
        },
{
    match <Result<String, String> as FromJsObject>::from_js(reply) {
        Ok(Ok(text)) => unzip64(text.as_str()),
        Ok(Err(msg)) => Err(StorageError::Host(msg)),
        Err(e) => Err(StorageError::Reply(e)),
    }
}

} // verus!
