use vstd::prelude::*;

verus! {

#[verifier::external_type_specification]
#[verifier::external_body]
pub struct ExReader(c2pa::Reader);

/// The file extension of the type that a buffer's signature shows, where one is known.
pub uninterp spec fn inferred_extension(buf: Seq<u8>) -> Option<Seq<char>>;

/// Relies on infer::get, and the extension field of the type it finds: the file extension of
/// the type that the bytes' signature shows, if known.
#[verifier::external_body]
fn infer_extension(buf: &[u8]) -> (r: Option<String>)
    ensures
        r is Some <==> inferred_extension(buf@) is Some,
        r is Some ==> r->0@ == inferred_extension(buf@)->0,
{
    infer::get(buf).map(|t| t.extension().to_owned())
}

/// Relies on c2pa::Reader::from_stream: reads the manifest store of an asset held in memory,
/// in the given format, or gives the message of its error.
#[verifier::external_body]
#[allow(deprecated)]
fn read_manifest(format: &str, bytes: &[u8]) -> (r: Result<c2pa::Reader, String>) {
    match c2pa::Reader::from_stream(format, std::io::Cursor::new(bytes)) {
        Ok(reader) => Ok(reader),
        Err(e) => Err(e.to_string()),
    }
}

/// Relies on c2pa::Reader::json_checked: the JSON report of a manifest store, or the message
/// of its error.
#[verifier::external_body]
fn manifest_json(reader: &c2pa::Reader) -> (r: Result<String, String>) {
    match reader.json_checked() {
        Ok(json) => Ok(json),
        Err(e) => Err(e.to_string()),
    }
}

/// The error for a request that carried no raw bytes.
pub open spec fn incorrect_call_message() -> Seq<char> {
    "Incorrect call to c2pa_report command"@
}

/// The error for bytes whose file type is unknown.
pub open spec fn unknown_type_message() -> Seq<char> {
    "Could not get MIME type for file"@
}

/// The format to read an asset in, from the extension found for it: without one there is no
/// report.
pub fn report_format(extension: Option<String>) -> (r: Result<String, String>)
    ensures
        extension is None ==> r is Err && r->Err_0@ == unknown_type_message(),
        extension is Some ==> r is Ok && r->Ok_0@ == extension->0@,
{
    match extension {
        Some(ext) => Ok(ext),
        None => Err("Could not get MIME type for file".to_owned()),
    }
}

/// The manifest report of an asset whose bytes the request carried (`None` for a request that
/// carried none): its file type is found from its signature, then its manifest store is read
/// and written out as JSON.
pub fn c2pa_report(body: Option<&[u8]>) -> (r: Result<String, String>)
    ensures
        body is None ==> r is Err && r->Err_0@ == incorrect_call_message(),
        body is Some && inferred_extension(body->0@) is None ==> r is Err && r->Err_0@
            == unknown_type_message(),
{
    match body {
        Some(bytes) => {
            let format = report_format(infer_extension(bytes))?;
            let reader = read_manifest(format.as_str(), bytes)?;
            manifest_json(&reader)
        },
        None => Err("Incorrect call to c2pa_report command".to_owned()),
    }
}

} // verus!
