//! Turning a rendered payload into a reqwest multipart form.

use vstd::prelude::*;
use crate::error::Error;
use crate::payload::{FileModel, FilePart, Payload, PayloadModel, TextField};

verus! {

#[verifier::external_type_specification]
#[verifier::external_body]
pub struct ExForm(reqwest::multipart::Form);

#[verifier::external_type_specification]
#[verifier::external_body]
pub struct ExPart(reqwest::multipart::Part);

/// The body of a form part.
pub enum PartBody {
    Text(Seq<char>),
    Bytes(Seq<u8>),
}

/// A form part as a mathematical value.
pub struct PartModel {
    pub body: PartBody,
    pub file_name: Option<Seq<char>>,
    /// The text that the part's MIME type was parsed from.
    pub mime: Option<Seq<char>>,
}

/// The named parts of a form, in the order they were added.
pub uninterp spec fn form_entries(f: reqwest::multipart::Form) -> Seq<(Seq<char>, PartModel)>;

/// What a part carries.
pub uninterp spec fn part_model(p: reqwest::multipart::Part) -> PartModel;

/// Relies on `reqwest::multipart::Form::new`: a form without any part.
#[verifier::external_body]
fn form_new() -> (r: reqwest::multipart::Form)
    ensures
        form_entries(r) == Seq::<(Seq<char>, PartModel)>::empty(),
{
    reqwest::multipart::Form::new()
}

/// Relies on `reqwest::multipart::Form::text`: appends a text part under the
/// name.
#[verifier::external_body]
fn form_text(f: reqwest::multipart::Form, name: String, value: String) -> (r: reqwest::multipart::Form)
    ensures
        form_entries(r) == form_entries(f).push(
            (name@, PartModel { body: PartBody::Text(value@), file_name: None, mime: None }),
        ),
{
    f.text(name, value)
}

/// Relies on `reqwest::multipart::Form::part`: appends the part under the name.
#[verifier::external_body]
fn form_part(f: reqwest::multipart::Form, name: String, p: reqwest::multipart::Part) -> (r: reqwest::multipart::Form)
    ensures
        form_entries(r) == form_entries(f).push((name@, part_model(p))),
{
    f.part(name, p)
}

/// Relies on `reqwest::multipart::Part::bytes`: a part holding the bytes, with
/// no file name and no MIME type.
#[verifier::external_body]
fn part_bytes(contents: Vec<u8>) -> (r: reqwest::multipart::Part)
    ensures
        part_model(r) == (PartModel { body: PartBody::Bytes(contents@), file_name: None, mime: None }),
{
    reqwest::multipart::Part::bytes(contents)
}

/// Relies on `reqwest::multipart::Part::file_name`: sets the file name and
/// keeps the rest.
#[verifier::external_body]
fn part_file_name(p: reqwest::multipart::Part, file_name: String) -> (r: reqwest::multipart::Part)
    ensures
        part_model(r) == (PartModel { file_name: Some(file_name@), ..part_model(p) }),
{
    p.file_name(file_name)
}

/// What a part's MIME type holds when it was set from this text: the text as
/// the MIME parser keeps it.
pub uninterp spec fn parsed_mime(text: Seq<char>) -> Seq<char>;

/// A character that MIME type and subtype names may hold and that the MIME
/// parser keeps as it is: a lowercase ASCII letter, a digit, `-` or `.`.
pub open spec fn is_plain_mime_char(c: char) -> bool {
    ('a' <= c && c <= 'z') || ('0' <= c && c <= '9') || c == '-' || c == '.'
}

/// A MIME type in the form the parser keeps unchanged: a non-empty type and a
/// non-empty subtype of plain characters around one `/`, with no parameters.
pub open spec fn is_plain_mime(s: Seq<char>) -> bool {
    exists|k: int|
        0 < k < s.len() - 1 && s[k] == '/' && (forall|i: int|
            0 <= i < s.len() && i != k ==> is_plain_mime_char(#[trigger] s[i]))
}

/// The MIME type of torrent files is in plain form.
pub proof fn lemma_torrent_mime_plain()
    ensures
        is_plain_mime("application/x-bittorrent"@),
{
    reveal_strlit("application/x-bittorrent");
    let s = "application/x-bittorrent"@;
    assert(s[11] == '/');
    assert(forall|i: int| 0 <= i < s.len() && i != 11 ==> is_plain_mime_char(#[trigger] s[i]));
}

/// Relies on `reqwest::multipart::Part::mime_str`, which parses the text with
/// the `mime` crate: when the text parses, the part keeps the rest and takes
/// the parsed MIME type; a type in plain form parses and is kept as written.
/// The parse error is dropped here.
#[verifier::external_body]
fn part_mime_str(p: reqwest::multipart::Part, mime: &str) -> (r: Option<reqwest::multipart::Part>)
    ensures
        r matches Some(q) ==> part_model(q) == (PartModel {
            mime: Some(parsed_mime(mime@)),
            ..part_model(p)
        }),
        is_plain_mime(mime@) ==> (r is Some && part_model(r->Some_0).mime == Some(mime@)),
{
    p.mime_str(mime).ok()
}

/// The part that carries a binary part of a payload.
pub open spec fn file_entry(f: FileModel) -> (Seq<char>, PartModel) {
    (
        f.name,
        PartModel {
            body: PartBody::Bytes(f.contents),
            file_name: Some(f.file_name),
            mime: Some(parsed_mime(f.mime)),
        },
    )
}

/// The part that carries a text field of a payload.
pub open spec fn text_entry(t: (Seq<char>, Seq<char>)) -> (Seq<char>, PartModel) {
    (t.0, PartModel { body: PartBody::Text(t.1), file_name: None, mime: None })
}

/// The form of a payload: its binary parts, then its text fields, each in order.
pub open spec fn form_spec(p: PayloadModel) -> Seq<(Seq<char>, PartModel)> {
    p.files.map_values(|f: FileModel| file_entry(f)) + p.fields.map_values(
        |t: (Seq<char>, Seq<char>)| text_entry(t),
    )
}

/// The multipart form of a payload: its binary parts, then its text fields,
/// part for part. Fails with `InvalidMimeType` only when a binary part's MIME
/// type does not parse, so never for a payload without binary parts.
pub fn to_form(p: Payload) -> (r: Result<reqwest::multipart::Form, Error>)
    ensures
        r matches Ok(f) ==> form_entries(f) == form_spec(p@),
        r matches Err(e) ==> e is InvalidMimeType,
        (forall|i: int| 0 <= i < p@.files.len() ==> is_plain_mime(#[trigger] p@.files[i].mime))
            ==> r is Ok,
        r matches Ok(f) ==> forall|i: int|
            0 <= i < p@.files.len() && is_plain_mime(#[trigger] p@.files[i].mime)
                ==> form_entries(f)[i].1.mime == Some(p@.files[i].mime),
        (forall|i: int|
            0 <= i < p@.files.len() ==> #[trigger] p@.files[i].mime == "application/x-bittorrent"@)
            ==> r is Ok,
{
    proof {
        lemma_torrent_mime_plain();
    }
    let Payload { fields, files } = p;
    let ghost file_parts = files@;
    let ghost text_fields = fields@;
    let ghost file_seq = p@.files;
    let ghost field_seq = p@.fields;
    let mut form = form_new();
    let nf = files.len();
    let mut files = files;
    let mut i: usize = 0;
    while i < nf
        invariant
            nf == file_parts.len(),
            file_parts == p.files@,
            file_seq == p@.files,
            is_plain_mime("application/x-bittorrent"@),
            file_seq == crate::payload::file_models(file_parts),
            i <= nf,
            files@ == file_parts.subrange(i as int, nf as int),
            form_entries(form) == file_seq.take(i as int).map_values(|f: FileModel| file_entry(f)),
            forall|j: int|
                0 <= j < i && is_plain_mime(#[trigger] file_seq[j].mime) ==> parsed_mime(
                    file_seq[j].mime,
                ) == file_seq[j].mime,
        decreases nf - i,
    {
        let part = files.remove(0);
        assert(part == file_parts[i as int]);
        let FilePart { name, file_name, mime, contents } = part;
        let bytes = part_bytes(contents);
        let named = part_file_name(bytes, file_name);
        let typed = match part_mime_str(named, mime.as_str()) {
            Some(q) => q,
            None => {
                assert(file_seq[i as int].mime == mime@);
                return Err(Error::InvalidMimeType);
            },
        };
        form = form_part(form, name, typed);
        assert(file_seq.take(i + 1).map_values(|f: FileModel| file_entry(f)) =~= file_seq.take(
            i as int,
        ).map_values(|f: FileModel| file_entry(f)).push(file_entry(file_seq[i as int])));
        i = i + 1;
        assert(files@ =~= file_parts.subrange(i as int, nf as int));
    }
    assert(file_seq.take(nf as int) =~= file_seq);
    let ghost head = form_entries(form);
    let nt = fields.len();
    let mut fields = fields;
    let mut k: usize = 0;
    while k < nt
        invariant
            nt == text_fields.len(),
            field_seq == crate::payload::field_pairs(text_fields),
            k <= nt,
            fields@ == text_fields.subrange(k as int, nt as int),
            form_entries(form) == head + field_seq.take(k as int).map_values(
                |t: (Seq<char>, Seq<char>)| text_entry(t),
            ),
        decreases nt - k,
    {
        let field = fields.remove(0);
        assert(field == text_fields[k as int]);
        let TextField { name, value } = field;
        form = form_text(form, name, value);
        assert(field_seq.take(k + 1).map_values(|t: (Seq<char>, Seq<char>)| text_entry(t))
            =~= field_seq.take(k as int).map_values(|t: (Seq<char>, Seq<char>)| text_entry(t)).push(
            text_entry(field_seq[k as int]),
        ));
        k = k + 1;
        assert(fields@ =~= text_fields.subrange(k as int, nt as int));
    }
    assert(field_seq.take(nt as int) =~= field_seq);
    assert(form_entries(form) =~= form_spec(p@));
    Ok(form)
}

} // verus!
