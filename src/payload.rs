//! Rendering a descriptor into multipart request payloads.

use vstd::prelude::*;
use vstd::string::*;
use crate::descriptor::{clone_opt, DescriptorModel, TorrentAddDescriptor};
use crate::error::Error;
use crate::text::{bool_spec, bool_text, decimal, decimal_text, joined, join_with};

verus! {

/// A text field of a multipart form.
#[derive(Debug, Clone)]
pub struct TextField {
    pub name: String,
    pub value: String,
}

/// A binary part of a multipart form.
#[derive(Debug, Clone)]
pub struct FilePart {
    /// The form field the part is sent under.
    pub name: String,
    /// The file name announced for the part.
    pub file_name: String,
    /// The MIME type announced for the part.
    pub mime: String,
    pub contents: Vec<u8>,
}

/// A multipart request body: text fields and binary parts, each in order.
#[derive(Debug, Clone)]
pub struct Payload {
    pub fields: Vec<TextField>,
    pub files: Vec<FilePart>,
}

/// A binary part as a mathematical value.
pub struct FileModel {
    pub name: Seq<char>,
    pub file_name: Seq<char>,
    pub mime: Seq<char>,
    pub contents: Seq<u8>,
}

/// A payload as a mathematical value: (name, value) pairs and binary parts.
pub struct PayloadModel {
    pub fields: Seq<(Seq<char>, Seq<char>)>,
    pub files: Seq<FileModel>,
}

impl View for Payload {
    type V = PayloadModel;

    open spec fn view(&self) -> PayloadModel {
        PayloadModel { fields: field_pairs(self.fields@), files: file_models(self.files@) }
    }
}

pub open spec fn field_pairs(s: Seq<TextField>) -> Seq<(Seq<char>, Seq<char>)> {
    s.map_values(|f: TextField| (f.name@, f.value@))
}

pub open spec fn file_models(s: Seq<FilePart>) -> Seq<FileModel> {
    s.map_values(
        |f: FilePart|
            FileModel { name: f.name@, file_name: f.file_name@, mime: f.mime@, contents: f.contents@ },
    )
}

/// One field when the value is present, none otherwise.
pub open spec fn opt_field(name: Seq<char>, v: Option<Seq<char>>) -> Seq<(Seq<char>, Seq<char>)> {
    match v {
        Some(t) => seq![(name, t)],
        None => Seq::empty(),
    }
}

pub open spec fn bool_opt(o: Option<bool>) -> Option<Seq<char>> {
    match o {
        Some(b) => Some(bool_spec(b)),
        None => None,
    }
}

pub open spec fn decimal_opt(o: Option<nat>) -> Option<Seq<char>> {
    match o {
        Some(n) => Some(decimal(n)),
        None => None,
    }
}

pub open spec fn nat_opt64(o: Option<u64>) -> Option<nat> {
    match o {
        Some(n) => Some(n as nat),
        None => None,
    }
}

pub open spec fn nat_opt32(o: Option<u32>) -> Option<nat> {
    match o {
        Some(n) => Some(n as nat),
        None => None,
    }
}

/// The option fields of a descriptor, in their fixed order; shared by both
/// payload kinds.
pub open spec fn settings_fields(d: DescriptorModel) -> Seq<(Seq<char>, Seq<char>)> {
    opt_field("savepath"@, d.savepath)
        + opt_field("cookie"@, d.cookie)
        + opt_field("category"@, d.category)
        + opt_field("tags"@, d.tags)
        + opt_field("skip_checking"@, bool_opt(d.skip_checking))
        + opt_field("paused"@, bool_opt(d.paused))
        + opt_field("root_folder"@, Some(d.root_folder))
        + opt_field("rename"@, d.rename)
        + opt_field("upLimit"@, decimal_opt(nat_opt64(d.up_limit)))
        + opt_field("dlLimit"@, decimal_opt(nat_opt64(d.dl_limit)))
        + opt_field("ratioLimit"@, d.ratio_limit)
        + opt_field("seedingTimeLimit"@, decimal_opt(nat_opt32(d.seeding_time_limit)))
        + opt_field("autoTMM"@, bool_opt(d.auto_tmm))
        + opt_field("sequentialDownload"@, bool_opt(d.sequential_download))
        + opt_field("firstLastPiecePrio"@, bool_opt(d.first_last_piece_prio))
}

/// The payload for the links: all links concatenated in one `urls` field,
/// then the option fields; no binary part.
pub open spec fn urls_payload_spec(d: DescriptorModel) -> PayloadModel {
    PayloadModel {
        fields: seq![("urls"@, joined(d.urls, Seq::empty()))] + settings_fields(d),
        files: Seq::empty(),
    }
}

/// The binary part that carries one torrent file.
pub open spec fn torrent_file_part(contents: Seq<u8>) -> FileModel {
    FileModel {
        name: "torrents"@,
        file_name: "torrent_file.torrent"@,
        mime: "application/x-bittorrent"@,
        contents,
    }
}

/// Whether every file was read.
pub open spec fn all_read(reads: Seq<Option<Vec<u8>>>) -> bool {
    forall|i: int| 0 <= i < reads.len() ==> #[trigger] reads[i] is Some
}

/// The payload for the files: one binary part per file, in order, then the
/// option fields.
pub open spec fn torrents_payload_spec(d: DescriptorModel, reads: Seq<Option<Vec<u8>>>) -> PayloadModel {
    PayloadModel {
        fields: settings_fields(d),
        files: Seq::new(reads.len(), |i: int| torrent_file_part(reads[i]->Some_0@)),
    }
}

fn bool_opt_text(o: Option<bool>) -> (r: Option<String>)
    ensures
        r.deep_view() == bool_opt(o),
{
    match o {
        Some(b) => Some(bool_text(b)),
        None => None,
    }
}

fn decimal_opt_text(o: Option<u64>) -> (r: Option<String>)
    ensures
        r.deep_view() == decimal_opt(nat_opt64(o)),
{
    match o {
        Some(n) => Some(decimal_text(n)),
        None => None,
    }
}

fn push_opt(fields: &mut Vec<TextField>, name: &str, v: Option<String>)
    ensures
        field_pairs(final(fields)@) == field_pairs(old(fields)@) + opt_field(name@, v.deep_view()),
{
    match v {
        Some(value) => {
            fields.push(TextField { name: String::from_str(name), value });
            assert(field_pairs(final(fields)@) =~= field_pairs(old(fields)@) + opt_field(
                name@,
                Some(value@),
            ));
        },
        None => {
            assert(field_pairs(final(fields)@) =~= field_pairs(old(fields)@) + opt_field(name@, None));
        },
    }
}

/// The option fields of the descriptor.
fn settings_list(d: &TorrentAddDescriptor) -> (r: Vec<TextField>)
    ensures
        field_pairs(r@) == settings_fields(d@),
{
    let mut fields: Vec<TextField> = Vec::new();
    push_opt(&mut fields, "savepath", clone_opt(d.savepath()));
    assert(field_pairs(fields@) =~= opt_field("savepath"@, d@.savepath));
    push_opt(&mut fields, "cookie", clone_opt(d.cookie()));
    push_opt(&mut fields, "category", clone_opt(d.category()));
    push_opt(&mut fields, "tags", clone_opt(d.tags()));
    push_opt(&mut fields, "skip_checking", bool_opt_text(d.skip_checking()));
    push_opt(&mut fields, "paused", bool_opt_text(d.paused()));
    push_opt(&mut fields, "root_folder", Some(d.root_folder().clone()));
    push_opt(&mut fields, "rename", clone_opt(d.rename()));
    push_opt(&mut fields, "upLimit", decimal_opt_text(d.up_limit()));
    push_opt(&mut fields, "dlLimit", decimal_opt_text(d.dl_limit()));
    push_opt(&mut fields, "ratioLimit", clone_opt(d.ratio_limit()));
    let seeding = match d.seeding_time_limit() {
        Some(n) => Some(n as u64),
        None => None,
    };
    assert(nat_opt64(seeding) == nat_opt32(d@.seeding_time_limit));
    push_opt(&mut fields, "seedingTimeLimit", decimal_opt_text(seeding));
    push_opt(&mut fields, "autoTMM", bool_opt_text(d.auto_tmm()));
    push_opt(&mut fields, "sequentialDownload", bool_opt_text(d.sequential_download()));
    push_opt(&mut fields, "firstLastPiecePrio", bool_opt_text(d.first_last_piece_prio()));
    fields
}

/// The payload for the descriptor's links: one `urls` field holding all links
/// concatenated with no separator, then the option fields, and no binary part.
pub fn urls_part(d: &TorrentAddDescriptor) -> (r: Payload)
    ensures
        r@ == urls_payload_spec(d@),
{
    let mut fields: Vec<TextField> = Vec::new();
    let urls = join_with(d.urls(), "");
    proof {
        reveal_strlit("");
        assert(""@ =~= Seq::<char>::empty());
    }
    fields.push(TextField { name: String::from_str("urls"), value: urls });
    let mut settings = settings_list(d);
    let ghost head = fields@;
    let ghost tail = settings@;
    fields.append(&mut settings);
    assert(field_pairs(fields@) =~= field_pairs(head) + field_pairs(tail));
    let r = Payload { fields, files: Vec::new() };
    assert(r@.fields =~= urls_payload_spec(d@).fields);
    assert(r@.files =~= urls_payload_spec(d@).files);
    r
}

/// The payload for the descriptor's local files, given what reading each of
/// them gave (`None` where a file could not be opened or read in full): fails
/// with `TorrentFilePathError` when any read failed, so that no subset of the
/// files is sent; otherwise one binary part per file, in order, then the
/// option fields.
pub fn torrents_part(d: &TorrentAddDescriptor, reads: Vec<Option<Vec<u8>>>) -> (r: Result<Payload, Error>)
    requires
        reads@.len() == d@.paths.len(),
    ensures
        r is Ok <==> all_read(reads@),
        r matches Ok(p) ==> p@ == torrents_payload_spec(d@, reads@),
        r matches Err(e) ==> e is TorrentFilePathError,
{
    let ghost all = reads@;
    let n = reads.len();
    let mut rest = reads;
    let mut files: Vec<FilePart> = Vec::new();
    let mut i: usize = 0;
    while i < n
        invariant
            n == all.len(),
            all == reads@,
            i <= n,
            rest@ == all.subrange(i as int, n as int),
            forall|j: int| 0 <= j < i ==> #[trigger] all[j] is Some,
            file_models(files@) =~= Seq::new(i as nat, |j: int| torrent_file_part(all[j]->Some_0@)),
        decreases n - i,
    {
        let item = rest.remove(0);
        assert(item == all[i as int]);
        let ghost prev = files@;
        match item {
            Some(contents) => {
                files.push(FilePart {
                    name: String::from_str("torrents"),
                    file_name: String::from_str("torrent_file.torrent"),
                    mime: String::from_str("application/x-bittorrent"),
                    contents,
                });
                assert(file_models(files@) =~= file_models(prev).push(
                    torrent_file_part(all[i as int]->Some_0@),
                ));
            },
            None => {
                assert(all[i as int] is None);
                assert(!all_read(all));
                return Err(Error::TorrentFilePathError);
            },
        }
        i = i + 1;
        assert(rest@ =~= all.subrange(i as int, n as int));
    }
    let fields = settings_list(d);
    let r = Payload { fields, files };
    assert(r@.fields =~= torrents_payload_spec(d@, all).fields);
    assert(r@.files =~= torrents_payload_spec(d@, all).files);
    Ok(r)
}

/// The link payload has no binary part; the file payload has one binary part
/// per file, in file order, each with the file's bytes under the fixed field
/// name, file name and MIME type; and both carry the same option fields.
pub proof fn lemma_payload_parts(d: DescriptorModel, reads: Seq<Option<Vec<u8>>>)
    ensures
        urls_payload_spec(d).files.len() == 0,
        torrents_payload_spec(d, reads).files.len() == reads.len(),
        forall|i: int|
            0 <= i < reads.len() ==> #[trigger] torrents_payload_spec(d, reads).files[i]
                == torrent_file_part(reads[i]->Some_0@),
        urls_payload_spec(d).fields.drop_first() == torrents_payload_spec(d, reads).fields,
{
    assert(urls_payload_spec(d).fields.drop_first() =~= settings_fields(d));
}

/// Rendering is deterministic: two link payloads of one descriptor are equal,
/// field for field, and so are two file payloads of one descriptor from the
/// same file contents.
pub proof fn lemma_render_deterministic(
    d: DescriptorModel,
    reads: Seq<Option<Vec<u8>>>,
    u1: Payload,
    u2: Payload,
    t1: Payload,
    t2: Payload,
)
    requires
        u1@ == urls_payload_spec(d),
        u2@ == urls_payload_spec(d),
        t1@ == torrents_payload_spec(d, reads),
        t2@ == torrents_payload_spec(d, reads),
    ensures
        u1@ == u2@,
        t1@ == t2@,
{
}

} // verus!
