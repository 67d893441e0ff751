//! Typed construction and dispatch logic for adding torrents through the
//! qBittorrent WebUI API.
//!
//! The library partitions a mixed batch of torrent sources, validates and
//! normalizes the add options, renders the multipart request payloads and
//! their reqwest forms, and decides how the one or two resulting requests are
//! sent and how their outcomes combine. Performing the requests is left to
//! the caller.

mod descriptor;
mod dispatch;
mod error;
mod form;
mod payload;
mod text;
mod torrent;

pub use descriptor::{
    build_spec, finalized, lemma_build_partitions, no_options, root_folder_spec, root_folder_text, BuilderModel,
    DescriptorModel, OptionsModel, TorrentAddDescriptor, TorrentAddDescriptorBuilder,
};
pub use dispatch::{
    is_success_status, pair_result, plan, plan_spec, reconcile, reconcile_spec, single_result,
    single_spec, succeeded, SendOutcome, SendPlan,
};
pub use error::{reason_spec, CompositeFailure, Error};
pub use form::{
    file_entry, form_entries, form_spec, is_plain_mime, is_plain_mime_char, lemma_torrent_mime_plain,
    parsed_mime, part_model, text_entry, to_form, PartBody, PartModel,
};
pub use payload::{
    all_read, bool_opt, decimal_opt, field_pairs, file_models, lemma_payload_parts,
    lemma_render_deterministic, nat_opt32, nat_opt64, opt_field, settings_fields,
    torrent_file_part, torrents_part, torrents_payload_spec, urls_part, urls_payload_spec,
    FileModel, FilePart, Payload, PayloadModel, TextField,
};
pub use text::{bool_spec, bool_text, decimal, decimal_text, digit_char, join_with, joined};
pub use torrent::{lemma_partition_exact, partition, paths_of, urls_of, Torrent};
