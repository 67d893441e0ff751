use qbittorrent_rust::{
    bool_text, decimal_text, join_with, pair_result, partition, plan, reconcile, root_folder_text,
    single_result, to_form, torrents_part, urls_part, CompositeFailure, Error, FilePart, Payload,
    SendOutcome,
    SendPlan, Torrent, TorrentAddDescriptor, TorrentAddDescriptorBuilder,
};

fn url(s: &str) -> Torrent {
    Torrent::url(s.to_string())
}

fn file(s: &str) -> Torrent {
    Torrent::raw_torrent_file(s.to_string())
}

fn field<'a>(p: &'a Payload, name: &str) -> Option<&'a str> {
    p.fields.iter().find(|f| f.name == name).map(|f| f.value.as_str())
}

fn names(p: &Payload) -> Vec<String> {
    p.fields.iter().map(|f| f.name.clone()).collect()
}

fn mixed_batch() -> Vec<Torrent> {
    vec![url("magnet:?xt=A"), file("/tmp/a.torrent"), url("magnet:?xt=B")]
}

#[test]
fn mixed_batch_partition_and_plan() {
    let d = TorrentAddDescriptor::new(mixed_batch()).unwrap();
    assert_eq!(d.urls(), &vec!["magnet:?xt=A".to_string(), "magnet:?xt=B".to_string()]);
    assert_eq!(d.paths(), &vec!["/tmp/a.torrent".to_string()]);
    assert_eq!(plan(&d).unwrap(), SendPlan::Both);
    let u = urls_part(&d);
    assert_eq!(field(&u, "urls"), Some("magnet:?xt=Amagnet:?xt=B"));
    let t = torrents_part(&d, vec![Some(vec![1, 2, 3])]).unwrap();
    assert_eq!(t.files.len(), 1);
}

#[test]
fn partition_keeps_order_and_every_item() {
    let batch = vec![
        file("/a"),
        url("u1"),
        file("/b"),
        file("/c"),
        url("u2"),
        url("u3"),
    ];
    let (urls, paths) = partition(&batch);
    assert_eq!(urls, vec!["u1", "u2", "u3"]);
    assert_eq!(paths, vec!["/a", "/b", "/c"]);
    assert_eq!(urls.len() + paths.len(), batch.len());
}

#[test]
fn partition_with_repeated_entries() {
    let batch = vec![url("same"), url("same"), file("/same"), file("/same")];
    let (urls, paths) = partition(&batch);
    assert_eq!(urls, vec!["same", "same"]);
    assert_eq!(paths, vec!["/same", "/same"]);
}

#[test]
fn empty_batch_is_rejected() {
    assert!(matches!(TorrentAddDescriptor::new(vec![]), Err(Error::TorrentsNotSet)));
    let b = TorrentAddDescriptorBuilder::new(vec![]).paused(true).category("c".to_string());
    assert!(matches!(b.build(), Err(Error::TorrentsNotSet)));
    assert!(matches!(TorrentAddDescriptor::builder(vec![]).build(), Err(Error::TorrentsNotSet)));
}

#[test]
fn root_folder_normalization() {
    assert_eq!(root_folder_text(None), "unset");
    assert_eq!(root_folder_text(Some(true)), "true");
    assert_eq!(root_folder_text(Some(false)), "false");
    let d = TorrentAddDescriptor::new(vec![url("m")]).unwrap();
    assert_eq!(d.root_folder(), "unset");
    let d = TorrentAddDescriptor::builder(vec![url("m")]).root_folder(true).build().unwrap();
    assert_eq!(d.root_folder(), "true");
    let d = TorrentAddDescriptor::builder(vec![url("m")]).root_folder(false).build().unwrap();
    assert_eq!(d.root_folder(), "false");
}

#[test]
fn urls_only_payload_has_no_binary_parts() {
    let d = TorrentAddDescriptor::new(vec![url("a"), url("b")]).unwrap();
    let u = urls_part(&d);
    assert!(u.files.is_empty());
    assert_eq!(names(&u), vec!["urls", "root_folder"]);
    assert_eq!(field(&u, "urls"), Some("ab"));
}

#[test]
fn files_only_payload_has_one_part_per_file() {
    let d = TorrentAddDescriptor::new(vec![file("/x"), file("/y")]).unwrap();
    assert_eq!(plan(&d).unwrap(), SendPlan::TorrentFilesOnly);
    let t = torrents_part(&d, vec![Some(vec![7]), Some(vec![8, 9])]).unwrap();
    assert_eq!(t.files.len(), 2);
    assert_eq!(t.files[0].contents, vec![7]);
    assert_eq!(t.files[1].contents, vec![8, 9]);
    for f in &t.files {
        assert_eq!(f.name, "torrents");
        assert_eq!(f.file_name, "torrent_file.torrent");
        assert_eq!(f.mime, "application/x-bittorrent");
    }
    assert_eq!(names(&t), vec!["root_folder"]);
}

#[test]
fn reconciliation_table() {
    assert!(reconcile(true, true).is_ok());
    assert!(matches!(
        reconcile(true, false),
        Err(Error::CompositeError(CompositeFailure::UrlsFailed))
    ));
    assert!(matches!(
        reconcile(false, true),
        Err(Error::CompositeError(CompositeFailure::TorrentFilesFailed))
    ));
    assert!(matches!(
        reconcile(false, false),
        Err(Error::CompositeError(CompositeFailure::BothFailed))
    ));
}

#[test]
fn composite_reasons() {
    assert_eq!(CompositeFailure::UrlsFailed.reason(), "urls add failed");
    assert_eq!(CompositeFailure::TorrentFilesFailed.reason(), "torrent files add failed");
    assert_eq!(CompositeFailure::BothFailed.reason(), "both failed");
}

#[test]
fn single_url_batch_sends_once() {
    let d = TorrentAddDescriptor::new(vec![url("magnet:?xt=A")]).unwrap();
    assert_eq!(plan(&d).unwrap(), SendPlan::UrlsOnly);
    assert!(single_result(SendOutcome::Status(200)).is_ok());
    assert!(matches!(single_result(SendOutcome::Status(403)), Err(Error::NetworkError(403))));
}

#[test]
fn single_send_status_bounds() {
    assert!(single_result(SendOutcome::Status(299)).is_ok());
    assert!(matches!(single_result(SendOutcome::Status(199)), Err(Error::NetworkError(199))));
    assert!(matches!(single_result(SendOutcome::Status(300)), Err(Error::NetworkError(300))));
}

#[test]
fn transport_failure_is_reported() {
    match single_result(SendOutcome::Transport("connection refused".to_string())) {
        Err(Error::TransportError(m)) => assert_eq!(m, "connection refused"),
        _ => panic!("expected a transport error"),
    }
}

#[test]
fn unreadable_file_fails_before_sending() {
    let d = TorrentAddDescriptor::new(vec![file("/does/not/exist.torrent")]).unwrap();
    assert!(matches!(torrents_part(&d, vec![None]), Err(Error::TorrentFilePathError)));
    let d = TorrentAddDescriptor::new(vec![file("/a"), file("/b")]).unwrap();
    assert!(matches!(
        torrents_part(&d, vec![Some(vec![1]), None]),
        Err(Error::TorrentFilePathError)
    ));
}

#[test]
fn file_send_fails_url_send_succeeds() {
    let r = pair_result(&SendOutcome::Status(500), &SendOutcome::Status(200));
    assert!(matches!(r, Err(Error::CompositeError(CompositeFailure::TorrentFilesFailed))));
}

#[test]
fn transport_failure_counts_as_half_failure() {
    let r = pair_result(&SendOutcome::Status(200), &SendOutcome::Transport("t".to_string()));
    assert!(matches!(r, Err(Error::CompositeError(CompositeFailure::UrlsFailed))));
    let r = pair_result(&SendOutcome::Transport("t".to_string()), &SendOutcome::Status(404));
    assert!(matches!(r, Err(Error::CompositeError(CompositeFailure::BothFailed))));
    assert!(pair_result(&SendOutcome::Status(201), &SendOutcome::Status(204)).is_ok());
}

fn full_descriptor() -> TorrentAddDescriptor {
    TorrentAddDescriptorBuilder::new(mixed_batch())
        .savepath("/downloads".to_string())
        .cookie("k=v".to_string())
        .category("linux".to_string())
        .tags(vec!["a".to_string(), "b".to_string(), "c".to_string()])
        .skip_checking(true)
        .paused(false)
        .root_folder(true)
        .rename("name".to_string())
        .up_limit(1024)
        .dl_limit(0)
        .ratio_limit("1.5".to_string())
        .seeding_time_limit(60)
        .auto_tmm(false)
        .sequential_download(true)
        .first_last_piece_prio(true)
        .build()
        .unwrap()
}

#[test]
fn all_options_are_rendered_in_order() {
    let d = full_descriptor();
    let u = urls_part(&d);
    let expected = vec![
        ("urls", "magnet:?xt=Amagnet:?xt=B"),
        ("savepath", "/downloads"),
        ("cookie", "k=v"),
        ("category", "linux"),
        ("tags", "a,b,c"),
        ("skip_checking", "true"),
        ("paused", "false"),
        ("root_folder", "true"),
        ("rename", "name"),
        ("upLimit", "1024"),
        ("dlLimit", "0"),
        ("ratioLimit", "1.5"),
        ("seedingTimeLimit", "60"),
        ("autoTMM", "false"),
        ("sequentialDownload", "true"),
        ("firstLastPiecePrio", "true"),
    ];
    let got: Vec<(String, String)> =
        u.fields.iter().map(|f| (f.name.clone(), f.value.clone())).collect();
    let want: Vec<(String, String)> =
        expected.iter().map(|(n, v)| (n.to_string(), v.to_string())).collect();
    assert_eq!(got, want);
}

#[test]
fn both_payloads_share_settings() {
    let d = full_descriptor();
    let u = urls_part(&d);
    let t = torrents_part(&d, vec![Some(vec![0xde, 0xad])]).unwrap();
    let ufields: Vec<(String, String)> =
        u.fields[1..].iter().map(|f| (f.name.clone(), f.value.clone())).collect();
    let tfields: Vec<(String, String)> =
        t.fields.iter().map(|f| (f.name.clone(), f.value.clone())).collect();
    assert_eq!(ufields, tfields);
}

#[test]
fn rendering_twice_is_identical() {
    let d = full_descriptor();
    let a = urls_part(&d);
    let b = urls_part(&d);
    assert_eq!(format!("{:?}", a), format!("{:?}", b));
    let c = torrents_part(&d, vec![Some(vec![5])]).unwrap();
    let e = torrents_part(&d, vec![Some(vec![5])]).unwrap();
    assert_eq!(format!("{:?}", c), format!("{:?}", e));
}

#[test]
fn getters_return_the_options() {
    let d = full_descriptor();
    assert_eq!(d.savepath().as_deref(), Some("/downloads"));
    assert_eq!(d.cookie().as_deref(), Some("k=v"));
    assert_eq!(d.category().as_deref(), Some("linux"));
    assert_eq!(d.tags().as_deref(), Some("a,b,c"));
    assert_eq!(d.skip_checking(), Some(true));
    assert_eq!(d.paused(), Some(false));
    assert_eq!(d.rename().as_deref(), Some("name"));
    assert_eq!(d.up_limit(), Some(1024));
    assert_eq!(d.dl_limit(), Some(0));
    assert_eq!(d.ratio_limit().as_deref(), Some("1.5"));
    assert_eq!(d.seeding_time_limit(), Some(60));
    assert_eq!(d.auto_tmm(), Some(false));
    assert_eq!(d.sequential_download(), Some(true));
    assert_eq!(d.first_last_piece_prio(), Some(true));
}

#[test]
fn text_forms() {
    assert_eq!(decimal_text(0), "0");
    assert_eq!(decimal_text(1024), "1024");
    assert_eq!(decimal_text(u64::MAX), "18446744073709551615");
    assert_eq!(bool_text(true), "true");
    assert_eq!(bool_text(false), "false");
    let items = vec!["x".to_string(), "y".to_string(), "z".to_string()];
    assert_eq!(join_with(&items, ","), "x,y,z");
    assert_eq!(join_with(&items, ""), "xyz");
    assert_eq!(join_with(&vec![], ","), "");
    assert_eq!(join_with(&vec!["only".to_string()], ","), "only");
}

#[test]
fn empty_tag_list_renders_empty_field() {
    let d = TorrentAddDescriptor::builder(vec![url("m")]).tags(vec![]).build().unwrap();
    assert_eq!(d.tags().as_deref(), Some(""));
}

#[test]
fn forms_carry_every_part() {
    let d = full_descriptor();
    let form = to_form(urls_part(&d)).unwrap();
    let shown = format!("{:?}", form);
    assert!(shown.contains("urls"));
    assert!(shown.contains("firstLastPiecePrio"));
    let form = to_form(torrents_part(&d, vec![Some(vec![1, 2])]).unwrap()).unwrap();
    let shown = format!("{:?}", form);
    assert!(shown.contains("torrents"));
    assert!(shown.contains("torrent_file.torrent"));
    assert!(shown.contains("application/x-bittorrent"));
}

#[test]
fn form_with_malformed_mime_is_rejected() {
    let payload = Payload {
        fields: vec![],
        files: vec![FilePart {
            name: "torrents".to_string(),
            file_name: "f".to_string(),
            mime: "not a mime type".to_string(),
            contents: vec![1],
        }],
    };
    assert!(matches!(to_form(payload), Err(Error::InvalidMimeType)));
    let empty = Payload { fields: vec![], files: vec![] };
    assert!(to_form(empty).is_ok());
}

#[test]
fn cloned_descriptor_is_equal() {
    let d = full_descriptor();
    let c = d.clone();
    assert_eq!(c.urls(), d.urls());
    assert_eq!(c.paths(), d.paths());
    assert_eq!(c.tags(), d.tags());
    assert_eq!(c.root_folder(), d.root_folder());
    assert_eq!(c.ratio_limit(), d.ratio_limit());
    assert_eq!(format!("{:?}", urls_part(&c)), format!("{:?}", urls_part(&d)));
}

#[test]
fn file_form_keeps_torrent_mime() {
    let d = TorrentAddDescriptor::new(vec![file("/a"), file("/b")]).unwrap();
    let form = to_form(torrents_part(&d, vec![Some(vec![1]), Some(vec![2])]).unwrap()).unwrap();
    let shown = format!("{:?}", form);
    assert_eq!(shown.matches("application/x-bittorrent").count(), 2);
}
