//! The validated description of one torrent addition, and its builder.

use vstd::prelude::*;
use vstd::string::*;
use crate::error::Error;
use crate::text::{bool_spec, joined, join_with};
use crate::torrent::{partition, paths_of, urls_of, Torrent};

verus! {

/// The options of an addition, as mathematical values.
pub struct OptionsModel {
    pub savepath: Option<Seq<char>>,
    pub cookie: Option<Seq<char>>,
    pub category: Option<Seq<char>>,
    pub tags: Option<Seq<Seq<char>>>,
    pub skip_checking: Option<bool>,
    pub paused: Option<bool>,
    pub root_folder: Option<bool>,
    pub rename: Option<Seq<char>>,
    pub up_limit: Option<u64>,
    pub dl_limit: Option<u64>,
    pub ratio_limit: Option<Seq<char>>,
    pub seeding_time_limit: Option<u32>,
    pub auto_tmm: Option<bool>,
    pub sequential_download: Option<bool>,
    pub first_last_piece_prio: Option<bool>,
}

/// A builder as a mathematical value: the batch and the options set so far.
pub struct BuilderModel {
    pub torrents: Option<Seq<Torrent>>,
    pub options: OptionsModel,
}

/// A finalized descriptor as a mathematical value.
pub struct DescriptorModel {
    pub urls: Seq<Seq<char>>,
    pub paths: Seq<Seq<char>>,
    pub savepath: Option<Seq<char>>,
    pub cookie: Option<Seq<char>>,
    pub category: Option<Seq<char>>,
    /// The tags joined by commas.
    pub tags: Option<Seq<char>>,
    pub skip_checking: Option<bool>,
    pub paused: Option<bool>,
    /// `unset`, `true` or `false`.
    pub root_folder: Seq<char>,
    pub rename: Option<Seq<char>>,
    pub up_limit: Option<u64>,
    pub dl_limit: Option<u64>,
    pub ratio_limit: Option<Seq<char>>,
    pub seeding_time_limit: Option<u32>,
    pub auto_tmm: Option<bool>,
    pub sequential_download: Option<bool>,
    pub first_last_piece_prio: Option<bool>,
}

/// The tri-state root-folder flag as sent: `unset`, `true` or `false`.
pub open spec fn root_folder_spec(o: Option<bool>) -> Seq<char> {
    match o {
        None => "unset"@,
        Some(b) => bool_spec(b),
    }
}

/// The descriptor that finalizing a batch with these options gives.
pub open spec fn finalized(s: Seq<Torrent>, o: OptionsModel) -> DescriptorModel {
    DescriptorModel {
        urls: urls_of(s),
        paths: paths_of(s),
        savepath: o.savepath,
        cookie: o.cookie,
        category: o.category,
        tags: match o.tags {
            Some(t) => Some(joined(t, ","@)),
            None => None,
        },
        skip_checking: o.skip_checking,
        paused: o.paused,
        root_folder: root_folder_spec(o.root_folder),
        rename: o.rename,
        up_limit: o.up_limit,
        dl_limit: o.dl_limit,
        ratio_limit: o.ratio_limit,
        seeding_time_limit: o.seeding_time_limit,
        auto_tmm: o.auto_tmm,
        sequential_download: o.sequential_download,
        first_last_piece_prio: o.first_last_piece_prio,
    }
}

/// The result of finalizing a builder: an error for a missing or empty batch,
/// else the partitioned and normalized descriptor.
pub open spec fn build_spec(b: BuilderModel) -> Result<DescriptorModel, Error> {
    match b.torrents {
        Some(s) => if s.len() == 0 {
            Err(Error::TorrentsNotSet)
        } else {
            Ok(finalized(s, b.options))
        },
        None => Err(Error::TorrentsNotSet),
    }
}

/// The tri-state root-folder flag as sent: `unset`, `true` or `false`.
pub fn root_folder_text(o: Option<bool>) -> (r: String)
    ensures
        r@ == root_folder_spec(o),
{
    match o {
        None => String::from_str("unset"),
        Some(true) => String::from_str("true"),
        Some(false) => String::from_str("false"),
    }
}

pub(crate) fn clone_opt(o: &Option<String>) -> (r: Option<String>)
    ensures
        r.deep_view() == o.deep_view(),
{
    match o {
        Some(s) => Some(s.clone()),
        None => None,
    }
}

fn clone_strings(v: &Vec<String>) -> (r: Vec<String>)
    ensures
        r.deep_view() == v.deep_view(),
        r@.len() == v@.len(),
{
    let mut r: Vec<String> = Vec::new();
    let n = v.len();
    let mut i: usize = 0;
    while i < n
        invariant
            n == v.len(),
            i <= n,
            r.deep_view() == v.deep_view().take(i as int),
        decreases n - i,
    {
        let ghost prev = r.deep_view();
        let c = v[i].clone();
        r.push(c);
        assert(r.deep_view() =~= prev.push(v.deep_view()[i as int]));
        assert(v.deep_view().take(i + 1) =~= v.deep_view().take(i as int).push(
            v.deep_view()[i as int],
        ));
        i = i + 1;
    }
    assert(v.deep_view().take(n as int) =~= v.deep_view());
    r
}

/// One addition of torrents: the links and the local files to add, in the
/// order given, with the options that apply to all of them. It always has at
/// least one link or file.
#[derive(Debug)]
pub struct TorrentAddDescriptor {
    urls: Vec<String>,
    paths: Vec<String>,
    savepath: Option<String>,
    cookie: Option<String>,
    category: Option<String>,
    tags: Option<String>,
    skip_checking: Option<bool>,
    paused: Option<bool>,
    root_folder: String,
    rename: Option<String>,
    up_limit: Option<u64>,
    dl_limit: Option<u64>,
    ratio_limit: Option<String>,
    seeding_time_limit: Option<u32>,
    auto_tmm: Option<bool>,
    sequential_download: Option<bool>,
    first_last_piece_prio: Option<bool>,
}

impl View for TorrentAddDescriptor {
    type V = DescriptorModel;

    closed spec fn view(&self) -> DescriptorModel {
        DescriptorModel {
            urls: self.urls.deep_view(),
            paths: self.paths.deep_view(),
            savepath: self.savepath.deep_view(),
            cookie: self.cookie.deep_view(),
            category: self.category.deep_view(),
            tags: self.tags.deep_view(),
            skip_checking: self.skip_checking,
            paused: self.paused,
            root_folder: self.root_folder@,
            rename: self.rename.deep_view(),
            up_limit: self.up_limit,
            dl_limit: self.dl_limit,
            ratio_limit: self.ratio_limit.deep_view(),
            seeding_time_limit: self.seeding_time_limit,
            auto_tmm: self.auto_tmm,
            sequential_download: self.sequential_download,
            first_last_piece_prio: self.first_last_piece_prio,
        }
    }
}

impl Clone for TorrentAddDescriptor {
    /// A copy with the same links, files and options.
    fn clone(&self) -> (r: Self)
        ensures
            r@ == self@,
    {
        proof {
            use_type_invariant(self);
        }
        TorrentAddDescriptor {
            urls: clone_strings(&self.urls),
            paths: clone_strings(&self.paths),
            savepath: clone_opt(&self.savepath),
            cookie: clone_opt(&self.cookie),
            category: clone_opt(&self.category),
            tags: clone_opt(&self.tags),
            skip_checking: self.skip_checking,
            paused: self.paused,
            root_folder: self.root_folder.clone(),
            rename: clone_opt(&self.rename),
            up_limit: self.up_limit,
            dl_limit: self.dl_limit,
            ratio_limit: clone_opt(&self.ratio_limit),
            seeding_time_limit: self.seeding_time_limit,
            auto_tmm: self.auto_tmm,
            sequential_download: self.sequential_download,
            first_last_piece_prio: self.first_last_piece_prio,
        }
    }
}

impl TorrentAddDescriptor {
    #[verifier::type_invariant]
    spec fn has_torrents(&self) -> bool {
        self.urls.len() > 0 || self.paths.len() > 0
    }

    /// A descriptor for the batch with no options set; fails with
    /// `TorrentsNotSet` on an empty batch.
    pub fn new(torrents: Vec<Torrent>) -> (r: Result<TorrentAddDescriptor, Error>)
        ensures
            r matches Ok(d) ==> d@ == finalized(torrents@, no_options()),
            r is Err <==> torrents@.len() == 0,
            r matches Err(e) ==> e is TorrentsNotSet,
    {
        Self::builder(torrents).build()
    }

    /// A builder for a descriptor of the batch, with no options set.
    pub fn builder(torrents: Vec<Torrent>) -> (r: TorrentAddDescriptorBuilder)
        ensures
            r@ == (BuilderModel { torrents: Some(torrents@), options: no_options() }),
    {
        TorrentAddDescriptorBuilder::new(torrents)
    }

    /// The links, in batch order.
    pub fn urls(&self) -> (r: &Vec<String>)
        ensures
            r.deep_view() == self@.urls,
            self@.urls.len() > 0 || self@.paths.len() > 0,
    {
        proof {
            use_type_invariant(self);
        }
        &self.urls
    }

    /// The paths of the local torrent files, in batch order.
    pub fn paths(&self) -> (r: &Vec<String>)
        ensures
            r.deep_view() == self@.paths,
    {
        &self.paths
    }

    pub fn savepath(&self) -> (r: &Option<String>)
        ensures
            r.deep_view() == self@.savepath,
    {
        &self.savepath
    }

    pub fn cookie(&self) -> (r: &Option<String>)
        ensures
            r.deep_view() == self@.cookie,
    {
        &self.cookie
    }

    pub fn category(&self) -> (r: &Option<String>)
        ensures
            r.deep_view() == self@.category,
    {
        &self.category
    }

    /// The tags, joined by commas.
    pub fn tags(&self) -> (r: &Option<String>)
        ensures
            r.deep_view() == self@.tags,
    {
        &self.tags
    }

    pub fn skip_checking(&self) -> (r: Option<bool>)
        ensures
            r == self@.skip_checking,
    {
        self.skip_checking
    }

    pub fn paused(&self) -> (r: Option<bool>)
        ensures
            r == self@.paused,
    {
        self.paused
    }

    /// The root-folder flag: `unset`, `true` or `false`.
    pub fn root_folder(&self) -> (r: &String)
        ensures
            r@ == self@.root_folder,
    {
        &self.root_folder
    }

    pub fn rename(&self) -> (r: &Option<String>)
        ensures
            r.deep_view() == self@.rename,
    {
        &self.rename
    }

    pub fn up_limit(&self) -> (r: Option<u64>)
        ensures
            r == self@.up_limit,
    {
        self.up_limit
    }

    pub fn dl_limit(&self) -> (r: Option<u64>)
        ensures
            r == self@.dl_limit,
    {
        self.dl_limit
    }

    /// The share ratio limit, in decimal notation.
    pub fn ratio_limit(&self) -> (r: &Option<String>)
        ensures
            r.deep_view() == self@.ratio_limit,
    {
        &self.ratio_limit
    }

    pub fn seeding_time_limit(&self) -> (r: Option<u32>)
        ensures
            r == self@.seeding_time_limit,
    {
        self.seeding_time_limit
    }

    pub fn auto_tmm(&self) -> (r: Option<bool>)
        ensures
            r == self@.auto_tmm,
    {
        self.auto_tmm
    }

    pub fn sequential_download(&self) -> (r: Option<bool>)
        ensures
            r == self@.sequential_download,
    {
        self.sequential_download
    }

    pub fn first_last_piece_prio(&self) -> (r: Option<bool>)
        ensures
            r == self@.first_last_piece_prio,
    {
        self.first_last_piece_prio
    }
}

/// No option set.
pub open spec fn no_options() -> OptionsModel {
    OptionsModel {
        savepath: None,
        cookie: None,
        category: None,
        tags: None,
        skip_checking: None,
        paused: None,
        root_folder: None,
        rename: None,
        up_limit: None,
        dl_limit: None,
        ratio_limit: None,
        seeding_time_limit: None,
        auto_tmm: None,
        sequential_download: None,
        first_last_piece_prio: None,
    }
}

/// Staged construction of a [`TorrentAddDescriptor`]: the batch and the options
/// are collected unchecked, and `build` validates and normalizes them once.
#[derive(Debug, Clone)]
pub struct TorrentAddDescriptorBuilder {
    torrents: Option<Vec<Torrent>>,
    savepath: Option<String>,
    cookie: Option<String>,
    category: Option<String>,
    tags: Option<Vec<String>>,
    skip_checking: Option<bool>,
    paused: Option<bool>,
    root_folder: Option<bool>,
    rename: Option<String>,
    up_limit: Option<u64>,
    dl_limit: Option<u64>,
    ratio_limit: Option<String>,
    seeding_time_limit: Option<u32>,
    auto_tmm: Option<bool>,
    sequential_download: Option<bool>,
    first_last_piece_prio: Option<bool>,
}

impl View for TorrentAddDescriptorBuilder {
    type V = BuilderModel;

    closed spec fn view(&self) -> BuilderModel {
        BuilderModel {
            torrents: match self.torrents {
                Some(t) => Some(t@),
                None => None,
            },
            options: OptionsModel {
                savepath: self.savepath.deep_view(),
                cookie: self.cookie.deep_view(),
                category: self.category.deep_view(),
                tags: self.tags.deep_view(),
                skip_checking: self.skip_checking,
                paused: self.paused,
                root_folder: self.root_folder,
                rename: self.rename.deep_view(),
                up_limit: self.up_limit,
                dl_limit: self.dl_limit,
                ratio_limit: self.ratio_limit.deep_view(),
                seeding_time_limit: self.seeding_time_limit,
                auto_tmm: self.auto_tmm,
                sequential_download: self.sequential_download,
                first_last_piece_prio: self.first_last_piece_prio,
            },
        }
    }
}

impl TorrentAddDescriptorBuilder {
    /// A builder holding the batch, with no options set.
    pub fn new(torrents: Vec<Torrent>) -> (r: Self)
        ensures
            r@ == (BuilderModel { torrents: Some(torrents@), options: no_options() }),
    {
        TorrentAddDescriptorBuilder {
            torrents: Some(torrents),
            savepath: None,
            cookie: None,
            category: None,
            tags: None,
            skip_checking: None,
            paused: None,
            root_folder: None,
            rename: None,
            up_limit: None,
            dl_limit: None,
            ratio_limit: None,
            seeding_time_limit: None,
            auto_tmm: None,
            sequential_download: None,
            first_last_piece_prio: None,
        }
    }

    /// Download folder path.
    pub fn savepath(self, v: String) -> (r: Self)
        ensures
            r@ == (BuilderModel {
                options: OptionsModel { savepath: Some(v@), ..self@.options },
                ..self@
            }),
    {
        TorrentAddDescriptorBuilder { savepath: Some(v), ..self }
    }

    /// Cookie sent to download the `.torrent` file.
    pub fn cookie(self, v: String) -> (r: Self)
        ensures
            r@ == (BuilderModel {
                options: OptionsModel { cookie: Some(v@), ..self@.options },
                ..self@
            }),
    {
        TorrentAddDescriptorBuilder { cookie: Some(v), ..self }
    }

    /// Category for the torrents.
    pub fn category(self, v: String) -> (r: Self)
        ensures
            r@ == (BuilderModel {
                options: OptionsModel { category: Some(v@), ..self@.options },
                ..self@
            }),
    {
        TorrentAddDescriptorBuilder { category: Some(v), ..self }
    }

    /// Tags for the torrents; sent joined by commas.
    pub fn tags(self, v: Vec<String>) -> (r: Self)
        ensures
            r@ == (BuilderModel {
                options: OptionsModel { tags: Some(v.deep_view()), ..self@.options },
                ..self@
            }),
    {
        TorrentAddDescriptorBuilder { tags: Some(v), ..self }
    }

    /// Whether to skip hash checking.
    pub fn skip_checking(self, v: bool) -> (r: Self)
        ensures
            r@ == (BuilderModel {
                options: OptionsModel { skip_checking: Some(v), ..self@.options },
                ..self@
            }),
    {
        TorrentAddDescriptorBuilder { skip_checking: Some(v), ..self }
    }

    /// Whether to add the torrents paused.
    pub fn paused(self, v: bool) -> (r: Self)
        ensures
            r@ == (BuilderModel {
                options: OptionsModel { paused: Some(v), ..self@.options },
                ..self@
            }),
    {
        TorrentAddDescriptorBuilder { paused: Some(v), ..self }
    }

    /// Whether to create the root folder; left unset, the server decides.
    pub fn root_folder(self, v: bool) -> (r: Self)
        ensures
            r@ == (BuilderModel {
                options: OptionsModel { root_folder: Some(v), ..self@.options },
                ..self@
            }),
    {
        TorrentAddDescriptorBuilder { root_folder: Some(v), ..self }
    }

    /// New name for the torrent.
    pub fn rename(self, v: String) -> (r: Self)
        ensures
            r@ == (BuilderModel {
                options: OptionsModel { rename: Some(v@), ..self@.options },
                ..self@
            }),
    {
        TorrentAddDescriptorBuilder { rename: Some(v), ..self }
    }

    /// Upload speed limit in bytes per second.
    pub fn up_limit(self, v: u64) -> (r: Self)
        ensures
            r@ == (BuilderModel {
                options: OptionsModel { up_limit: Some(v), ..self@.options },
                ..self@
            }),
    {
        TorrentAddDescriptorBuilder { up_limit: Some(v), ..self }
    }

    /// Download speed limit in bytes per second.
    pub fn dl_limit(self, v: u64) -> (r: Self)
        ensures
            r@ == (BuilderModel {
                options: OptionsModel { dl_limit: Some(v), ..self@.options },
                ..self@
            }),
    {
        TorrentAddDescriptorBuilder { dl_limit: Some(v), ..self }
    }

    /// Share ratio limit, in decimal notation (such as `1.5`).
    pub fn ratio_limit(self, v: String) -> (r: Self)
        ensures
            r@ == (BuilderModel {
                options: OptionsModel { ratio_limit: Some(v@), ..self@.options },
                ..self@
            }),
    {
        TorrentAddDescriptorBuilder { ratio_limit: Some(v), ..self }
    }

    /// Seeding time limit in minutes.
    pub fn seeding_time_limit(self, v: u32) -> (r: Self)
        ensures
            r@ == (BuilderModel {
                options: OptionsModel { seeding_time_limit: Some(v), ..self@.options },
                ..self@
            }),
    {
        TorrentAddDescriptorBuilder { seeding_time_limit: Some(v), ..self }
    }

    /// Whether to use automatic torrent management.
    pub fn auto_tmm(self, v: bool) -> (r: Self)
        ensures
            r@ == (BuilderModel {
                options: OptionsModel { auto_tmm: Some(v), ..self@.options },
                ..self@
            }),
    {
        TorrentAddDescriptorBuilder { auto_tmm: Some(v), ..self }
    }

    /// Whether to download sequentially.
    pub fn sequential_download(self, v: bool) -> (r: Self)
        ensures
            r@ == (BuilderModel {
                options: OptionsModel { sequential_download: Some(v), ..self@.options },
                ..self@
            }),
    {
        TorrentAddDescriptorBuilder { sequential_download: Some(v), ..self }
    }

    /// Whether to download the first and last pieces first.
    pub fn first_last_piece_prio(self, v: bool) -> (r: Self)
        ensures
            r@ == (BuilderModel {
                options: OptionsModel { first_last_piece_prio: Some(v), ..self@.options },
                ..self@
            }),
    {
        TorrentAddDescriptorBuilder { first_last_piece_prio: Some(v), ..self }
    }

    /// Finalizes the builder: fails with `TorrentsNotSet` when the batch is
    /// missing or empty; otherwise splits it into links and files in batch
    /// order, joins the tags with commas and spells out the root-folder flag.
    pub fn build(self) -> (r: Result<TorrentAddDescriptor, Error>)
        ensures
            r matches Ok(d) ==> build_spec(self@) == Ok::<DescriptorModel, Error>(d@),
            r is Err <==> build_spec(self@) is Err,
            r matches Err(e) ==> e is TorrentsNotSet,
    {
        let torrents = match self.torrents {
            Some(t) => t,
            None => {
                return Err(Error::TorrentsNotSet);
            },
        };
        if torrents.len() == 0 {
            return Err(Error::TorrentsNotSet);
        }
        let (urls, paths) = partition(&torrents);
        proof {
            crate::torrent::lemma_partition_exact(torrents@);
        }
        let tags = match &self.tags {
            Some(t) => Some(join_with(t, ",")),
            None => None,
        };
        let root_folder = root_folder_text(self.root_folder);
        let d = TorrentAddDescriptor {
            urls,
            paths,
            savepath: self.savepath,
            cookie: self.cookie,
            category: self.category,
            tags,
            skip_checking: self.skip_checking,
            paused: self.paused,
            root_folder,
            rename: self.rename,
            up_limit: self.up_limit,
            dl_limit: self.dl_limit,
            ratio_limit: self.ratio_limit,
            seeding_time_limit: self.seeding_time_limit,
            auto_tmm: self.auto_tmm,
            sequential_download: self.sequential_download,
            first_last_piece_prio: self.first_last_piece_prio,
        };
        assert(d@ == finalized(torrents@, self@.options));
        Ok(d)
    }
}

/// Building from a non-empty batch succeeds, and the descriptor's links and
/// files together hold each torrent of the batch exactly once: each at the
/// position given by how many torrents of its kind precede it in the batch.
pub proof fn lemma_build_partitions(s: Seq<Torrent>, o: OptionsModel)
    requires
        s.len() > 0,
    ensures
        build_spec(BuilderModel { torrents: Some(s), options: o }) is Ok,
        ({
            let d = finalized(s, o);
            &&& d.urls.len() + d.paths.len() == s.len()
            &&& forall|i: int|
                0 <= i < s.len() ==> match #[trigger] s[i] {
                    Torrent::Url(u) => d.urls[urls_of(s.take(i)).len() as int] == u@,
                    Torrent::RawTorrentFile(p) => d.paths[paths_of(s.take(i)).len() as int] == p@,
                }
        }),
{
    crate::torrent::lemma_partition_exact(s);
}

} // verus!

