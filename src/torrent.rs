//! Torrent sources and the order-preserving partition of a batch of them.

use vstd::prelude::*;

verus! {

/// One torrent to add: a magnet or HTTP(S) link, or the path of a local
/// `.torrent` file.
#[derive(Debug, Clone)]
pub enum Torrent {
    Url(String),
    RawTorrentFile(String),
}

impl Torrent {
    /// A torrent given by a magnet or HTTP(S) link.
    pub fn url(link: String) -> (r: Torrent)
        ensures
            r matches Torrent::Url(u) && u@ == link@,
    {
        Torrent::Url(link)
    }

    /// A torrent given by the path of a local `.torrent` file.
    pub fn raw_torrent_file(path: String) -> (r: Torrent)
        ensures
            r matches Torrent::RawTorrentFile(p) && p@ == path@,
    {
        Torrent::RawTorrentFile(path)
    }
}

/// The links of the batch, in batch order.
pub open spec fn urls_of(s: Seq<Torrent>) -> Seq<Seq<char>>
    decreases s.len(),
{
    if s.len() == 0 {
        Seq::empty()
    } else {
        match s.last() {
            Torrent::Url(u) => urls_of(s.drop_last()).push(u@),
            Torrent::RawTorrentFile(_) => urls_of(s.drop_last()),
        }
    }
}

/// The file paths of the batch, in batch order.
pub open spec fn paths_of(s: Seq<Torrent>) -> Seq<Seq<char>>
    decreases s.len(),
{
    if s.len() == 0 {
        Seq::empty()
    } else {
        match s.last() {
            Torrent::Url(_) => paths_of(s.drop_last()),
            Torrent::RawTorrentFile(p) => paths_of(s.drop_last()).push(p@),
        }
    }
}

/// Splits a batch into its links and its file paths, each kept in batch order.
pub fn partition(torrents: &Vec<Torrent>) -> (r: (Vec<String>, Vec<String>))
    ensures
        r.0.deep_view() == urls_of(torrents@),
        r.1.deep_view() == paths_of(torrents@),
{
    let mut urls: Vec<String> = Vec::new();
    let mut paths: Vec<String> = Vec::new();
    let n = torrents.len();
    let mut i: usize = 0;
    while i < n
        invariant
            n == torrents.len(),
            i <= n,
            urls.deep_view() == urls_of(torrents@.take(i as int)),
            paths.deep_view() == paths_of(torrents@.take(i as int)),
        decreases n - i,
    {
        proof {
            assert(torrents@.take(i + 1).drop_last() =~= torrents@.take(i as int));
        }
        match &torrents[i] {
            Torrent::Url(u) => {
                urls.push(u.clone());
                assert(urls.deep_view() =~= urls_of(torrents@.take(i + 1)));
            },
            Torrent::RawTorrentFile(p) => {
                paths.push(p.clone());
                assert(paths.deep_view() =~= paths_of(torrents@.take(i + 1)));
            },
        }
        i = i + 1;
    }
    proof {
        assert(torrents@.take(n as int) =~= torrents@);
    }
    (urls, paths)
}

/// Every torrent of a batch lands in exactly one of the two parts, and at the
/// position given by how many torrents of its kind come before it: the parts
/// together hold each input once, each in batch order.
pub proof fn lemma_partition_exact(s: Seq<Torrent>)
    ensures
        urls_of(s).len() + paths_of(s).len() == s.len(),
        forall|i: int|
            0 <= i < s.len() ==> match #[trigger] s[i] {
                Torrent::Url(u) => urls_of(s.take(i)).len() < urls_of(s).len()
                    && urls_of(s)[urls_of(s.take(i)).len() as int] == u@,
                Torrent::RawTorrentFile(p) => paths_of(s.take(i)).len() < paths_of(s).len()
                    && paths_of(s)[paths_of(s.take(i)).len() as int] == p@,
            },
    decreases s.len(),
{
    if s.len() > 0 {
        let t = s.drop_last();
        lemma_partition_exact(t);
        lemma_prefix_parts(s);
        assert forall|i: int| 0 <= i < s.len() implies match #[trigger] s[i] {
            Torrent::Url(u) => urls_of(s.take(i)).len() < urls_of(s).len()
                && urls_of(s)[urls_of(s.take(i)).len() as int] == u@,
            Torrent::RawTorrentFile(p) => paths_of(s.take(i)).len() < paths_of(s).len()
                && paths_of(s)[paths_of(s.take(i)).len() as int] == p@,
        } by {
            if i < s.len() - 1 {
                assert(t.take(i) =~= s.take(i));
                assert(t[i] == s[i]);
            } else {
                assert(s.take(i) =~= t);
            }
        }
    }
}

/// Each part of a batch extends the part of the batch without its last torrent.
proof fn lemma_prefix_parts(s: Seq<Torrent>)
    requires
        s.len() > 0,
    ensures
        urls_of(s.drop_last()).len() <= urls_of(s).len(),
        paths_of(s.drop_last()).len() <= paths_of(s).len(),
        forall|k: int| 0 <= k < urls_of(s.drop_last()).len()
            ==> urls_of(s)[k] == #[trigger] urls_of(s.drop_last())[k],
        forall|k: int| 0 <= k < paths_of(s.drop_last()).len()
            ==> paths_of(s)[k] == #[trigger] paths_of(s.drop_last())[k],
{
}

} // verus!
