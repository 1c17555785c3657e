//! Finding the one `PKG-INFO` of a source distribution among the entries of
//! its archive.

use crate::error::{PublishPrepareError, PublishPrepareErrorView};
use crate::text::{
    contains_text, join, joined, lemma_joined_contains_each, str_eq, texts,
};
use vstd::prelude::*;

verus! {

/// A path of exactly two components whose second is `PKG-INFO`: the metadata
/// file one level below the archive's top directory.
pub open spec fn is_pkg_info_path(components: Seq<Seq<char>>) -> bool {
    components.len() == 2 && components[1] == "PKG-INFO"@
}

/// The `PKG-INFO` files that were found, as paths and contents.
pub open spec fn found_view(found: Seq<(String, Vec<u8>)>) -> Seq<(Seq<char>, Seq<u8>)> {
    Seq::new(found.len(), |i: int| (found[i].0@, found[i].1@))
}

/// The paths of what was found, in order.
pub open spec fn found_paths(found: Seq<(Seq<char>, Seq<u8>)>) -> Seq<Seq<char>> {
    Seq::new(found.len(), |i: int| found[i].0)
}

/// Which metadata a source distribution has: that of its one `PKG-INFO`. With
/// none there is nothing to send, and with several it is open which one holds.
pub open spec fn pkg_info_of(found: Seq<(Seq<char>, Seq<u8>)>) -> Result<
    Seq<u8>,
    PublishPrepareErrorView,
> {
    if found.len() == 0 {
        Err(PublishPrepareErrorView::MissingPkgInfo)
    } else if found.len() == 1 {
        Ok(found[0].1)
    } else {
        Err(PublishPrepareErrorView::MultiplePkgInfo(joined(found_paths(found), ", "@)))
    }
}

/// Raw metadata, or the reason for none, with texts as sequences.
pub open spec fn raw_view(raw: Result<Vec<u8>, PublishPrepareError>) -> Result<
    Seq<u8>,
    PublishPrepareErrorView,
> {
    match raw {
        Ok(bytes) => Ok(bytes@),
        Err(cause) => Err(cause@),
    }
}

/// Tells whether the archive entry whose path has these components is a
/// `PKG-INFO` to read. Entries nearer to the root or deeper are passed over.
pub fn is_pkg_info(components: &Vec<String>) -> (wanted: bool)
    ensures
        wanted == is_pkg_info_path(texts(components@)),
{
    components.len() == 2 && str_eq(components[1].as_str(), "PKG-INFO")
}

/// Picks the metadata of a source distribution from the `PKG-INFO` entries
/// found in its archive, each given by its path and its content.
pub fn source_dist_pkg_info(pkg_infos: Vec<(String, Vec<u8>)>) -> (raw: Result<
    Vec<u8>,
    PublishPrepareError,
>)
    ensures
        raw_view(raw) == pkg_info_of(found_view(pkg_infos@)),
{
    let mut pkg_infos = pkg_infos;
    let ghost found = found_view(pkg_infos@);
    if pkg_infos.len() == 0 {
        Err(PublishPrepareError::MissingPkgInfo)
    } else if pkg_infos.len() == 1 {
        Ok(pkg_infos.remove(0).1)
    } else {
        let mut paths: Vec<String> = Vec::new();
        let mut i: usize = 0;
        while i < pkg_infos.len()
            invariant
                i <= pkg_infos.len(),
                found == found_view(pkg_infos@),
                texts(paths@) == found_paths(found).take(i as int),
            decreases pkg_infos.len() - i,
        {
            let ghost shorter = paths@;
            let path = pkg_infos[i].0.clone();
            paths.push(path);
            proof {
                assert(path@ == found[i as int].0);
                assert(texts(paths@) =~= texts(shorter).push(path@));
                assert(found_paths(found).take(i + 1) =~= found_paths(found).take(i as int).push(
                    found[i as int].0,
                ));
            }
            i = i + 1;
        }
        assert(found_paths(found).take(pkg_infos.len() as int) =~= found_paths(found));
        Err(PublishPrepareError::MultiplePkgInfo(join(&paths, ", ")))
    }
}

/// An archive with exactly one `PKG-INFO` gives that file's bytes as they are.
pub proof fn lemma_single_pkg_info(path: Seq<char>, contents: Seq<u8>)
    ensures
        pkg_info_of(seq![(path, contents)]) == Ok::<Seq<u8>, PublishPrepareErrorView>(contents),
{
}

/// An archive without a `PKG-INFO` is refused as missing one.
pub proof fn lemma_no_pkg_info()
    ensures
        pkg_info_of(Seq::empty()) == Err::<Seq<u8>, PublishPrepareErrorView>(
            PublishPrepareErrorView::MissingPkgInfo,
        ),
{
}

/// An archive with two or more `PKG-INFO` files is refused, whatever they
/// hold, with their paths joined by a comma and a space.
pub proof fn lemma_multiple_pkg_info(found: Seq<(Seq<char>, Seq<u8>)>)
    requires
        found.len() >= 2,
    ensures
        pkg_info_of(found) == Err::<Seq<u8>, PublishPrepareErrorView>(
            PublishPrepareErrorView::MultiplePkgInfo(joined(found_paths(found), ", "@)),
        ),
        found.len() == 2 ==> joined(found_paths(found), ", "@) == found[0].0 + ", "@ + found[1].0,
{
    if found.len() == 2 {
        let paths = found_paths(found);
        assert(paths.drop_last() =~= seq![found[0].0]);
        assert(joined(paths.drop_last(), ", "@) == found[0].0);
    }
}

/// The refusal of an archive with several `PKG-INFO` files names every one
/// of them: each path stands in the message.
pub proof fn lemma_every_pkg_info_is_named(found: Seq<(Seq<char>, Seq<u8>)>, i: int)
    requires
        found.len() >= 2,
        0 <= i < found.len(),
    ensures
        pkg_info_of(found) matches Err(PublishPrepareErrorView::MultiplePkgInfo(paths))
            && contains_text(paths, found[i].0),
{
    lemma_joined_contains_each(found_paths(found), ", "@, i);
}

} // verus!
