//! One rename pass: which of the files of the source folder are meant.

use crate::matcher::{capture_views, match_of, MatchResult};
use crate::settings::ConfigFile;
use vstd::prelude::*;

verus! {

/// The value of a match: the name of the file and its captures.
pub open spec fn hit_view(hit: MatchResult) -> (Seq<char>, Seq<(Seq<char>, Seq<char>)>) {
    (hit.file_name@, capture_views(hit.captures@))
}

/// The values of a sequence of matches.
pub open spec fn hit_views(hits: Seq<MatchResult>) -> Seq<
    (Seq<char>, Seq<(Seq<char>, Seq<char>)>),
> {
    hits.map_values(|hit: MatchResult| hit_view(hit))
}

/// The values of a sequence of names.
pub open spec fn name_views(names: Seq<String>) -> Seq<Seq<char>> {
    names.map_values(|name: String| name@)
}

/// The files that a pass relocates: of the names, in their order, each one
/// that the pattern matches, with its captures. The others are passed over.
pub open spec fn candidates(pattern: Seq<char>, names: Seq<Seq<char>>) -> Seq<
    (Seq<char>, Seq<(Seq<char>, Seq<char>)>),
>
    decreases names.len(),
{
    if names.len() == 0 {
        Seq::empty()
    } else {
        let front = candidates(pattern, names.drop_last());
        match match_of(pattern, names.last()) {
            Some(captures) => front.push((names.last(), captures)),
            None => front,
        }
    }
}

/// Picks the files of a pass: `file_names` are the names of the entries of
/// the source folder, in the order in which the folder gave them.
pub fn rename_main(config: &ConfigFile, file_names: &Vec<String>) -> (hits: Vec<MatchResult>)
    ensures
        hit_views(hits@) == candidates(config@.source.pattern, name_views(file_names@)),
{
    let ghost names = name_views(file_names@);
    let ghost pattern = config@.source.pattern;
    let mut hits: Vec<MatchResult> = Vec::new();
    let mut i: usize = 0;
    while i < file_names.len()
        invariant
            i <= file_names.len(),
            names == name_views(file_names@),
            pattern == config@.source.pattern,
            hit_views(hits@) == candidates(pattern, names.take(i as int)),
        decreases file_names.len() - i,
    {
        proof {
            assert(names.take(i + 1).drop_last() == names.take(i as int));
            assert(names.take(i + 1).last() == file_names@[i as int]@);
        }
        match config.source().matches(file_names[i].as_str()) {
            Some(hit) => {
                let ghost before = hits@;
                hits.push(hit);
                assert(hit_views(hits@) == hit_views(before).push(hit_view(hit)));
            },
            None => {},
        }
        i += 1;
    }
    assert(names.take(file_names.len() as int) == names);
    hits
}

} // verus!
