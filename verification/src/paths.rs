use vstd::prelude::*;
use vstd::string::StrSliceExecFns;
use vstd::string::StringExecFns;

use crate::errors::PluginError;

verus! {

/// The backup store addresses everything by path components: the maximal
/// nonempty runs of characters other than `'/'` in a local path. No
/// normalization beyond separator splitting is performed; the scheme is a
/// naming convention on the textual path, not a filesystem lookup.
///
/// `run_start(s, e)` is the index where the component ending at `e` begins:
/// the least `b` such that `s[b..e]` is free of separators and either `b == 0`
/// or `s[b - 1]` is a separator.
pub open spec fn run_start(s: Seq<char>, e: int) -> int
    decreases e,
{
    if e <= 0 {
        0
    } else if s[e - 1] == '/' {
        e
    } else {
        run_start(s, e - 1)
    }
}

pub proof fn lemma_run_start_bounds(s: Seq<char>, e: int)
    requires
        0 <= e,
    ensures
        0 <= run_start(s, e) <= e,
    decreases e,
{
    if e > 0 && s[e - 1] != '/' {
        lemma_run_start_bounds(s, e - 1);
    }
}

/// `run_start` reads only the characters below `e`, so it agrees on any two
/// sequences that agree there.
pub proof fn lemma_run_start_agrees(s: Seq<char>, t: Seq<char>, e: int)
    requires
        0 <= e,
        forall|i: int| 0 <= i < e ==> s[i] == t[i],
    ensures
        run_start(s, e) == run_start(t, e),
    decreases e,
{
    if e > 0 && s[e - 1] != '/' {
        lemma_run_start_agrees(s, t, e - 1);
    }
}

/// The components of a path: the maximal nonempty runs of non-separator
/// characters, in order. `"/data/20240115-snap/report.txt"` has the components
/// `["data", "20240115-snap", "report.txt"]`; repeated and trailing separators
/// contribute nothing.
pub open spec fn path_components(s: Seq<char>) -> Seq<Seq<char>>
    decreases s.len(),
    via path_components_decreases
{
    if s.len() == 0 {
        Seq::empty()
    } else if s[s.len() - 1] == '/' {
        path_components(s.drop_last())
    } else {
        path_components(s.subrange(0, run_start(s, s.len() as int))).push(
            s.subrange(run_start(s, s.len() as int), s.len() as int),
        )
    }
}

#[via_fn]
proof fn path_components_decreases(s: Seq<char>) {
    if s.len() > 0 && s[s.len() - 1] != '/' {
        lemma_run_start_bounds(s, s.len() - 1);
    }
}

/// Derivation for a single-file transfer: the final component is the file
/// name, its parent directory is the item bucket, and the first 8 characters
/// of the item bucket's name form the day bucket. A missing component or a
/// parent name shorter than 8 characters is rejected.
pub open spec fn derive_file(p: Seq<char>) -> Result<(Seq<char>, Seq<char>, Seq<char>), PluginError> {
    let comps = path_components(p);
    if comps.len() == 0 {
        Err(PluginError::MissingFileName)
    } else if comps.len() == 1 {
        Err(PluginError::MissingDirName)
    } else if comps[comps.len() - 2].len() < 8 {
        Err(PluginError::ShortDayName)
    } else {
        Ok(
            (
                comps[comps.len() - 2].take(8),
                comps[comps.len() - 2],
                comps[comps.len() - 1],
            ),
        )
    }
}

/// Derivation for a whole-directory operation: the final component is the
/// item bucket, and the first 8 characters of its parent's name form the day
/// bucket. A missing component or a parent name shorter than 8 characters is
/// rejected.
pub open spec fn derive_dir(p: Seq<char>) -> Result<(Seq<char>, Seq<char>), PluginError> {
    let comps = path_components(p);
    if comps.len() < 2 {
        Err(PluginError::MissingDirName)
    } else if comps[comps.len() - 2].len() < 8 {
        Err(PluginError::ShortDayName)
    } else {
        Ok((comps[comps.len() - 2].take(8), comps[comps.len() - 1]))
    }
}

/// Derivation for a deletion: the bucket name must be at least 8 characters,
/// and its first 8 characters form the day bucket.
pub open spec fn derive_bucket(b: Seq<char>) -> Result<Seq<char>, PluginError> {
    if b.len() < 8 {
        Err(PluginError::InvalidBucketName)
    } else {
        Ok(b.take(8))
    }
}

/// Finds the last path component of `p` that lies entirely below character
/// index `from`, returning its character range, or `None` when no component
/// lies there.
fn last_component_before(p: &str, from: usize) -> (r: Option<(usize, usize)>)
    requires
        from <= p@.len(),
    ensures
        match r {
            None => path_components(p@.take(from as int)).len() == 0,
            Some((b, e)) => {
                let comps = path_components(p@.take(from as int));
                &&& b < e <= from
                &&& comps.len() > 0
                &&& p@.subrange(b as int, e as int) == comps.last()
                &&& path_components(p@.take(b as int)) == comps.drop_last()
            },
        },
{
    let mut e: usize = from;
    while e > 0 && p.get_char(e - 1) == '/'
        invariant
            e <= from <= p@.len(),
            path_components(p@.take(e as int)) == path_components(p@.take(from as int)),
        decreases e,
    {
        proof {
            assert(p@.take(e as int).drop_last() =~= p@.take(e - 1));
            assert(p@.take(e as int).last() == '/');
        }
        e = e - 1;
    }
    if e == 0 {
        None
    } else {
        assert(p@.take(e as int).len() == e && p@.take(e as int)[e - 1] != '/');
        let ghost upto_e = p@.take(e as int);
        let mut b: usize = e;
        while b > 0 && p.get_char(b - 1) != '/'
            invariant
                b <= e <= p@.len(),
                run_start(p@, e as int) == run_start(p@, b as int),
            decreases b,
        {
            b = b - 1;
        }
        proof {
            assert(run_start(p@, b as int) == b);
            assert(run_start(p@, e as int) == b);
            lemma_run_start_agrees(upto_e, p@, e as int);
            assert(run_start(upto_e, e as int) == b);
            lemma_run_start_bounds(upto_e, e - 1);
            assert(b < e);
            assert(upto_e.subrange(0, b as int) =~= p@.take(b as int));
            assert(upto_e.subrange(b as int, e as int) =~= p@.subrange(b as int, e as int));
            assert(path_components(upto_e) == path_components(p@.take(b as int)).push(
                p@.subrange(b as int, e as int),
            ));
            assert(path_components(p@.take(b as int)).push(
                p@.subrange(b as int, e as int),
            ).drop_last() =~= path_components(p@.take(b as int)));
        }
        Some((b, e))
    }
}

/// Splits a local file path into `(day bucket, item bucket, file name)` as the
/// backup store addresses it, or reports which part of the path is unusable.
pub fn split_daydir_dir_file(p: &str) -> (r: Result<(String, String, String), PluginError>)
    ensures
        match derive_file(p@) {
            Ok(t) => {
                &&& r matches Ok(v)
                &&& v.0@ == t.0
                &&& v.1@ == t.1
                &&& v.2@ == t.2
            },
            Err(e) => r matches Err(e2) && e2 == e,
        },
{
    let n = p.unicode_len();
    proof {
        assert(p@.take(n as int) =~= p@);
    }
    match last_component_before(p, n) {
        None => Err(PluginError::MissingFileName),
        Some((bf, ef)) => {
            match last_component_before(p, bf) {
                None => Err(PluginError::MissingDirName),
                Some((bd, ed)) => {
                    if ed - bd < 8 {
                        Err(PluginError::ShortDayName)
                    } else {
                        let daydirname = p.substring_char(bd, bd + 8).to_owned();
                        let dirname = p.substring_char(bd, ed).to_owned();
                        let filename = p.substring_char(bf, ef).to_owned();
                        proof {
                            let comps = path_components(p@);
                            assert(comps[comps.len() - 2] == comps.drop_last().last());
                            assert(p@.subrange(bd as int, bd + 8) =~= p@.subrange(
                                bd as int,
                                ed as int,
                            ).take(8));
                        }
                        Ok((daydirname, dirname, filename))
                    }
                },
            }
        },
    }
}

/// Splits a local directory path into `(day bucket, item bucket)` as the
/// backup store addresses it, or reports which part of the path is unusable.
pub fn split_daydir_dir(p: &str) -> (r: Result<(String, String), PluginError>)
    ensures
        match derive_dir(p@) {
            Ok(t) => {
                &&& r matches Ok(v)
                &&& v.0@ == t.0
                &&& v.1@ == t.1
            },
            Err(e) => r matches Err(e2) && e2 == e,
        },
{
    let n = p.unicode_len();
    proof {
        assert(p@.take(n as int) =~= p@);
    }
    match last_component_before(p, n) {
        None => Err(PluginError::MissingDirName),
        Some((bi, ei)) => {
            match last_component_before(p, bi) {
                None => Err(PluginError::MissingDirName),
                Some((bd, ed)) => {
                    if ed - bd < 8 {
                        Err(PluginError::ShortDayName)
                    } else {
                        let daydirname = p.substring_char(bd, bd + 8).to_owned();
                        let dirname = p.substring_char(bi, ei).to_owned();
                        proof {
                            let comps = path_components(p@);
                            assert(comps[comps.len() - 2] == comps.drop_last().last());
                            assert(p@.subrange(bd as int, bd + 8) =~= p@.subrange(
                                bd as int,
                                ed as int,
                            ).take(8));
                        }
                        Ok((daydirname, dirname))
                    }
                },
            }
        },
    }
}

/// Derives the day bucket from a bare bucket name, as deletion addresses it:
/// the name must be at least 8 characters, and its first 8 are the day bucket.
pub fn daydir_of_bucket(b: &str) -> (r: Result<String, PluginError>)
    ensures
        match derive_bucket(b@) {
            Ok(d) => r matches Ok(v) && v@ == d,
            Err(e) => r matches Err(e2) && e2 == e,
        },
{
    let n = b.unicode_len();
    if n < 8 {
        Err(PluginError::InvalidBucketName)
    } else {
        let daydirname = b.substring_char(0, 8).to_owned();
        proof {
            assert(b@.subrange(0, 8) =~= b@.take(8));
        }
        Ok(daydirname)
    }
}

/// The backup-store path of a single file: `<root>/<day>/<item>/<file>`.
pub open spec fn store_path_spec(
    root: Seq<char>,
    day: Seq<char>,
    item: Seq<char>,
    file: Seq<char>,
) -> Seq<char> {
    root + seq!['/'] + day + seq!['/'] + item + seq!['/'] + file
}

/// The backup-store path of an item bucket's directory: `<root>/<day>/<item>`.
pub open spec fn store_dir_spec(root: Seq<char>, day: Seq<char>, item: Seq<char>) -> Seq<char> {
    root + seq!['/'] + day + seq!['/'] + item
}

/// Joins a backup-store file path out of its three derived parts.
pub fn store_path(root: &str, day: &str, item: &str, file: &str) -> (r: String)
    ensures
        r@ == store_path_spec(root@, day@, item@, file@),
{
    let mut s = store_dir(root, day, item);
    s.append("/");
    s.append(file);
    proof {
        reveal_strlit("/");
        assert("/"@ =~= seq!['/']);
        assert(s@ =~= store_path_spec(root@, day@, item@, file@));
    }
    s
}

/// Joins a backup-store directory path out of its two derived parts.
pub fn store_dir(root: &str, day: &str, item: &str) -> (r: String)
    ensures
        r@ == store_dir_spec(root@, day@, item@),
{
    let mut s = root.to_owned();
    s.append("/");
    s.append(day);
    s.append("/");
    s.append(item);
    proof {
        reveal_strlit("/");
        assert("/"@ =~= seq!['/']);
        assert(s@ =~= store_dir_spec(root@, day@, item@));
    }
    s
}

} // verus!
