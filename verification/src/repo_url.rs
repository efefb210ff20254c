//! Repository locator: a syntactic best-effort parse of an opaque repository
//! URL into the `(owner, name)` pair the remote API is addressed with.  The
//! URL is split on `/` and the last two non-empty segments are taken; nothing
//! validates that the result is a reachable hosting location.

use vstd::prelude::*;

verus! {

/// The `(owner, name)` pair a repository URL points at.
#[derive(Debug, PartialEq, Eq)]
pub struct RepoInfo {
    pub owner: String,
    pub name: String,
}

/// Mathematical view of a [`RepoInfo`].
pub struct RepoInfoView {
    pub owner: Seq<char>,
    pub name: Seq<char>,
}

impl View for RepoInfo {
    type V = RepoInfoView;

    open spec fn view(&self) -> RepoInfoView {
        RepoInfoView { owner: self.owner@, name: self.name@ }
    }
}

/// Splitting state after reading a prefix of the URL: the non-empty segments
/// already closed by a `/`, and the (possibly empty) segment still open.
pub open spec fn split_state(s: Seq<char>) -> (Seq<Seq<char>>, Seq<char>)
    decreases s.len(),
{
    if s.len() == 0 {
        (Seq::empty(), Seq::empty())
    } else {
        let (done, cur) = split_state(s.drop_last());
        if s.last() == '/' {
            if cur.len() > 0 {
                (done.push(cur), Seq::empty())
            } else {
                (done, Seq::empty())
            }
        } else {
            (done, cur.push(s.last()))
        }
    }
}

/// The non-empty `/`-separated segments of a character sequence, in order.
pub open spec fn nonempty_segments(s: Seq<char>) -> Seq<Seq<char>> {
    let (done, cur) = split_state(s);
    if cur.len() > 0 {
        done.push(cur)
    } else {
        done
    }
}

/// What locating a repository URL yields: the last two non-empty segments as
/// `(owner, name)`, or nothing when fewer than two exist.  Trailing slashes
/// close only empty segments, so they never contribute.
pub open spec fn locate_view(url: Seq<char>) -> Option<(Seq<char>, Seq<char>)> {
    let segs = nonempty_segments(url);
    if segs.len() >= 2 {
        Some((segs[segs.len() - 2], segs[segs.len() - 1]))
    } else {
        None
    }
}

impl RepoInfo {
    /// Parses a repository URL into its `(owner, name)` pair, exactly as
    /// [`locate_view`] describes.
    pub fn from_url(url: &str) -> (r: Option<RepoInfo>)
        ensures
            match locate_view(url@) {
                Some(pair) => r matches Some(info) && info@.owner == pair.0 && info@.name
                    == pair.1,
                None => r is None,
            },
    {
        let n = url.unicode_len();
        let mut done: Vec<(usize, usize)> = Vec::new();
        let mut cur_start: Option<usize> = None;
        let mut i: usize = 0;
        while i < n
            invariant
                i <= n,
                n == url@.len(),
                ({
                    let (d, c) = split_state(url@.take(i as int));
                    &&& done@.len() == d.len()
                    &&& forall|k: int|
                        0 <= k < d.len() ==> (#[trigger] done@[k]).0 < done@[k].1 <= i
                            && url@.subrange(done@[k].0 as int, done@[k].1 as int) == d[k]
                    &&& match cur_start {
                        Some(s) => s < i && c == url@.subrange(s as int, i as int),
                        None => c.len() == 0,
                    }
                }),
            decreases n - i,
        {
            let ch = url.get_char(i);
            proof {
                assert(url@.take(i as int + 1).drop_last() =~= url@.take(i as int));
                assert(url@.take(i as int + 1).last() == url@[i as int]);
            }
            if ch == '/' {
                if let Some(s) = cur_start {
                    proof {
                        let (d, c) = split_state(url@.take(i as int));
                        assert(c.len() > 0);
                    }
                    done.push((s, i));
                    cur_start = None;
                }
            } else {
                match cur_start {
                    None => {
                        cur_start = Some(i);
                        proof {
                            let (d, c) = split_state(url@.take(i as int));
                            assert(c.push(url@[i as int]) =~= url@.subrange(i as int, i as int + 1));
                        }
                    },
                    Some(s) => {
                        proof {
                            let (d, c) = split_state(url@.take(i as int));
                            assert(c.push(url@[i as int]) =~= url@.subrange(s as int, i as int + 1));
                        }
                    },
                }
            }
            i = i + 1;
        }
        proof {
            assert(url@.take(n as int) =~= url@);
        }
        let bounds: Option<((usize, usize), (usize, usize))> = match cur_start {
            Some(s) => {
                if done.len() >= 1 {
                    Some((done[done.len() - 1], (s, n)))
                } else {
                    None
                }
            },
            None => {
                if done.len() >= 2 {
                    Some((done[done.len() - 2], done[done.len() - 1]))
                } else {
                    None
                }
            },
        };
        match bounds {
            Some((owner_bounds, name_bounds)) => {
                let owner = url.substring_char(owner_bounds.0, owner_bounds.1).to_owned();
                let name = url.substring_char(name_bounds.0, name_bounds.1).to_owned();
                Some(RepoInfo { owner, name })
            },
            None => None,
        }
    }
}

} // verus!
