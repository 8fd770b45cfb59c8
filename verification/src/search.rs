use vstd::prelude::*;
use vstd::string::*;
use crate::tags::chars_to_string;

verus! {

/// The imageboards a search can be pointed at.
#[derive(Clone, Copy, Debug, PartialEq, Eq, Structural)]
pub enum Source {
    E621,
    Rule34,
    Danbooru,
}

impl Default for Source {
    fn default() -> (r: Self)
        ensures
            r == Source::Danbooru,
    {
        Source::Danbooru
    }
}

impl Source {
    pub open spec fn name_spec(self) -> Seq<char> {
        match self {
            Source::E621 => "E621"@,
            Source::Rule34 => "Rule34"@,
            Source::Danbooru => "Danbooru"@,
        }
    }

    /// The source's display name.
    pub fn name(&self) -> (r: String)
        ensures
            r@ == self.name_spec(),
    {
        match self {
            Source::E621 => String::from_str("E621"),
            Source::Rule34 => String::from_str("Rule34"),
            Source::Danbooru => String::from_str("Danbooru"),
        }
    }
}

/// Progress of loading search results and their previews.
#[derive(Clone, Copy, Debug, PartialEq, Eq, Structural)]
pub enum SearchProgress {
    Complete,
    Searching,
    LoadingPosts { loaded: usize, total: usize },
}

impl Default for SearchProgress {
    fn default() -> (r: Self)
        ensures
            r == SearchProgress::Complete,
    {
        SearchProgress::Complete
    }
}

impl SearchProgress {
    /// While previews are loading, at least one is still outstanding.
    pub open spec fn inv(self) -> bool {
        self matches SearchProgress::LoadingPosts { loaded, total } ==> loaded < total
    }
}

/// What a user-initiated search asks for.
#[derive(Debug)]
pub struct SearchParameters {
    pub tags: String,
    pub source: Source,
    pub count: usize,
}

impl Default for SearchParameters {
    fn default() -> (r: Self)
        ensures
            r.tags@ == Seq::<char>::empty(),
            r.source == Source::Danbooru,
            r.count == 0,
    {
        SearchParameters { tags: String::new(), source: Source::Danbooru, count: 0 }
    }
}

/// Splitting a query string on spaces, scanned from the front: `cur` holds
/// the piece begun so far. Consecutive spaces yield empty pieces, and the
/// empty query yields one empty piece, as the split the search feeds its
/// query builder does.
pub open spec fn split_rec(s: Seq<char>, cur: Seq<char>) -> Seq<Seq<char>>
    decreases s.len(),
{
    if s.len() == 0 {
        seq![cur]
    } else if s[0] == ' ' {
        seq![cur] + split_rec(s.drop_first(), Seq::empty())
    } else {
        split_rec(s.drop_first(), cur.push(s[0]))
    }
}

/// The space-separated pieces of a tag query.
pub open spec fn split_tags_spec(s: Seq<char>) -> Seq<Seq<char>> {
    split_rec(s, Seq::empty())
}

/// Split a tag query on spaces, as the search hands it to its query
/// builder: one piece per space-separated word, empty pieces kept.
pub fn split_tags(s: &str) -> (r: Vec<String>)
    ensures
        r.deep_view() == split_tags_spec(s@),
{
    let n = s.unicode_len();
    let mut out: Vec<String> = Vec::new();
    let mut cur: Vec<char> = Vec::new();
    let mut i: usize = 0;
    proof {
        assert(s@.subrange(0, n as int) =~= s@);
        assert(out.deep_view() =~= Seq::<Seq<char>>::empty());
        assert(out.deep_view() + split_rec(s@, Seq::empty()) =~= split_tags_spec(s@));
    }
    while i < n
        invariant
            i <= n,
            n == s@.len(),
            split_tags_spec(s@) == out.deep_view() + split_rec(
                s@.subrange(i as int, n as int),
                cur@,
            ),
        decreases n - i,
    {
        let ghost rem = s@.subrange(i as int, n as int);
        let ghost out_before = out.deep_view();
        let ghost cur_before = cur@;
        let c = s.get_char(i);
        proof {
            assert(rem[0] == s@[i as int]);
            assert(rem.drop_first() =~= s@.subrange(i + 1, n as int));
        }
        if c == ' ' {
            let piece = chars_to_string(&cur);
            out.push(piece);
            cur = Vec::new();
            proof {
                assert(out.deep_view() =~= out_before.push(cur_before));
                assert(out_before.push(cur_before) =~= out_before + seq![cur_before]);
                assert(out.deep_view() + split_rec(rem.drop_first(), Seq::empty()) =~= out_before
                    + split_rec(rem, cur_before));
            }
        } else {
            cur.push(c);
            proof {
                assert(split_rec(rem, cur_before) == split_rec(rem.drop_first(), cur@));
            }
        }
        i = i + 1;
    }
    proof {
        assert(s@.subrange(n as int, n as int) =~= Seq::<char>::empty());
    }
    let ghost out_before = out.deep_view();
    let piece = chars_to_string(&cur);
    out.push(piece);
    proof {
        assert(out.deep_view() =~= out_before.push(cur@));
        assert(out_before.push(cur@) =~= out_before + seq![cur@]);
    }
    out
}

/// How one loaded preview moves the progress: the counter advances, and
/// loading finishes the moment it reaches the total. Outside of
/// `LoadingPosts` nothing changes.
pub open spec fn progress_up_spec(p: SearchProgress) -> SearchProgress {
    match p {
        SearchProgress::LoadingPosts { loaded, total } => {
            if loaded + 1 == total {
                SearchProgress::Complete
            } else {
                SearchProgress::LoadingPosts { loaded: (loaded + 1) as usize, total }
            }
        },
        _ => p,
    }
}

/// Record that one more preview finished loading.
pub fn search_progress_up(progress: &mut SearchProgress)
    requires
        old(progress).inv(),
    ensures
        *final(progress) == progress_up_spec(*old(progress)),
        final(progress).inv(),
{
    match *progress {
        SearchProgress::LoadingPosts { loaded, total } => {
            if loaded + 1 == total {
                *progress = SearchProgress::Complete;
            } else {
                *progress = SearchProgress::LoadingPosts { loaded: loaded + 1, total };
            }
        },
        _ => {},
    }
}

/// Begin a search: previous results are discarded by the caller, and the
/// progress shows a search in flight.
pub fn begin_search(progress: &mut SearchProgress)
    ensures
        *final(progress) == SearchProgress::Searching,
{
    *progress = SearchProgress::Searching;
}

/// Begin loading `count` previews for the posts a search returned: an empty
/// result set is complete at once.
pub fn begin_post_load(progress: &mut SearchProgress, count: usize)
    ensures
        *final(progress) == (if count == 0 {
            SearchProgress::Complete
        } else {
            SearchProgress::LoadingPosts { loaded: 0, total: count }
        }),
        final(progress).inv(),
{
    if count == 0 {
        *progress = SearchProgress::Complete;
    } else {
        *progress = SearchProgress::LoadingPosts { loaded: 0, total: count };
    }
}

} // verus!
